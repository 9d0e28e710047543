//! The ride escrow: a passenger's fare is locked when the ride is booked and
//! leaves the contract exactly once, to the driver (through the payout
//! contract), back to the passenger, or split between them after a dispute.

use vstd::prelude::*;
use vstd::hash_map::StringHashMap;
use crate::ledger::{Event, EventData, EventView, Topic, TokenTransfer, TransferView};

verus! {

/// Where a ride's escrowed fare stands.
#[derive(Clone, Copy, Debug, PartialEq, Eq, Structural)]
pub enum RideStatus {
    Pending,
    Funded,
    Completed,
    Refunded,
    Disputed,
}

/// The escrow record of one ride.
#[derive(Debug)]
pub struct RideEscrow {
    pub ride_id: String,
    pub passenger: String,
    pub driver: String,
    /// The token contract in which the fare is paid.
    pub token: String,
    pub amount: i128,
    pub status: RideStatus,
}

pub struct RideEscrowView {
    pub ride_id: Seq<char>,
    pub passenger: Seq<char>,
    pub driver: Seq<char>,
    pub token: Seq<char>,
    pub amount: i128,
    pub status: RideStatus,
}

impl View for RideEscrow {
    type V = RideEscrowView;

    open spec fn view(&self) -> RideEscrowView {
        RideEscrowView {
            ride_id: self.ride_id@,
            passenger: self.passenger@,
            driver: self.driver@,
            token: self.token@,
            amount: self.amount,
            status: self.status,
        }
    }
}

impl Clone for RideEscrow {
    fn clone(&self) -> (r: Self)
        ensures
            r == *self,
    {
        RideEscrow {
            ride_id: self.ride_id.clone(),
            passenger: self.passenger.clone(),
            driver: self.driver.clone(),
            token: self.token.clone(),
            amount: self.amount,
            status: self.status,
        }
    }
}

impl RideEscrowView {
    pub open spec fn with_status(self, status: RideStatus) -> RideEscrowView {
        RideEscrowView { status, ..self }
    }

    /// The ride's fare has left the contract for good.
    pub open spec fn is_settled(self) -> bool {
        self.status == RideStatus::Completed || self.status == RideStatus::Refunded
    }
}

/// The addresses fixed at initialisation.
#[derive(Debug)]
pub struct EscrowLinks {
    pub admin: String,
    pub payout_contract: String,
    pub dispute_contract: String,
}

pub struct EscrowLinksView {
    pub admin: Seq<char>,
    pub payout_contract: Seq<char>,
    pub dispute_contract: Seq<char>,
}

impl View for EscrowLinks {
    type V = EscrowLinksView;

    open spec fn view(&self) -> EscrowLinksView {
        EscrowLinksView {
            admin: self.admin@,
            payout_contract: self.payout_contract@,
            dispute_contract: self.dispute_contract@,
        }
    }
}

/// Why the escrow contract rejects a call.
#[derive(Clone, Copy, Debug, PartialEq, Eq, Structural)]
pub enum EscrowError {
    AlreadyInitialized,
    NotInitialized,
    AmountNotPositive,
    RideExists,
    RideNotFound,
    NotFunded,
    ReleaseUnauthorized,
    RefundUnauthorized,
    DisputeNotFunded,
    NotParticipant,
    ResolveUnauthorized,
    DismissUnauthorized,
    NotDisputed,
    SplitMismatch,
    NegativeShare,
}

pub open spec fn escrow_error_text(e: EscrowError) -> &'static str {
    match e {
        EscrowError::AlreadyInitialized => "already initialized",
        EscrowError::NotInitialized => "not initialized",
        EscrowError::AmountNotPositive => "amount must be positive",
        EscrowError::RideExists => "ride already exists",
        EscrowError::RideNotFound => "ride not found",
        EscrowError::NotFunded => "ride is not in funded state",
        EscrowError::ReleaseUnauthorized => "unauthorized: only driver or admin can release",
        EscrowError::RefundUnauthorized => "unauthorized: only passenger or admin can refund",
        EscrowError::DisputeNotFunded => "can only dispute a funded ride",
        EscrowError::NotParticipant => "only ride participants can raise a dispute",
        EscrowError::ResolveUnauthorized =>
            "unauthorized: only dispute resolution contract can resolve",
        EscrowError::DismissUnauthorized =>
            "unauthorized: only dispute resolution contract can dismiss",
        EscrowError::NotDisputed => "escrow is not in disputed state",
        EscrowError::SplitMismatch =>
            "passenger_amount + driver_amount must equal escrowed_amount",
        EscrowError::NegativeShare => "amounts cannot be negative",
    }
}

impl EscrowError {
    /// The reason given when the call is rejected.
    pub fn message(&self) -> (m: &'static str)
        ensures
            m == escrow_error_text(*self),
    {
        match self {
            EscrowError::AlreadyInitialized => "already initialized",
            EscrowError::NotInitialized => "not initialized",
            EscrowError::AmountNotPositive => "amount must be positive",
            EscrowError::RideExists => "ride already exists",
            EscrowError::RideNotFound => "ride not found",
            EscrowError::NotFunded => "ride is not in funded state",
            EscrowError::ReleaseUnauthorized => "unauthorized: only driver or admin can release",
            EscrowError::RefundUnauthorized => "unauthorized: only passenger or admin can refund",
            EscrowError::DisputeNotFunded => "can only dispute a funded ride",
            EscrowError::NotParticipant => "only ride participants can raise a dispute",
            EscrowError::ResolveUnauthorized =>
                "unauthorized: only dispute resolution contract can resolve",
            EscrowError::DismissUnauthorized =>
                "unauthorized: only dispute resolution contract can dismiss",
            EscrowError::NotDisputed => "escrow is not in disputed state",
            EscrowError::SplitMismatch =>
                "passenger_amount + driver_amount must equal escrowed_amount",
            EscrowError::NegativeShare => "amounts cannot be negative",
        }
    }
}

/// A call into the driver payout contract: `record_payout(caller, driver,
/// token, amount, ride_id)` on the contract at `payout_contract`.
#[derive(Debug)]
pub struct PayoutCall {
    pub payout_contract: String,
    pub caller: String,
    pub driver: String,
    pub token: String,
    pub amount: i128,
    pub ride_id: String,
}

pub struct PayoutCallView {
    pub payout_contract: Seq<char>,
    pub caller: Seq<char>,
    pub driver: Seq<char>,
    pub token: Seq<char>,
    pub amount: i128,
    pub ride_id: Seq<char>,
}

impl View for PayoutCall {
    type V = PayoutCallView;

    open spec fn view(&self) -> PayoutCallView {
        PayoutCallView {
            payout_contract: self.payout_contract@,
            caller: self.caller@,
            driver: self.driver@,
            token: self.token@,
            amount: self.amount,
            ride_id: self.ride_id@,
        }
    }
}

/// Outside work that a successful escrow call asks the host to carry out, in order.
#[derive(Debug)]
pub enum EscrowAction {
    Transfer(TokenTransfer),
    RecordPayout(PayoutCall),
    Publish(Event),
}

pub enum EscrowActionView {
    Transfer(TransferView),
    RecordPayout(PayoutCallView),
    Publish(EventView),
}

impl View for EscrowAction {
    type V = EscrowActionView;

    open spec fn view(&self) -> EscrowActionView {
        match self {
            EscrowAction::Transfer(t) => EscrowActionView::Transfer(t@),
            EscrowAction::RecordPayout(c) => EscrowActionView::RecordPayout(c@),
            EscrowAction::Publish(e) => EscrowActionView::Publish(e@),
        }
    }
}

pub open spec fn escrow_actions_view(v: Seq<EscrowAction>) -> Seq<EscrowActionView> {
    v.map_values(|a: EscrowAction| a@)
}

/// The escrow contract's stored state, as a mathematical value.
pub struct RideEscrowState {
    /// The contract's own address.
    pub address: Seq<char>,
    pub links: Option<EscrowLinksView>,
    /// Escrow records keyed by ride id.
    pub escrows: Map<Seq<char>, RideEscrowView>,
}

/// What a call on the escrow contract yields: the next state and the
/// actions to carry out, or a rejection.
pub type EscrowOutcome = Result<(RideEscrowState, Seq<EscrowActionView>), EscrowError>;

pub open spec fn transfer_action(token: Seq<char>, from: Seq<char>, to: Seq<char>, amount: i128) -> EscrowActionView {
    EscrowActionView::Transfer(TransferView { token, from, to, amount })
}

pub open spec fn event_action(topic: Topic, subject: Seq<char>, data: EventData) -> EscrowActionView {
    EscrowActionView::Publish(EventView { topic, subject, data })
}

impl RideEscrowState {
    /// Every stored record is filed under its own ride id, holds a positive
    /// fare and has been funded.
    pub open spec fn inv(self) -> bool {
        forall|k: Seq<char>|
            #[trigger] self.escrows.contains_key(k) ==> {
                &&& self.escrows[k].ride_id == k
                &&& self.escrows[k].amount > 0
                &&& self.escrows[k].status != RideStatus::Pending
            }
    }

    pub open spec fn with_status(self, ride_id: Seq<char>, status: RideStatus) -> RideEscrowState {
        RideEscrowState {
            escrows: self.escrows.insert(ride_id, self.escrows[ride_id].with_status(status)),
            ..self
        }
    }

    pub open spec fn initialize(
        self,
        admin: Seq<char>,
        payout_contract: Seq<char>,
        dispute_contract: Seq<char>,
    ) -> Result<RideEscrowState, EscrowError> {
        if self.links is Some {
            Err(EscrowError::AlreadyInitialized)
        } else {
            Ok(RideEscrowState { links: Some(EscrowLinksView { admin, payout_contract, dispute_contract }), ..self })
        }
    }

    pub open spec fn deposit(
        self,
        ride_id: Seq<char>,
        passenger: Seq<char>,
        driver: Seq<char>,
        token: Seq<char>,
        amount: i128,
    ) -> EscrowOutcome {
        if amount <= 0 {
            Err(EscrowError::AmountNotPositive)
        } else if self.escrows.contains_key(ride_id) {
            Err(EscrowError::RideExists)
        } else {
            let record = RideEscrowView { ride_id, passenger, driver, token, amount, status: RideStatus::Funded };
            Ok((
                RideEscrowState { escrows: self.escrows.insert(ride_id, record), ..self },
                seq![
                    transfer_action(token, passenger, self.address, amount),
                    event_action(Topic::Deposit, ride_id, EventData::Amount(amount)),
                ],
            ))
        }
    }

    pub open spec fn release(self, ride_id: Seq<char>, caller: Seq<char>) -> EscrowOutcome {
        if !self.escrows.contains_key(ride_id) {
            Err(EscrowError::RideNotFound)
        } else if self.escrows[ride_id].status != RideStatus::Funded {
            Err(EscrowError::NotFunded)
        } else if self.links is None {
            Err(EscrowError::NotInitialized)
        } else if caller != self.escrows[ride_id].driver && caller != self.links->0.admin {
            Err(EscrowError::ReleaseUnauthorized)
        } else {
            let e = self.escrows[ride_id];
            let payout = self.links->0.payout_contract;
            Ok((
                self.with_status(ride_id, RideStatus::Completed),
                seq![
                    transfer_action(e.token, self.address, payout, e.amount),
                    EscrowActionView::RecordPayout(PayoutCallView {
                        payout_contract: payout,
                        caller: self.address,
                        driver: e.driver,
                        token: e.token,
                        amount: e.amount,
                        ride_id,
                    }),
                    event_action(Topic::Release, ride_id, EventData::Amount(e.amount)),
                ],
            ))
        }
    }

    pub open spec fn refund(self, ride_id: Seq<char>, caller: Seq<char>) -> EscrowOutcome {
        if !self.escrows.contains_key(ride_id) {
            Err(EscrowError::RideNotFound)
        } else if self.escrows[ride_id].status != RideStatus::Funded {
            Err(EscrowError::NotFunded)
        } else if self.links is None {
            Err(EscrowError::NotInitialized)
        } else if caller != self.escrows[ride_id].passenger && caller != self.links->0.admin {
            Err(EscrowError::RefundUnauthorized)
        } else {
            let e = self.escrows[ride_id];
            Ok((
                self.with_status(ride_id, RideStatus::Refunded),
                seq![
                    transfer_action(e.token, self.address, e.passenger, e.amount),
                    event_action(Topic::Refund, ride_id, EventData::Amount(e.amount)),
                ],
            ))
        }
    }

    pub open spec fn dispute(self, ride_id: Seq<char>, caller: Seq<char>) -> EscrowOutcome {
        if !self.escrows.contains_key(ride_id) {
            Err(EscrowError::RideNotFound)
        } else if self.escrows[ride_id].status != RideStatus::Funded {
            Err(EscrowError::DisputeNotFunded)
        } else if caller != self.escrows[ride_id].passenger && caller != self.escrows[ride_id].driver {
            Err(EscrowError::NotParticipant)
        } else {
            Ok((
                self.with_status(ride_id, RideStatus::Disputed),
                seq![event_action(Topic::Dispute, ride_id, EventData::Nothing)],
            ))
        }
    }

    /// The actions that pay out a resolved dispute: the passenger's share
    /// directly, the driver's share through the payout contract, each only
    /// where it is positive.
    pub open spec fn split_actions(
        self,
        ride_id: Seq<char>,
        passenger_amount: i128,
        driver_amount: i128,
    ) -> Seq<EscrowActionView> {
        let e = self.escrows[ride_id];
        let payout = self.links->0.payout_contract;
        let to_passenger = if passenger_amount > 0 {
            seq![transfer_action(e.token, self.address, e.passenger, passenger_amount)]
        } else {
            Seq::empty()
        };
        let to_driver = if driver_amount > 0 {
            seq![
                transfer_action(e.token, self.address, payout, driver_amount),
                EscrowActionView::RecordPayout(PayoutCallView {
                    payout_contract: payout,
                    caller: self.address,
                    driver: e.driver,
                    token: e.token,
                    amount: driver_amount,
                    ride_id,
                }),
            ]
        } else {
            Seq::empty()
        };
        to_passenger + to_driver
    }

    pub open spec fn resolve_dispute(
        self,
        caller: Seq<char>,
        ride_id: Seq<char>,
        passenger_amount: i128,
        driver_amount: i128,
    ) -> EscrowOutcome {
        if self.links is None {
            Err(EscrowError::NotInitialized)
        } else if caller != self.links->0.dispute_contract {
            Err(EscrowError::ResolveUnauthorized)
        } else if !self.escrows.contains_key(ride_id) {
            Err(EscrowError::RideNotFound)
        } else if self.escrows[ride_id].status != RideStatus::Disputed {
            Err(EscrowError::NotDisputed)
        } else if passenger_amount + driver_amount != self.escrows[ride_id].amount {
            Err(EscrowError::SplitMismatch)
        } else if passenger_amount < 0 || driver_amount < 0 {
            Err(EscrowError::NegativeShare)
        } else {
            Ok((
                self.with_status(ride_id, RideStatus::Completed),
                self.split_actions(ride_id, passenger_amount, driver_amount).push(
                    event_action(Topic::Resolved, ride_id, EventData::Split(passenger_amount, driver_amount)),
                ),
            ))
        }
    }

    pub open spec fn dismiss_dispute(self, caller: Seq<char>, ride_id: Seq<char>) -> EscrowOutcome {
        if self.links is None {
            Err(EscrowError::NotInitialized)
        } else if caller != self.links->0.dispute_contract {
            Err(EscrowError::DismissUnauthorized)
        } else if !self.escrows.contains_key(ride_id) {
            Err(EscrowError::RideNotFound)
        } else if self.escrows[ride_id].status != RideStatus::Disputed {
            Err(EscrowError::NotDisputed)
        } else {
            Ok((
                self.with_status(ride_id, RideStatus::Funded),
                seq![event_action(Topic::Dismissed, ride_id, EventData::Nothing)],
            ))
        }
    }
}

/// The call was answered as `want` says: on success the state became the
/// next state and the actions came back in order; on rejection the error
/// came back and the state is unchanged.
pub open spec fn escrow_answered(
    pre: RideEscrowState,
    post: RideEscrowState,
    got: Result<Vec<EscrowAction>, EscrowError>,
    want: EscrowOutcome,
) -> bool {
    match want {
        Ok((next, actions)) => got matches Ok(v) && escrow_actions_view(v@) == actions && post == next,
        Err(e) => got == Err::<Vec<EscrowAction>, EscrowError>(e) && post == pre,
    }
}

impl RideEscrowView {
    /// A record the contract could have stored: a positive, funded fare.
    pub open spec fn can_be_stored(self) -> bool {
        self.amount > 0 && self.status != RideStatus::Pending
    }
}

/// The records filed one after the other under their ride ids.
pub open spec fn escrow_records_map(records: Seq<RideEscrowView>) -> Map<Seq<char>, RideEscrowView>
    decreases records.len(),
{
    if records.len() == 0 {
        Map::empty()
    } else {
        escrow_records_map(records.drop_last()).insert(records.last().ride_id, records.last())
    }
}

pub open spec fn escrow_views(m: Map<Seq<char>, RideEscrow>) -> Map<Seq<char>, RideEscrowView> {
    m.map_values(|e: RideEscrow| e@)
}

/// The ride escrow contract with its storage.
pub struct RideEscrowContract {
    address: String,
    links: Option<EscrowLinks>,
    escrows: StringHashMap<RideEscrow>,
}

impl View for RideEscrowContract {
    type V = RideEscrowState;

    closed spec fn view(&self) -> RideEscrowState {
        RideEscrowState {
            address: self.address@,
            links: match self.links {
                Some(l) => Some(l@),
                None => None,
            },
            escrows: escrow_views(self.escrows@),
        }
    }
}

proof fn lemma_views_insert(m: Map<Seq<char>, RideEscrow>, k: Seq<char>, v: RideEscrow)
    ensures
        escrow_views(m.insert(k, v)) == escrow_views(m).insert(k, v@),
{
    assert(escrow_views(m.insert(k, v)) =~= escrow_views(m).insert(k, v@));
}

impl RideEscrowContract {
    /// A freshly deployed, not yet initialised contract at `address`.
    pub fn new(address: &str) -> (c: RideEscrowContract)
        ensures
            c@.address == address@,
            c@.links is None,
            c@.escrows == Map::<Seq<char>, RideEscrowView>::empty(),
            c@.inv(),
    {
        let c = RideEscrowContract { address: address.to_owned(), links: None, escrows: StringHashMap::new() };
        assert(c@.escrows =~= Map::<Seq<char>, RideEscrowView>::empty());
        c
    }

    /// The contract at `address` with the stored `links` and `records`, as
    /// read back from the ledger; `None` where a record is not one the
    /// contract could have stored (a fare that is not positive, or a ride
    /// never funded). A later record replaces an earlier one of the same ride.
    pub fn restore(address: &str, links: Option<EscrowLinks>, records: Vec<RideEscrow>) -> (r: Option<RideEscrowContract>)
        ensures
            r is Some <==> forall|i: int| 0 <= i < records.len() ==> #[trigger] records@[i]@.can_be_stored(),
            r matches Some(c) ==> {
                &&& c@.address == address@
                &&& c@.links == match links {
                    Some(l) => Some(l@),
                    None => None::<EscrowLinksView>,
                }
                &&& c@.escrows == escrow_records_map(records@.map_values(|e: RideEscrow| e@))
                &&& c@.inv()
            },
    {
        let mut c = RideEscrowContract::new(address);
        c.links = links;
        let ghost views = records@.map_values(|e: RideEscrow| e@);
        let mut i: usize = 0;
        while i < records.len()
            invariant
                0 <= i <= records.len(),
                views == records@.map_values(|e: RideEscrow| e@),
                c@.address == address@,
                c@.links == match links {
                    Some(l) => Some(l@),
                    None => None::<EscrowLinksView>,
                },
                c@.escrows == escrow_records_map(views.take(i as int)),
                c@.inv(),
                forall|j: int| 0 <= j < i ==> #[trigger] records@[j]@.can_be_stored(),
            decreases records.len() - i,
        {
            let e = records[i].clone();
            if e.amount <= 0 || e.status == RideStatus::Pending {
                assert(!records@[i as int]@.can_be_stored());
                return None;
            }
            assert(views.take(i + 1).drop_last() =~= views.take(i as int));
            c.store(e);
            i = i + 1;
        }
        assert(views.take(records.len() as int) =~= views);
        Some(c)
    }

    /// The stored record of `ride_id`, if any.
    fn find(&self, ride_id: &str) -> (r: Option<&RideEscrow>)
        ensures
            match r {
                Some(e) => self@.escrows.contains_key(ride_id@) && e@ == self@.escrows[ride_id@],
                None => !self@.escrows.contains_key(ride_id@),
            },
    {
        self.escrows.get(ride_id)
    }

    /// Files `e` under its ride id.
    fn store(&mut self, e: RideEscrow)
        ensures
            final(self)@ == (RideEscrowState { escrows: old(self)@.escrows.insert(e.ride_id@, e@), ..old(self)@ }),
    {
        proof {
            lemma_views_insert(self.escrows@, e.ride_id@, e);
        }
        let key = e.ride_id.clone();
        self.escrows.insert(key, e);
    }

    /// Stores the platform admin and the linked payout and dispute contracts, once.
    pub fn initialize(
        &mut self,
        admin: &str,
        payout_contract: &str,
        dispute_contract: &str,
    ) -> (r: Result<(), EscrowError>)
        ensures
            match old(self)@.initialize(admin@, payout_contract@, dispute_contract@) {
                Ok(next) => r is Ok && final(self)@ == next,
                Err(e) => r == Err::<(), EscrowError>(e) && final(self)@ == old(self)@,
            },
    {
        if self.links.is_some() {
            return Err(EscrowError::AlreadyInitialized);
        }
        self.links = Some(EscrowLinks {
            admin: admin.to_owned(),
            payout_contract: payout_contract.to_owned(),
            dispute_contract: dispute_contract.to_owned(),
        });
        Ok(())
    }

    /// The passenger locks `amount` of `token` for the ride `ride_id`.
    pub fn deposit(
        &mut self,
        ride_id: &str,
        passenger: &str,
        driver: &str,
        token: &str,
        amount: i128,
    ) -> (r: Result<Vec<EscrowAction>, EscrowError>)
        requires
            old(self)@.inv(),
        ensures
            escrow_answered(old(self)@, final(self)@, r, old(self)@.deposit(ride_id@, passenger@, driver@, token@, amount)),
            final(self)@.inv(),
    {
        if amount <= 0 {
            return Err(EscrowError::AmountNotPositive);
        }
        if self.find(ride_id).is_some() {
            return Err(EscrowError::RideExists);
        }
        let record = RideEscrow {
            ride_id: ride_id.to_owned(),
            passenger: passenger.to_owned(),
            driver: driver.to_owned(),
            token: token.to_owned(),
            amount,
            status: RideStatus::Funded,
        };
        let mut actions: Vec<EscrowAction> = Vec::new();
        actions.push(EscrowAction::Transfer(TokenTransfer::new(&record.token, &record.passenger, &self.address, amount)));
        actions.push(EscrowAction::Publish(Event::new(Topic::Deposit, &record.ride_id, EventData::Amount(amount))));
        self.store(record);
        assert(escrow_actions_view(actions@) =~= old(self)@.deposit(ride_id@, passenger@, driver@, token@, amount)->Ok_0.1);
        Ok(actions)
    }

    /// The driver or the admin releases a funded ride's fare to the driver,
    /// through the payout contract.
    pub fn release(&mut self, ride_id: &str, caller: &str) -> (r: Result<Vec<EscrowAction>, EscrowError>)
        requires
            old(self)@.inv(),
        ensures
            escrow_answered(old(self)@, final(self)@, r, old(self)@.release(ride_id@, caller@)),
            final(self)@.inv(),
    {
        let mut e = match self.find(ride_id) {
            Some(e) => e.clone(),
            None => return Err(EscrowError::RideNotFound),
        };
        if e.status != RideStatus::Funded {
            return Err(EscrowError::NotFunded);
        }
        let (admin, payout) = match &self.links {
            Some(l) => (l.admin.clone(), l.payout_contract.clone()),
            None => return Err(EscrowError::NotInitialized),
        };
        let caller = caller.to_owned();
        if caller != e.driver && caller != admin {
            return Err(EscrowError::ReleaseUnauthorized);
        }
        let mut actions: Vec<EscrowAction> = Vec::new();
        actions.push(EscrowAction::Transfer(TokenTransfer::new(&e.token, &self.address, &payout, e.amount)));
        actions.push(
            EscrowAction::RecordPayout(PayoutCall {
                payout_contract: payout,
                caller: self.address.clone(),
                driver: e.driver.clone(),
                token: e.token.clone(),
                amount: e.amount,
                ride_id: ride_id.to_owned(),
            }),
        );
        actions.push(EscrowAction::Publish(Event::new(Topic::Release, &e.ride_id, EventData::Amount(e.amount))));
        e.status = RideStatus::Completed;
        self.store(e);
        assert(escrow_actions_view(actions@) =~= old(self)@.release(ride_id@, caller@)->Ok_0.1);
        Ok(actions)
    }

    /// The passenger or the admin returns a funded ride's fare to the passenger.
    pub fn refund(&mut self, ride_id: &str, caller: &str) -> (r: Result<Vec<EscrowAction>, EscrowError>)
        requires
            old(self)@.inv(),
        ensures
            escrow_answered(old(self)@, final(self)@, r, old(self)@.refund(ride_id@, caller@)),
            final(self)@.inv(),
    {
        let mut e = match self.find(ride_id) {
            Some(e) => e.clone(),
            None => return Err(EscrowError::RideNotFound),
        };
        if e.status != RideStatus::Funded {
            return Err(EscrowError::NotFunded);
        }
        let admin = match &self.links {
            Some(l) => l.admin.clone(),
            None => return Err(EscrowError::NotInitialized),
        };
        let caller = caller.to_owned();
        if caller != e.passenger && caller != admin {
            return Err(EscrowError::RefundUnauthorized);
        }
        let mut actions: Vec<EscrowAction> = Vec::new();
        actions.push(EscrowAction::Transfer(TokenTransfer::new(&e.token, &self.address, &e.passenger, e.amount)));
        actions.push(EscrowAction::Publish(Event::new(Topic::Refund, &e.ride_id, EventData::Amount(e.amount))));
        e.status = RideStatus::Refunded;
        self.store(e);
        assert(escrow_actions_view(actions@) =~= old(self)@.refund(ride_id@, caller@)->Ok_0.1);
        Ok(actions)
    }

    /// A participant of a funded ride freezes its fare until the dispute
    /// contract settles the matter.
    pub fn dispute(&mut self, ride_id: &str, caller: &str) -> (r: Result<Vec<EscrowAction>, EscrowError>)
        requires
            old(self)@.inv(),
        ensures
            escrow_answered(old(self)@, final(self)@, r, old(self)@.dispute(ride_id@, caller@)),
            final(self)@.inv(),
    {
        let mut e = match self.find(ride_id) {
            Some(e) => e.clone(),
            None => return Err(EscrowError::RideNotFound),
        };
        if e.status != RideStatus::Funded {
            return Err(EscrowError::DisputeNotFunded);
        }
        let caller = caller.to_owned();
        if caller != e.passenger && caller != e.driver {
            return Err(EscrowError::NotParticipant);
        }
        let mut actions: Vec<EscrowAction> = Vec::new();
        actions.push(EscrowAction::Publish(Event::new(Topic::Dispute, &e.ride_id, EventData::Nothing)));
        e.status = RideStatus::Disputed;
        self.store(e);
        assert(escrow_actions_view(actions@) =~= old(self)@.dispute(ride_id@, caller@)->Ok_0.1);
        Ok(actions)
    }

    /// The dispute contract settles a disputed ride by splitting its whole
    /// fare into two non-negative shares, one for the passenger and one for
    /// the driver.
    pub fn resolve_dispute(
        &mut self,
        caller: &str,
        ride_id: &str,
        passenger_amount: i128,
        driver_amount: i128,
    ) -> (r: Result<Vec<EscrowAction>, EscrowError>)
        requires
            old(self)@.inv(),
        ensures
            escrow_answered(
                old(self)@,
                final(self)@,
                r,
                old(self)@.resolve_dispute(caller@, ride_id@, passenger_amount, driver_amount),
            ),
            final(self)@.inv(),
    {
        let (dispute_contract, payout) = match &self.links {
            Some(l) => (l.dispute_contract.clone(), l.payout_contract.clone()),
            None => return Err(EscrowError::NotInitialized),
        };
        let caller = caller.to_owned();
        if caller != dispute_contract {
            return Err(EscrowError::ResolveUnauthorized);
        }
        let mut e = match self.find(ride_id) {
            Some(e) => e.clone(),
            None => return Err(EscrowError::RideNotFound),
        };
        if e.status != RideStatus::Disputed {
            return Err(EscrowError::NotDisputed);
        }
        match passenger_amount.checked_add(driver_amount) {
            Some(total) => {
                if total != e.amount {
                    return Err(EscrowError::SplitMismatch);
                }
            },
            None => return Err(EscrowError::SplitMismatch),
        }
        if passenger_amount < 0 || driver_amount < 0 {
            return Err(EscrowError::NegativeShare);
        }
        let ghost pre = old(self)@;
        let mut actions: Vec<EscrowAction> = Vec::new();
        if passenger_amount > 0 {
            actions.push(
                EscrowAction::Transfer(TokenTransfer::new(&e.token, &self.address, &e.passenger, passenger_amount)),
            );
        }
        if driver_amount > 0 {
            actions.push(EscrowAction::Transfer(TokenTransfer::new(&e.token, &self.address, &payout, driver_amount)));
            actions.push(
                EscrowAction::RecordPayout(PayoutCall {
                    payout_contract: payout,
                    caller: self.address.clone(),
                    driver: e.driver.clone(),
                    token: e.token.clone(),
                    amount: driver_amount,
                    ride_id: ride_id.to_owned(),
                }),
            );
        }
        assert(escrow_actions_view(actions@) =~= pre.split_actions(ride_id@, passenger_amount, driver_amount));
        actions.push(
            EscrowAction::Publish(
                Event::new(Topic::Resolved, &e.ride_id, EventData::Split(passenger_amount, driver_amount)),
            ),
        );
        e.status = RideStatus::Completed;
        self.store(e);
        assert(escrow_actions_view(actions@) =~= pre.resolve_dispute(caller@, ride_id@, passenger_amount, driver_amount)->Ok_0.1);
        Ok(actions)
    }

    /// The dispute contract dismisses a dispute: the ride is funded again.
    pub fn dismiss_dispute(&mut self, caller: &str, ride_id: &str) -> (r: Result<Vec<EscrowAction>, EscrowError>)
        requires
            old(self)@.inv(),
        ensures
            escrow_answered(old(self)@, final(self)@, r, old(self)@.dismiss_dispute(caller@, ride_id@)),
            final(self)@.inv(),
    {
        let dispute_contract = match &self.links {
            Some(l) => l.dispute_contract.clone(),
            None => return Err(EscrowError::NotInitialized),
        };
        let caller = caller.to_owned();
        if caller != dispute_contract {
            return Err(EscrowError::DismissUnauthorized);
        }
        let mut e = match self.find(ride_id) {
            Some(e) => e.clone(),
            None => return Err(EscrowError::RideNotFound),
        };
        if e.status != RideStatus::Disputed {
            return Err(EscrowError::NotDisputed);
        }
        let mut actions: Vec<EscrowAction> = Vec::new();
        actions.push(EscrowAction::Publish(Event::new(Topic::Dismissed, &e.ride_id, EventData::Nothing)));
        e.status = RideStatus::Funded;
        self.store(e);
        assert(escrow_actions_view(actions@) =~= old(self)@.dismiss_dispute(caller@, ride_id@)->Ok_0.1);
        Ok(actions)
    }

    /// The escrow record of `ride_id`.
    pub fn get_escrow(&self, ride_id: &str) -> (r: Result<RideEscrow, EscrowError>)
        ensures
            match r {
                Ok(e) => self@.escrows.contains_key(ride_id@) && e@ == self@.escrows[ride_id@],
                Err(err) => !self@.escrows.contains_key(ride_id@) && err == EscrowError::RideNotFound,
            },
    {
        match self.find(ride_id) {
            Some(e) => Ok(e.clone()),
            None => Err(EscrowError::RideNotFound),
        }
    }

    /// The platform admin.
    pub fn get_admin(&self) -> (r: Result<String, EscrowError>)
        ensures
            match self@.links {
                Some(l) => r matches Ok(a) && a@ == l.admin,
                None => r == Err::<String, EscrowError>(EscrowError::NotInitialized),
            },
    {
        match &self.links {
            Some(l) => Ok(l.admin.clone()),
            None => Err(EscrowError::NotInitialized),
        }
    }

    /// The linked driver payout contract.
    pub fn get_payout_contract(&self) -> (r: Result<String, EscrowError>)
        ensures
            match self@.links {
                Some(l) => r matches Ok(a) && a@ == l.payout_contract,
                None => r == Err::<String, EscrowError>(EscrowError::NotInitialized),
            },
    {
        match &self.links {
            Some(l) => Ok(l.payout_contract.clone()),
            None => Err(EscrowError::NotInitialized),
        }
    }

    /// The linked dispute resolution contract.
    pub fn get_dispute_contract(&self) -> (r: Result<String, EscrowError>)
        ensures
            match self@.links {
                Some(l) => r matches Ok(a) && a@ == l.dispute_contract,
                None => r == Err::<String, EscrowError>(EscrowError::NotInitialized),
            },
    {
        match &self.links {
            Some(l) => Ok(l.dispute_contract.clone()),
            None => Err(EscrowError::NotInitialized),
        }
    }
}

} // verus!
