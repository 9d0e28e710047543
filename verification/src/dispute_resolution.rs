//! The dispute desk: a participant of a disputed ride files a dispute, and
//! the admin either splits the escrowed fare between passenger and driver
//! or dismisses the dispute, in both cases by calling the escrow contract.

use vstd::prelude::*;
use vstd::hash_map::StringHashMap;
use crate::ledger::{Event, EventData, EventView, Topic};
use crate::ride_escrow::{RideEscrow, RideEscrowView, RideStatus};

verus! {

/// Where a dispute stands.
#[derive(Clone, Copy, Debug, PartialEq, Eq, Structural)]
pub enum DisputeStatus {
    Open,
    ResolvedForPassenger,
    ResolvedForDriver,
    SplitResolution,
    Dismissed,
}

/// Why a dispute was filed.
#[derive(Clone, Copy, Debug, PartialEq, Eq, Structural)]
pub enum DisputeReason {
    DriverNoShow,
    PassengerNoShow,
    RouteDeviation,
    SafetyConcern,
    PaymentIssue,
    Other,
}

/// A dispute over one ride.
#[derive(Debug)]
pub struct Dispute {
    pub dispute_id: String,
    pub ride_id: String,
    pub passenger: String,
    pub driver: String,
    pub token: String,
    pub escrowed_amount: i128,
    pub reason: DisputeReason,
    pub description: String,
    pub status: DisputeStatus,
    pub raised_by: String,
    pub raised_at: u64,
    pub resolved_at: u64,
    /// What the passenger gets on resolution.
    pub passenger_amount: i128,
    /// What the driver gets on resolution.
    pub driver_amount: i128,
}

pub struct DisputeView {
    pub dispute_id: Seq<char>,
    pub ride_id: Seq<char>,
    pub passenger: Seq<char>,
    pub driver: Seq<char>,
    pub token: Seq<char>,
    pub escrowed_amount: i128,
    pub reason: DisputeReason,
    pub description: Seq<char>,
    pub status: DisputeStatus,
    pub raised_by: Seq<char>,
    pub raised_at: u64,
    pub resolved_at: u64,
    pub passenger_amount: i128,
    pub driver_amount: i128,
}

impl View for Dispute {
    type V = DisputeView;

    open spec fn view(&self) -> DisputeView {
        DisputeView {
            dispute_id: self.dispute_id@,
            ride_id: self.ride_id@,
            passenger: self.passenger@,
            driver: self.driver@,
            token: self.token@,
            escrowed_amount: self.escrowed_amount,
            reason: self.reason,
            description: self.description@,
            status: self.status,
            raised_by: self.raised_by@,
            raised_at: self.raised_at,
            resolved_at: self.resolved_at,
            passenger_amount: self.passenger_amount,
            driver_amount: self.driver_amount,
        }
    }
}

impl Clone for Dispute {
    fn clone(&self) -> (r: Self)
        ensures
            r == *self,
    {
        Dispute {
            dispute_id: self.dispute_id.clone(),
            ride_id: self.ride_id.clone(),
            passenger: self.passenger.clone(),
            driver: self.driver.clone(),
            token: self.token.clone(),
            escrowed_amount: self.escrowed_amount,
            reason: self.reason,
            description: self.description.clone(),
            status: self.status,
            raised_by: self.raised_by.clone(),
            raised_at: self.raised_at,
            resolved_at: self.resolved_at,
            passenger_amount: self.passenger_amount,
            driver_amount: self.driver_amount,
        }
    }
}

/// The addresses fixed at initialisation.
#[derive(Debug)]
pub struct DisputeLinks {
    pub admin: String,
    pub escrow_contract: String,
}

pub struct DisputeLinksView {
    pub admin: Seq<char>,
    pub escrow_contract: Seq<char>,
}

impl View for DisputeLinks {
    type V = DisputeLinksView;

    open spec fn view(&self) -> DisputeLinksView {
        DisputeLinksView { admin: self.admin@, escrow_contract: self.escrow_contract@ }
    }
}

/// Why the dispute contract rejects a call.
#[derive(Clone, Copy, Debug, PartialEq, Eq, Structural)]
pub enum DisputeError {
    AlreadyInitialized,
    NotInitialized,
    DisputeExists,
    NotParticipant,
    EscrowNotDisputed,
    ResolveUnauthorized,
    DismissUnauthorized,
    DisputeNotFound,
    NotOpen,
    SplitMismatch,
    NegativeAmount,
}

pub open spec fn dispute_error_text(e: DisputeError) -> &'static str {
    match e {
        DisputeError::AlreadyInitialized => "already initialized",
        DisputeError::NotInitialized => "not initialized",
        DisputeError::DisputeExists => "dispute already exists",
        DisputeError::NotParticipant => "only ride participants can raise a dispute",
        DisputeError::EscrowNotDisputed => "associated escrow is not in disputed state",
        DisputeError::ResolveUnauthorized => "only admin can resolve disputes",
        DisputeError::DismissUnauthorized => "only admin can dismiss disputes",
        DisputeError::DisputeNotFound => "dispute not found",
        DisputeError::NotOpen => "dispute is not open",
        DisputeError::SplitMismatch => "passenger_amount + driver_amount must equal escrowed_amount",
        DisputeError::NegativeAmount => "amounts cannot be negative",
    }
}

impl DisputeError {
    /// The reason given when the call is rejected.
    pub fn message(&self) -> (m: &'static str)
        ensures
            m == dispute_error_text(*self),
    {
        match self {
            DisputeError::AlreadyInitialized => "already initialized",
            DisputeError::NotInitialized => "not initialized",
            DisputeError::DisputeExists => "dispute already exists",
            DisputeError::NotParticipant => "only ride participants can raise a dispute",
            DisputeError::EscrowNotDisputed => "associated escrow is not in disputed state",
            DisputeError::ResolveUnauthorized => "only admin can resolve disputes",
            DisputeError::DismissUnauthorized => "only admin can dismiss disputes",
            DisputeError::DisputeNotFound => "dispute not found",
            DisputeError::NotOpen => "dispute is not open",
            DisputeError::SplitMismatch => "passenger_amount + driver_amount must equal escrowed_amount",
            DisputeError::NegativeAmount => "amounts cannot be negative",
        }
    }
}

/// A call into the escrow contract at `escrow_contract`:
/// `resolve_dispute(caller, ride_id, passenger_amount, driver_amount)`.
#[derive(Debug)]
pub struct EscrowSettlement {
    pub escrow_contract: String,
    pub caller: String,
    pub ride_id: String,
    pub passenger_amount: i128,
    pub driver_amount: i128,
}

pub struct EscrowSettlementView {
    pub escrow_contract: Seq<char>,
    pub caller: Seq<char>,
    pub ride_id: Seq<char>,
    pub passenger_amount: i128,
    pub driver_amount: i128,
}

impl View for EscrowSettlement {
    type V = EscrowSettlementView;

    open spec fn view(&self) -> EscrowSettlementView {
        EscrowSettlementView {
            escrow_contract: self.escrow_contract@,
            caller: self.caller@,
            ride_id: self.ride_id@,
            passenger_amount: self.passenger_amount,
            driver_amount: self.driver_amount,
        }
    }
}

/// A call into the escrow contract at `escrow_contract`:
/// `dismiss_dispute(caller, ride_id)`.
#[derive(Debug)]
pub struct EscrowDismissal {
    pub escrow_contract: String,
    pub caller: String,
    pub ride_id: String,
}

pub struct EscrowDismissalView {
    pub escrow_contract: Seq<char>,
    pub caller: Seq<char>,
    pub ride_id: Seq<char>,
}

impl View for EscrowDismissal {
    type V = EscrowDismissalView;

    open spec fn view(&self) -> EscrowDismissalView {
        EscrowDismissalView { escrow_contract: self.escrow_contract@, caller: self.caller@, ride_id: self.ride_id@ }
    }
}

/// Outside work that a successful dispute call asks the host to carry out, in order.
#[derive(Debug)]
pub enum DisputeAction {
    Settle(EscrowSettlement),
    Dismiss(EscrowDismissal),
    Publish(Event),
}

pub enum DisputeActionView {
    Settle(EscrowSettlementView),
    Dismiss(EscrowDismissalView),
    Publish(EventView),
}

impl View for DisputeAction {
    type V = DisputeActionView;

    open spec fn view(&self) -> DisputeActionView {
        match self {
            DisputeAction::Settle(c) => DisputeActionView::Settle(c@),
            DisputeAction::Dismiss(c) => DisputeActionView::Dismiss(c@),
            DisputeAction::Publish(e) => DisputeActionView::Publish(e@),
        }
    }
}

pub open spec fn dispute_actions_view(v: Seq<DisputeAction>) -> Seq<DisputeActionView> {
    v.map_values(|a: DisputeAction| a@)
}

pub open spec fn dispute_event(topic: Topic, subject: Seq<char>, data: EventData) -> DisputeActionView {
    DisputeActionView::Publish(EventView { topic, subject, data })
}

/// The kind of resolution a split makes: all to the passenger where the
/// driver gets nothing, all to the driver where the passenger gets nothing,
/// a split otherwise.
pub open spec fn resolution_kind(passenger_amount: i128, driver_amount: i128) -> DisputeStatus {
    if driver_amount == 0 {
        DisputeStatus::ResolvedForPassenger
    } else if passenger_amount == 0 {
        DisputeStatus::ResolvedForDriver
    } else {
        DisputeStatus::SplitResolution
    }
}

/// The dispute contract's stored state, as a mathematical value.
pub struct DisputeState {
    /// The contract's own address.
    pub address: Seq<char>,
    pub links: Option<DisputeLinksView>,
    /// Disputes keyed by dispute id.
    pub disputes: Map<Seq<char>, DisputeView>,
}

/// What a call on the dispute contract yields: the next state and the
/// actions to carry out, or a rejection.
pub type DisputeOutcome = Result<(DisputeState, Seq<DisputeActionView>), DisputeError>;

impl DisputeView {
    /// The dispute has been decided, one way or the other.
    pub open spec fn is_closed(self) -> bool {
        self.status != DisputeStatus::Open
    }

    /// What the stored amounts and times say of the status: an open or
    /// dismissed dispute splits nothing; a resolved one splits the whole
    /// escrowed fare into two non-negative shares, and its status names the
    /// kind of split.
    pub open spec fn consistent(self) -> bool {
        match self.status {
            DisputeStatus::Open => self.passenger_amount == 0 && self.driver_amount == 0 && self.resolved_at
                == 0,
            DisputeStatus::Dismissed => self.passenger_amount == 0 && self.driver_amount == 0,
            _ => {
                &&& self.passenger_amount >= 0
                &&& self.driver_amount >= 0
                &&& self.passenger_amount + self.driver_amount == self.escrowed_amount
                &&& self.status == resolution_kind(self.passenger_amount, self.driver_amount)
            },
        }
    }
}

impl DisputeState {
    /// Each dispute is filed under its own id and is consistent.
    pub open spec fn inv(self) -> bool {
        forall|k: Seq<char>|
            #[trigger] self.disputes.contains_key(k) ==> self.disputes[k].dispute_id == k
                && self.disputes[k].consistent()
    }

    pub open spec fn initialize(self, admin: Seq<char>, escrow_contract: Seq<char>) -> Result<DisputeState, DisputeError> {
        if self.links is Some {
            Err(DisputeError::AlreadyInitialized)
        } else {
            Ok(DisputeState { links: Some(DisputeLinksView { admin, escrow_contract }), ..self })
        }
    }

    /// Before a dispute can be filed, the escrow record of its ride is read
    /// from the escrow contract this names.
    pub open spec fn escrow_to_consult(self, dispute_id: Seq<char>) -> Result<Seq<char>, DisputeError> {
        if self.disputes.contains_key(dispute_id) {
            Err(DisputeError::DisputeExists)
        } else if self.links is None {
            Err(DisputeError::NotInitialized)
        } else {
            Ok(self.links->0.escrow_contract)
        }
    }

    /// A participant files a dispute over a ride whose escrow (as read from
    /// the escrow contract) is disputed.
    pub open spec fn raise_dispute(
        self,
        dispute_id: Seq<char>,
        ride_id: Seq<char>,
        raised_by: Seq<char>,
        reason: DisputeReason,
        description: Seq<char>,
        escrow: RideEscrowView,
        now: u64,
    ) -> DisputeOutcome {
        if self.disputes.contains_key(dispute_id) {
            Err(DisputeError::DisputeExists)
        } else if self.links is None {
            Err(DisputeError::NotInitialized)
        } else if raised_by != escrow.passenger && raised_by != escrow.driver {
            Err(DisputeError::NotParticipant)
        } else if escrow.status != RideStatus::Disputed {
            Err(DisputeError::EscrowNotDisputed)
        } else {
            let d = DisputeView {
                dispute_id,
                ride_id,
                passenger: escrow.passenger,
                driver: escrow.driver,
                token: escrow.token,
                escrowed_amount: escrow.amount,
                reason,
                description,
                status: DisputeStatus::Open,
                raised_by,
                raised_at: now,
                resolved_at: 0,
                passenger_amount: 0,
                driver_amount: 0,
            };
            Ok((
                DisputeState { disputes: self.disputes.insert(dispute_id, d), ..self },
                seq![dispute_event(Topic::Raised, dispute_id, EventData::Amount(escrow.amount))],
            ))
        }
    }

    /// The admin splits an open dispute's escrowed fare.
    pub open spec fn resolve(
        self,
        admin: Seq<char>,
        dispute_id: Seq<char>,
        passenger_amount: i128,
        driver_amount: i128,
        now: u64,
    ) -> DisputeOutcome {
        if self.links is None {
            Err(DisputeError::NotInitialized)
        } else if admin != self.links->0.admin {
            Err(DisputeError::ResolveUnauthorized)
        } else if !self.disputes.contains_key(dispute_id) {
            Err(DisputeError::DisputeNotFound)
        } else if self.disputes[dispute_id].status != DisputeStatus::Open {
            Err(DisputeError::NotOpen)
        } else if passenger_amount + driver_amount != self.disputes[dispute_id].escrowed_amount {
            Err(DisputeError::SplitMismatch)
        } else if passenger_amount < 0 || driver_amount < 0 {
            Err(DisputeError::NegativeAmount)
        } else {
            let d = self.disputes[dispute_id];
            let resolved = DisputeView {
                status: resolution_kind(passenger_amount, driver_amount),
                passenger_amount,
                driver_amount,
                resolved_at: now,
                ..d
            };
            Ok((
                DisputeState { disputes: self.disputes.insert(dispute_id, resolved), ..self },
                seq![
                    DisputeActionView::Settle(EscrowSettlementView {
                        escrow_contract: self.links->0.escrow_contract,
                        caller: self.address,
                        ride_id: d.ride_id,
                        passenger_amount,
                        driver_amount,
                    }),
                    dispute_event(Topic::Resolved, dispute_id, EventData::Split(passenger_amount, driver_amount)),
                ],
            ))
        }
    }

    /// The admin dismisses an open dispute; the escrow goes back to funded.
    pub open spec fn dismiss(self, admin: Seq<char>, dispute_id: Seq<char>, now: u64) -> DisputeOutcome {
        if self.links is None {
            Err(DisputeError::NotInitialized)
        } else if admin != self.links->0.admin {
            Err(DisputeError::DismissUnauthorized)
        } else if !self.disputes.contains_key(dispute_id) {
            Err(DisputeError::DisputeNotFound)
        } else if self.disputes[dispute_id].status != DisputeStatus::Open {
            Err(DisputeError::NotOpen)
        } else {
            let d = self.disputes[dispute_id];
            let dismissed = DisputeView { status: DisputeStatus::Dismissed, resolved_at: now, ..d };
            Ok((
                DisputeState { disputes: self.disputes.insert(dispute_id, dismissed), ..self },
                seq![
                    DisputeActionView::Dismiss(EscrowDismissalView {
                        escrow_contract: self.links->0.escrow_contract,
                        caller: self.address,
                        ride_id: d.ride_id,
                    }),
                    dispute_event(Topic::Dismissed, dispute_id, EventData::Nothing),
                ],
            ))
        }
    }
}

/// The call was answered as `want` says: on success the state became the
/// next state and the actions came back in order; on rejection the error
/// came back and the state is unchanged.
pub open spec fn dispute_answered(
    pre: DisputeState,
    post: DisputeState,
    got: Result<Vec<DisputeAction>, DisputeError>,
    want: DisputeOutcome,
) -> bool {
    match want {
        Ok((next, actions)) => got matches Ok(v) && dispute_actions_view(v@) == actions && post == next,
        Err(e) => got == Err::<Vec<DisputeAction>, DisputeError>(e) && post == pre,
    }
}

/// The disputes filed one after the other under their ids.
pub open spec fn disputes_map(v: Seq<DisputeView>) -> Map<Seq<char>, DisputeView>
    decreases v.len(),
{
    if v.len() == 0 {
        Map::empty()
    } else {
        disputes_map(v.drop_last()).insert(v.last().dispute_id, v.last())
    }
}

pub open spec fn dispute_views(m: Map<Seq<char>, Dispute>) -> Map<Seq<char>, DisputeView> {
    m.map_values(|d: Dispute| d@)
}

/// Whether the stored amounts and times of `d` fit its status.
fn is_consistent(d: &Dispute) -> (b: bool)
    ensures
        b == d@.consistent(),
{
    match d.status {
        DisputeStatus::Open => d.passenger_amount == 0 && d.driver_amount == 0 && d.resolved_at == 0,
        DisputeStatus::Dismissed => d.passenger_amount == 0 && d.driver_amount == 0,
        _ => {
            let sums = match d.passenger_amount.checked_add(d.driver_amount) {
                Some(total) => total == d.escrowed_amount,
                None => false,
            };
            let kind = if d.driver_amount == 0 {
                DisputeStatus::ResolvedForPassenger
            } else if d.passenger_amount == 0 {
                DisputeStatus::ResolvedForDriver
            } else {
                DisputeStatus::SplitResolution
            };
            d.passenger_amount >= 0 && d.driver_amount >= 0 && sums && d.status == kind
        },
    }
}

/// The dispute resolution contract with its storage.
pub struct DisputeResolutionContract {
    address: String,
    links: Option<DisputeLinks>,
    disputes: StringHashMap<Dispute>,
}

impl View for DisputeResolutionContract {
    type V = DisputeState;

    closed spec fn view(&self) -> DisputeState {
        DisputeState {
            address: self.address@,
            links: match self.links {
                Some(l) => Some(l@),
                None => None,
            },
            disputes: dispute_views(self.disputes@),
        }
    }
}

impl DisputeResolutionContract {
    /// A freshly deployed, not yet initialised contract at `address`.
    pub fn new(address: &str) -> (c: DisputeResolutionContract)
        ensures
            c@.address == address@,
            c@.links is None,
            c@.disputes == Map::<Seq<char>, DisputeView>::empty(),
            c@.inv(),
    {
        let c = DisputeResolutionContract { address: address.to_owned(), links: None, disputes: StringHashMap::new() };
        assert(c@.disputes =~= Map::<Seq<char>, DisputeView>::empty());
        c
    }

    /// The contract at `address` with the stored `links` and `disputes`, as
    /// read back from the ledger; `None` where a dispute is not one the
    /// contract could have stored (its amounts do not fit its status). A
    /// later dispute replaces an earlier one of the same id.
    pub fn restore(address: &str, links: Option<DisputeLinks>, disputes: Vec<Dispute>) -> (r: Option<DisputeResolutionContract>)
        ensures
            r is Some <==> forall|i: int| 0 <= i < disputes.len() ==> #[trigger] disputes@[i]@.consistent(),
            r matches Some(c) ==> {
                &&& c@.address == address@
                &&& c@.links == match links {
                    Some(l) => Some(l@),
                    None => None::<DisputeLinksView>,
                }
                &&& c@.disputes == disputes_map(disputes@.map_values(|d: Dispute| d@))
                &&& c@.inv()
            },
    {
        let mut c = DisputeResolutionContract::new(address);
        c.links = links;
        let ghost views = disputes@.map_values(|d: Dispute| d@);
        let mut i: usize = 0;
        while i < disputes.len()
            invariant
                0 <= i <= disputes.len(),
                views == disputes@.map_values(|d: Dispute| d@),
                c@.address == address@,
                c@.links == match links {
                    Some(l) => Some(l@),
                    None => None::<DisputeLinksView>,
                },
                c@.disputes == disputes_map(views.take(i as int)),
                c@.inv(),
                forall|j: int| 0 <= j < i ==> #[trigger] disputes@[j]@.consistent(),
            decreases disputes.len() - i,
        {
            let d = disputes[i].clone();
            if !is_consistent(&d) {
                return None;
            }
            assert(views.take(i + 1).drop_last() =~= views.take(i as int));
            c.store(d);
            i = i + 1;
        }
        assert(views.take(disputes.len() as int) =~= views);
        Some(c)
    }

    /// Files `d` under its dispute id.
    fn store(&mut self, d: Dispute)
        ensures
            final(self)@ == (DisputeState { disputes: old(self)@.disputes.insert(d.dispute_id@, d@), ..old(self)@ }),
    {
        assert(dispute_views(self.disputes@.insert(d.dispute_id@, d)) =~= dispute_views(self.disputes@).insert(
            d.dispute_id@,
            d@,
        ));
        let key = d.dispute_id.clone();
        self.disputes.insert(key, d);
    }

    /// The stored dispute `dispute_id`, if any.
    fn find(&self, dispute_id: &str) -> (r: Option<&Dispute>)
        ensures
            match r {
                Some(d) => self@.disputes.contains_key(dispute_id@) && d@ == self@.disputes[dispute_id@],
                None => !self@.disputes.contains_key(dispute_id@),
            },
    {
        self.disputes.get(dispute_id)
    }

    /// Stores the admin and the escrow contract, once.
    pub fn initialize(&mut self, admin: &str, escrow_contract: &str) -> (r: Result<(), DisputeError>)
        ensures
            match old(self)@.initialize(admin@, escrow_contract@) {
                Ok(next) => r is Ok && final(self)@ == next,
                Err(e) => r == Err::<(), DisputeError>(e) && final(self)@ == old(self)@,
            },
    {
        if self.links.is_some() {
            return Err(DisputeError::AlreadyInitialized);
        }
        self.links = Some(DisputeLinks { admin: admin.to_owned(), escrow_contract: escrow_contract.to_owned() });
        Ok(())
    }

    /// The escrow contract to read the ride's record from before filing
    /// the dispute `dispute_id`.
    pub fn escrow_to_consult(&self, dispute_id: &str) -> (r: Result<String, DisputeError>)
        ensures
            match self@.escrow_to_consult(dispute_id@) {
                Ok(a) => r matches Ok(got) && got@ == a,
                Err(e) => r == Err::<String, DisputeError>(e),
            },
    {
        if self.find(dispute_id).is_some() {
            return Err(DisputeError::DisputeExists);
        }
        match &self.links {
            Some(l) => Ok(l.escrow_contract.clone()),
            None => Err(DisputeError::NotInitialized),
        }
    }

    /// `raised_by` files the dispute `dispute_id` over `ride_id`, whose
    /// escrow record `escrow` was read from the escrow contract, at ledger
    /// time `now`.
    pub fn raise_dispute(
        &mut self,
        dispute_id: &str,
        ride_id: &str,
        raised_by: &str,
        reason: DisputeReason,
        description: &str,
        escrow: &RideEscrow,
        now: u64,
    ) -> (r: Result<Vec<DisputeAction>, DisputeError>)
        requires
            old(self)@.inv(),
        ensures
            dispute_answered(
                old(self)@,
                final(self)@,
                r,
                old(self)@.raise_dispute(dispute_id@, ride_id@, raised_by@, reason, description@, escrow@, now),
            ),
            final(self)@.inv(),
    {
        if self.find(dispute_id).is_some() {
            return Err(DisputeError::DisputeExists);
        }
        if self.links.is_none() {
            return Err(DisputeError::NotInitialized);
        }
        let raised_by = raised_by.to_owned();
        if raised_by != escrow.passenger && raised_by != escrow.driver {
            return Err(DisputeError::NotParticipant);
        }
        if escrow.status != RideStatus::Disputed {
            return Err(DisputeError::EscrowNotDisputed);
        }
        let d = Dispute {
            dispute_id: dispute_id.to_owned(),
            ride_id: ride_id.to_owned(),
            passenger: escrow.passenger.clone(),
            driver: escrow.driver.clone(),
            token: escrow.token.clone(),
            escrowed_amount: escrow.amount,
            reason,
            description: description.to_owned(),
            status: DisputeStatus::Open,
            raised_by,
            raised_at: now,
            resolved_at: 0,
            passenger_amount: 0,
            driver_amount: 0,
        };
        let ghost pre = old(self)@;
        let mut actions: Vec<DisputeAction> = Vec::new();
        actions.push(DisputeAction::Publish(Event::new(Topic::Raised, &d.dispute_id, EventData::Amount(escrow.amount))));
        self.store(d);
        assert(dispute_actions_view(actions@) =~= pre.raise_dispute(
            dispute_id@,
            ride_id@,
            raised_by@,
            reason,
            description@,
            escrow@,
            now,
        )->Ok_0.1);
        Ok(actions)
    }

    /// The admin splits the escrowed fare of the open dispute `dispute_id`
    /// at ledger time `now`.
    pub fn resolve(
        &mut self,
        admin: &str,
        dispute_id: &str,
        passenger_amount: i128,
        driver_amount: i128,
        now: u64,
    ) -> (r: Result<Vec<DisputeAction>, DisputeError>)
        requires
            old(self)@.inv(),
        ensures
            dispute_answered(
                old(self)@,
                final(self)@,
                r,
                old(self)@.resolve(admin@, dispute_id@, passenger_amount, driver_amount, now),
            ),
            final(self)@.inv(),
    {
        let (stored_admin, escrow_contract) = match &self.links {
            Some(l) => (l.admin.clone(), l.escrow_contract.clone()),
            None => return Err(DisputeError::NotInitialized),
        };
        let admin = admin.to_owned();
        if admin != stored_admin {
            return Err(DisputeError::ResolveUnauthorized);
        }
        let mut d = match self.find(dispute_id) {
            Some(d) => d.clone(),
            None => return Err(DisputeError::DisputeNotFound),
        };
        if d.status != DisputeStatus::Open {
            return Err(DisputeError::NotOpen);
        }
        match passenger_amount.checked_add(driver_amount) {
            Some(total) => {
                if total != d.escrowed_amount {
                    return Err(DisputeError::SplitMismatch);
                }
            },
            None => return Err(DisputeError::SplitMismatch),
        }
        if passenger_amount < 0 || driver_amount < 0 {
            return Err(DisputeError::NegativeAmount);
        }
        let ghost pre = old(self)@;
        let mut actions: Vec<DisputeAction> = Vec::new();
        actions.push(
            DisputeAction::Settle(EscrowSettlement {
                escrow_contract,
                caller: self.address.clone(),
                ride_id: d.ride_id.clone(),
                passenger_amount,
                driver_amount,
            }),
        );
        actions.push(
            DisputeAction::Publish(
                Event::new(Topic::Resolved, &d.dispute_id, EventData::Split(passenger_amount, driver_amount)),
            ),
        );
        d.status = if driver_amount == 0 {
            DisputeStatus::ResolvedForPassenger
        } else if passenger_amount == 0 {
            DisputeStatus::ResolvedForDriver
        } else {
            DisputeStatus::SplitResolution
        };
        d.passenger_amount = passenger_amount;
        d.driver_amount = driver_amount;
        d.resolved_at = now;
        self.store(d);
        assert(dispute_actions_view(actions@) =~= pre.resolve(
            admin@,
            dispute_id@,
            passenger_amount,
            driver_amount,
            now,
        )->Ok_0.1);
        Ok(actions)
    }

    /// The admin dismisses the open dispute `dispute_id` at ledger time `now`.
    pub fn dismiss(&mut self, admin: &str, dispute_id: &str, now: u64) -> (r: Result<Vec<DisputeAction>, DisputeError>)
        requires
            old(self)@.inv(),
        ensures
            dispute_answered(old(self)@, final(self)@, r, old(self)@.dismiss(admin@, dispute_id@, now)),
            final(self)@.inv(),
    {
        let (stored_admin, escrow_contract) = match &self.links {
            Some(l) => (l.admin.clone(), l.escrow_contract.clone()),
            None => return Err(DisputeError::NotInitialized),
        };
        let admin = admin.to_owned();
        if admin != stored_admin {
            return Err(DisputeError::DismissUnauthorized);
        }
        let mut d = match self.find(dispute_id) {
            Some(d) => d.clone(),
            None => return Err(DisputeError::DisputeNotFound),
        };
        if d.status != DisputeStatus::Open {
            return Err(DisputeError::NotOpen);
        }
        let ghost pre = old(self)@;
        let mut actions: Vec<DisputeAction> = Vec::new();
        actions.push(
            DisputeAction::Dismiss(
                EscrowDismissal { escrow_contract, caller: self.address.clone(), ride_id: d.ride_id.clone() },
            ),
        );
        actions.push(DisputeAction::Publish(Event::new(Topic::Dismissed, &d.dispute_id, EventData::Nothing)));
        d.status = DisputeStatus::Dismissed;
        d.resolved_at = now;
        self.store(d);
        assert(dispute_actions_view(actions@) =~= pre.dismiss(admin@, dispute_id@, now)->Ok_0.1);
        Ok(actions)
    }

    /// The dispute `dispute_id`.
    pub fn get_dispute(&self, dispute_id: &str) -> (r: Result<Dispute, DisputeError>)
        ensures
            match r {
                Ok(d) => self@.disputes.contains_key(dispute_id@) && d@ == self@.disputes[dispute_id@],
                Err(err) => !self@.disputes.contains_key(dispute_id@) && err == DisputeError::DisputeNotFound,
            },
    {
        match self.find(dispute_id) {
            Some(d) => Ok(d.clone()),
            None => Err(DisputeError::DisputeNotFound),
        }
    }

    /// The admin.
    pub fn get_admin(&self) -> (r: Result<String, DisputeError>)
        ensures
            match self@.links {
                Some(l) => r matches Ok(a) && a@ == l.admin,
                None => r == Err::<String, DisputeError>(DisputeError::NotInitialized),
            },
    {
        match &self.links {
            Some(l) => Ok(l.admin.clone()),
            None => Err(DisputeError::NotInitialized),
        }
    }

    /// The linked escrow contract.
    pub fn get_escrow_contract(&self) -> (r: Result<String, DisputeError>)
        ensures
            match self@.links {
                Some(l) => r matches Ok(a) && a@ == l.escrow_contract,
                None => r == Err::<String, DisputeError>(DisputeError::NotInitialized),
            },
    {
        match &self.links {
            Some(l) => Ok(l.escrow_contract.clone()),
            None => Err(DisputeError::NotInitialized),
        }
    }
}

} // verus!
