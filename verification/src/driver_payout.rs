//! The driver payout ledger: completed fares accumulate in a driver's
//! pending balance until the driver withdraws them; the admin may also pay a
//! driver directly.

use vstd::prelude::*;
use vstd::hash_map::StringHashMap;
use crate::ledger::{
    Event, EventData, EventView, LedgerAction, LedgerActionView, Topic, TokenTransfer, TransferView,
    ledger_actions_view,
};

verus! {

/// The payout stored for one ride.
#[derive(Debug)]
pub struct PayoutRecord {
    pub driver: String,
    pub token: String,
    pub amount: i128,
    pub ride_id: String,
    pub timestamp: u64,
}

pub struct PayoutRecordView {
    pub driver: Seq<char>,
    pub token: Seq<char>,
    pub amount: i128,
    pub ride_id: Seq<char>,
    pub timestamp: u64,
}

impl View for PayoutRecord {
    type V = PayoutRecordView;

    open spec fn view(&self) -> PayoutRecordView {
        PayoutRecordView {
            driver: self.driver@,
            token: self.token@,
            amount: self.amount,
            ride_id: self.ride_id@,
            timestamp: self.timestamp,
        }
    }
}

impl Clone for PayoutRecord {
    fn clone(&self) -> (r: Self)
        ensures
            r == *self,
    {
        PayoutRecord {
            driver: self.driver.clone(),
            token: self.token.clone(),
            amount: self.amount,
            ride_id: self.ride_id.clone(),
            timestamp: self.timestamp,
        }
    }
}

/// A driver's earnings summary.
#[derive(Debug)]
pub struct DriverEarnings {
    pub driver: String,
    pub total_earned: i128,
    pub total_trips: u32,
    /// Accumulated but not yet withdrawn.
    pub pending: i128,
}

pub struct EarningsView {
    pub driver: Seq<char>,
    pub total_earned: i128,
    pub total_trips: u32,
    pub pending: i128,
}

impl View for DriverEarnings {
    type V = EarningsView;

    open spec fn view(&self) -> EarningsView {
        EarningsView {
            driver: self.driver@,
            total_earned: self.total_earned,
            total_trips: self.total_trips,
            pending: self.pending,
        }
    }
}

impl Clone for DriverEarnings {
    fn clone(&self) -> (r: Self)
        ensures
            r == *self,
    {
        DriverEarnings {
            driver: self.driver.clone(),
            total_earned: self.total_earned,
            total_trips: self.total_trips,
            pending: self.pending,
        }
    }
}

/// The addresses fixed at initialisation.
#[derive(Debug)]
pub struct PayoutLinks {
    pub admin: String,
    pub escrow_contract: String,
}

pub struct PayoutLinksView {
    pub admin: Seq<char>,
    pub escrow_contract: Seq<char>,
}

impl View for PayoutLinks {
    type V = PayoutLinksView;

    open spec fn view(&self) -> PayoutLinksView {
        PayoutLinksView { admin: self.admin@, escrow_contract: self.escrow_contract@ }
    }
}

/// Why the payout contract rejects a call.
#[derive(Clone, Copy, Debug, PartialEq, Eq, Structural)]
pub enum PayoutError {
    AlreadyInitialized,
    NotInitialized,
    RecordUnauthorized,
    InstantUnauthorized,
    AmountNotPositive,
    NoPendingBalance,
    RecordNotFound,
    Overflow,
}

pub open spec fn payout_error_text(e: PayoutError) -> &'static str {
    match e {
        PayoutError::AlreadyInitialized => "already initialized",
        PayoutError::NotInitialized => "not initialized",
        PayoutError::RecordUnauthorized => "only admin or escrow contract can record payouts",
        PayoutError::InstantUnauthorized => "only admin can do instant payouts",
        PayoutError::AmountNotPositive => "amount must be positive",
        PayoutError::NoPendingBalance => "no pending balance to withdraw",
        PayoutError::RecordNotFound => "payout record not found",
        PayoutError::Overflow => "arithmetic overflow",
    }
}

impl PayoutError {
    /// The reason given when the call is rejected.
    pub fn message(&self) -> (m: &'static str)
        ensures
            m == payout_error_text(*self),
    {
        match self {
            PayoutError::AlreadyInitialized => "already initialized",
            PayoutError::NotInitialized => "not initialized",
            PayoutError::RecordUnauthorized => "only admin or escrow contract can record payouts",
            PayoutError::InstantUnauthorized => "only admin can do instant payouts",
            PayoutError::AmountNotPositive => "amount must be positive",
            PayoutError::NoPendingBalance => "no pending balance to withdraw",
            PayoutError::RecordNotFound => "payout record not found",
            PayoutError::Overflow => "arithmetic overflow",
        }
    }
}

/// The payout contract's stored state, as a mathematical value.
pub struct DriverPayoutState {
    /// The contract's own address.
    pub address: Seq<char>,
    pub links: Option<PayoutLinksView>,
    /// Earnings keyed by driver.
    pub earnings: Map<Seq<char>, EarningsView>,
    /// Payout records keyed by ride id.
    pub records: Map<Seq<char>, PayoutRecordView>,
}

/// What a call on the payout contract yields: the next state and the
/// actions to carry out, or a rejection.
pub type PayoutOutcome = Result<(DriverPayoutState, Seq<LedgerActionView>), PayoutError>;

pub open spec fn ledger_transfer(token: Seq<char>, from: Seq<char>, to: Seq<char>, amount: i128) -> LedgerActionView {
    LedgerActionView::Transfer(TransferView { token, from, to, amount })
}

pub open spec fn ledger_event(topic: Topic, subject: Seq<char>, data: EventData) -> LedgerActionView {
    LedgerActionView::Publish(EventView { topic, subject, data })
}

/// `a + b` fits in an `i128`.
pub open spec fn fits_i128(a: int, b: int) -> bool {
    i128::MIN <= a + b <= i128::MAX
}

impl EarningsView {
    /// The summary after one more fare of `amount`, added to the pending
    /// balance or not.
    pub open spec fn credited(self, amount: i128, to_pending: bool) -> EarningsView {
        EarningsView {
            total_earned: (self.total_earned + amount) as i128,
            total_trips: (self.total_trips + 1) as u32,
            pending: if to_pending { (self.pending + amount) as i128 } else { self.pending },
            ..self
        }
    }

    /// Crediting one more fare of `amount` overflows none of the counters.
    pub open spec fn can_credit(self, amount: i128, to_pending: bool) -> bool {
        &&& fits_i128(self.total_earned as int, amount as int)
        &&& self.total_trips + 1 <= u32::MAX
        &&& to_pending ==> fits_i128(self.pending as int, amount as int)
    }
}

impl DriverPayoutState {
    /// Each summary is filed under its driver and holds
    /// `0 <= pending <= total_earned`; each record is filed under its ride
    /// and holds a positive amount.
    pub open spec fn inv(self) -> bool {
        &&& forall|k: Seq<char>|
            #[trigger] self.earnings.contains_key(k) ==> {
                &&& self.earnings[k].driver == k
                &&& 0 <= self.earnings[k].pending <= self.earnings[k].total_earned
            }
        &&& forall|k: Seq<char>|
            #[trigger] self.records.contains_key(k) ==> {
                &&& self.records[k].ride_id == k
                &&& self.records[k].amount > 0
            }
    }

    /// The driver's summary, all zero where none is stored.
    pub open spec fn earnings_of(self, driver: Seq<char>) -> EarningsView {
        if self.earnings.contains_key(driver) {
            self.earnings[driver]
        } else {
            EarningsView { driver, total_earned: 0, total_trips: 0, pending: 0 }
        }
    }

    pub open spec fn initialize(self, admin: Seq<char>, escrow_contract: Seq<char>) -> Result<DriverPayoutState, PayoutError> {
        if self.links is Some {
            Err(PayoutError::AlreadyInitialized)
        } else {
            Ok(DriverPayoutState { links: Some(PayoutLinksView { admin, escrow_contract }), ..self })
        }
    }

    /// The escrow contract, or the admin, credits a completed fare to the
    /// driver's pending balance; when the admin does so, the fare is pulled
    /// from the admin into the contract.
    pub open spec fn record_payout(
        self,
        caller: Seq<char>,
        driver: Seq<char>,
        token: Seq<char>,
        amount: i128,
        ride_id: Seq<char>,
        now: u64,
    ) -> PayoutOutcome {
        if self.links is None {
            Err(PayoutError::NotInitialized)
        } else if caller != self.links->0.admin && caller != self.links->0.escrow_contract {
            Err(PayoutError::RecordUnauthorized)
        } else if amount <= 0 {
            Err(PayoutError::AmountNotPositive)
        } else if !self.earnings_of(driver).can_credit(amount, true) {
            Err(PayoutError::Overflow)
        } else {
            let pull = if caller == self.links->0.admin {
                seq![ledger_transfer(token, caller, self.address, amount)]
            } else {
                Seq::empty()
            };
            Ok((
                DriverPayoutState {
                    earnings: self.earnings.insert(driver, self.earnings_of(driver).credited(amount, true)),
                    records: self.records.insert(
                        ride_id,
                        PayoutRecordView { driver, token, amount, ride_id, timestamp: now },
                    ),
                    ..self
                },
                pull.push(ledger_event(Topic::Recorded, ride_id, EventData::Amount(amount))),
            ))
        }
    }

    /// The driver takes the whole pending balance, paid in `token`.
    pub open spec fn withdraw(self, driver: Seq<char>, token: Seq<char>) -> Result<(DriverPayoutState, Seq<LedgerActionView>, i128), PayoutError> {
        let e = self.earnings_of(driver);
        if e.pending <= 0 {
            Err(PayoutError::NoPendingBalance)
        } else {
            Ok((
                DriverPayoutState {
                    earnings: self.earnings.insert(driver, EarningsView { pending: 0, ..e }),
                    ..self
                },
                seq![
                    ledger_transfer(token, self.address, driver, e.pending),
                    ledger_event(Topic::Withdraw, driver, EventData::Amount(e.pending)),
                ],
                e.pending,
            ))
        }
    }

    /// The admin pays the driver directly; the fare counts as earned but
    /// never enters the pending balance.
    pub open spec fn instant_payout(
        self,
        admin: Seq<char>,
        driver: Seq<char>,
        token: Seq<char>,
        amount: i128,
    ) -> PayoutOutcome {
        if self.links is None {
            Err(PayoutError::NotInitialized)
        } else if admin != self.links->0.admin {
            Err(PayoutError::InstantUnauthorized)
        } else if amount <= 0 {
            Err(PayoutError::AmountNotPositive)
        } else if !self.earnings_of(driver).can_credit(amount, false) {
            Err(PayoutError::Overflow)
        } else {
            Ok((
                DriverPayoutState {
                    earnings: self.earnings.insert(driver, self.earnings_of(driver).credited(amount, false)),
                    ..self
                },
                seq![
                    ledger_transfer(token, admin, driver, amount),
                    ledger_event(Topic::Instant, driver, EventData::Amount(amount)),
                ],
            ))
        }
    }
}

/// The call was answered as `want` says: on success the state became the
/// next state and the actions came back in order; on rejection the error
/// came back and the state is unchanged.
pub open spec fn payout_answered(
    pre: DriverPayoutState,
    post: DriverPayoutState,
    got: Result<Vec<LedgerAction>, PayoutError>,
    want: PayoutOutcome,
) -> bool {
    match want {
        Ok((next, actions)) => got matches Ok(v) && ledger_actions_view(v@) == actions && post == next,
        Err(e) => got == Err::<Vec<LedgerAction>, PayoutError>(e) && post == pre,
    }
}

impl EarningsView {
    /// A summary the contract could have stored.
    pub open spec fn can_be_stored(self) -> bool {
        0 <= self.pending <= self.total_earned
    }
}

impl PayoutRecordView {
    /// A record the contract could have stored.
    pub open spec fn can_be_stored(self) -> bool {
        self.amount > 0
    }
}

/// The summaries filed one after the other under their drivers.
pub open spec fn earnings_map(v: Seq<EarningsView>) -> Map<Seq<char>, EarningsView>
    decreases v.len(),
{
    if v.len() == 0 {
        Map::empty()
    } else {
        earnings_map(v.drop_last()).insert(v.last().driver, v.last())
    }
}

/// The records filed one after the other under their ride ids.
pub open spec fn payout_records_map(v: Seq<PayoutRecordView>) -> Map<Seq<char>, PayoutRecordView>
    decreases v.len(),
{
    if v.len() == 0 {
        Map::empty()
    } else {
        payout_records_map(v.drop_last()).insert(v.last().ride_id, v.last())
    }
}

pub open spec fn earnings_views(m: Map<Seq<char>, DriverEarnings>) -> Map<Seq<char>, EarningsView> {
    m.map_values(|e: DriverEarnings| e@)
}

pub open spec fn record_views(m: Map<Seq<char>, PayoutRecord>) -> Map<Seq<char>, PayoutRecordView> {
    m.map_values(|r: PayoutRecord| r@)
}

/// The driver payout contract with its storage.
pub struct DriverPayoutContract {
    address: String,
    links: Option<PayoutLinks>,
    earnings: StringHashMap<DriverEarnings>,
    records: StringHashMap<PayoutRecord>,
}

impl View for DriverPayoutContract {
    type V = DriverPayoutState;

    closed spec fn view(&self) -> DriverPayoutState {
        DriverPayoutState {
            address: self.address@,
            links: match self.links {
                Some(l) => Some(l@),
                None => None,
            },
            earnings: earnings_views(self.earnings@),
            records: record_views(self.records@),
        }
    }
}

impl DriverPayoutContract {
    /// A freshly deployed, not yet initialised contract at `address`.
    pub fn new(address: &str) -> (c: DriverPayoutContract)
        ensures
            c@.address == address@,
            c@.links is None,
            c@.earnings == Map::<Seq<char>, EarningsView>::empty(),
            c@.records == Map::<Seq<char>, PayoutRecordView>::empty(),
            c@.inv(),
    {
        let c = DriverPayoutContract {
            address: address.to_owned(),
            links: None,
            earnings: StringHashMap::new(),
            records: StringHashMap::new(),
        };
        assert(c@.earnings =~= Map::<Seq<char>, EarningsView>::empty());
        assert(c@.records =~= Map::<Seq<char>, PayoutRecordView>::empty());
        c
    }

    /// The contract at `address` with the stored `links`, `earnings` and
    /// `records`, as read back from the ledger; `None` where an entry is not
    /// one the contract could have stored. A later entry replaces an earlier
    /// one under the same key.
    pub fn restore(
        address: &str,
        links: Option<PayoutLinks>,
        earnings: Vec<DriverEarnings>,
        records: Vec<PayoutRecord>,
    ) -> (r: Option<DriverPayoutContract>)
        ensures
            r is Some <==> (forall|i: int| 0 <= i < earnings.len() ==> #[trigger] earnings@[i]@.can_be_stored())
                && (forall|i: int| 0 <= i < records.len() ==> #[trigger] records@[i]@.can_be_stored()),
            r matches Some(c) ==> {
                &&& c@.address == address@
                &&& c@.links == match links {
                    Some(l) => Some(l@),
                    None => None::<PayoutLinksView>,
                }
                &&& c@.earnings == earnings_map(earnings@.map_values(|e: DriverEarnings| e@))
                &&& c@.records == payout_records_map(records@.map_values(|e: PayoutRecord| e@))
                &&& c@.inv()
            },
    {
        let mut c = DriverPayoutContract::new(address);
        c.links = links;
        let ghost ev = earnings@.map_values(|e: DriverEarnings| e@);
        let ghost rv = records@.map_values(|e: PayoutRecord| e@);
        let mut i: usize = 0;
        while i < earnings.len()
            invariant
                0 <= i <= earnings.len(),
                ev == earnings@.map_values(|e: DriverEarnings| e@),
                c@.address == address@,
                c@.links == match links {
                    Some(l) => Some(l@),
                    None => None::<PayoutLinksView>,
                },
                c@.earnings == earnings_map(ev.take(i as int)),
                c@.records == Map::<Seq<char>, PayoutRecordView>::empty(),
                c@.inv(),
                forall|j: int| 0 <= j < i ==> #[trigger] earnings@[j]@.can_be_stored(),
            decreases earnings.len() - i,
        {
            let e = earnings[i].clone();
            if e.pending < 0 || e.pending > e.total_earned {
                assert(!earnings@[i as int]@.can_be_stored());
                return None;
            }
            assert(ev.take(i + 1).drop_last() =~= ev.take(i as int));
            c.store_earnings(e);
            i = i + 1;
        }
        assert(ev.take(earnings.len() as int) =~= ev);
        let mut i: usize = 0;
        while i < records.len()
            invariant
                0 <= i <= records.len(),
                ev == earnings@.map_values(|e: DriverEarnings| e@),
                rv == records@.map_values(|e: PayoutRecord| e@),
                c@.address == address@,
                c@.links == match links {
                    Some(l) => Some(l@),
                    None => None::<PayoutLinksView>,
                },
                c@.earnings == earnings_map(ev),
                c@.records == payout_records_map(rv.take(i as int)),
                c@.inv(),
                forall|j: int| 0 <= j < earnings.len() ==> #[trigger] earnings@[j]@.can_be_stored(),
                forall|j: int| 0 <= j < i ==> #[trigger] records@[j]@.can_be_stored(),
            decreases records.len() - i,
        {
            let rec = records[i].clone();
            if rec.amount <= 0 {
                assert(!records@[i as int]@.can_be_stored());
                return None;
            }
            assert(rv.take(i + 1).drop_last() =~= rv.take(i as int));
            c.store_record(rec);
            i = i + 1;
        }
        assert(rv.take(records.len() as int) =~= rv);
        Some(c)
    }

    /// Files `rec` under its ride id.
    fn store_record(&mut self, rec: PayoutRecord)
        ensures
            final(self)@ == (DriverPayoutState { records: old(self)@.records.insert(rec.ride_id@, rec@), ..old(self)@ }),
    {
        assert(record_views(self.records@.insert(rec.ride_id@, rec)) =~= record_views(self.records@).insert(
            rec.ride_id@,
            rec@,
        ));
        let key = rec.ride_id.clone();
        self.records.insert(key, rec);
    }

    /// The driver's summary, all zero where none is stored.
    fn earnings_or_zero(&self, driver: &str) -> (e: DriverEarnings)
        ensures
            e@ == self@.earnings_of(driver@),
    {
        match self.earnings.get(driver) {
            Some(e) => e.clone(),
            None => DriverEarnings { driver: driver.to_owned(), total_earned: 0, total_trips: 0, pending: 0 },
        }
    }

    /// Files `e` under its driver.
    fn store_earnings(&mut self, e: DriverEarnings)
        ensures
            final(self)@ == (DriverPayoutState { earnings: old(self)@.earnings.insert(e.driver@, e@), ..old(self)@ }),
    {
        assert(earnings_views(self.earnings@.insert(e.driver@, e)) =~= earnings_views(self.earnings@).insert(
            e.driver@,
            e@,
        ));
        let key = e.driver.clone();
        self.earnings.insert(key, e);
    }

    /// Stores the admin and the escrow contract, once.
    pub fn initialize(&mut self, admin: &str, escrow_contract: &str) -> (r: Result<(), PayoutError>)
        ensures
            match old(self)@.initialize(admin@, escrow_contract@) {
                Ok(next) => r is Ok && final(self)@ == next,
                Err(e) => r == Err::<(), PayoutError>(e) && final(self)@ == old(self)@,
            },
    {
        if self.links.is_some() {
            return Err(PayoutError::AlreadyInitialized);
        }
        self.links = Some(PayoutLinks { admin: admin.to_owned(), escrow_contract: escrow_contract.to_owned() });
        Ok(())
    }

    /// Credits a completed fare of `amount` to `driver` and files the payout
    /// under `ride_id`, stamped `now` (the ledger time).
    pub fn record_payout(
        &mut self,
        caller: &str,
        driver: &str,
        token: &str,
        amount: i128,
        ride_id: &str,
        now: u64,
    ) -> (r: Result<Vec<LedgerAction>, PayoutError>)
        requires
            old(self)@.inv(),
        ensures
            payout_answered(
                old(self)@,
                final(self)@,
                r,
                old(self)@.record_payout(caller@, driver@, token@, amount, ride_id@, now),
            ),
            final(self)@.inv(),
    {
        let (admin, escrow_contract) = match &self.links {
            Some(l) => (l.admin.clone(), l.escrow_contract.clone()),
            None => return Err(PayoutError::NotInitialized),
        };
        let caller = caller.to_owned();
        let by_admin = caller == admin;
        if !by_admin && caller != escrow_contract {
            return Err(PayoutError::RecordUnauthorized);
        }
        if amount <= 0 {
            return Err(PayoutError::AmountNotPositive);
        }
        let mut e = self.earnings_or_zero(driver);
        let total_earned = match e.total_earned.checked_add(amount) {
            Some(v) => v,
            None => return Err(PayoutError::Overflow),
        };
        let total_trips = match e.total_trips.checked_add(1) {
            Some(v) => v,
            None => return Err(PayoutError::Overflow),
        };
        let pending = match e.pending.checked_add(amount) {
            Some(v) => v,
            None => return Err(PayoutError::Overflow),
        };
        let ghost pre = old(self)@;
        let mut actions: Vec<LedgerAction> = Vec::new();
        if by_admin {
            actions.push(LedgerAction::Transfer(TokenTransfer::new(&token.to_owned(), &caller, &self.address, amount)));
        }
        actions.push(LedgerAction::Publish(Event::new(Topic::Recorded, &ride_id.to_owned(), EventData::Amount(amount))));
        e.total_earned = total_earned;
        e.total_trips = total_trips;
        e.pending = pending;
        self.store_earnings(e);
        let record = PayoutRecord {
            driver: driver.to_owned(),
            token: token.to_owned(),
            amount,
            ride_id: ride_id.to_owned(),
            timestamp: now,
        };
        self.store_record(record);
        assert(ledger_actions_view(actions@) =~= pre.record_payout(caller@, driver@, token@, amount, ride_id@, now)->Ok_0.1);
        Ok(actions)
    }

    /// The driver withdraws the whole pending balance; returns the amount
    /// paid together with the actions.
    pub fn withdraw(&mut self, driver: &str, token: &str) -> (r: Result<(i128, Vec<LedgerAction>), PayoutError>)
        requires
            old(self)@.inv(),
        ensures
            match old(self)@.withdraw(driver@, token@) {
                Ok((next, actions, amount)) => r matches Ok((paid, v)) && paid == amount && ledger_actions_view(v@)
                    == actions && final(self)@ == next,
                Err(e) => r == Err::<(i128, Vec<LedgerAction>), PayoutError>(e) && final(self)@ == old(self)@,
            },
            final(self)@.inv(),
    {
        let mut e = self.earnings_or_zero(driver);
        if e.pending <= 0 {
            return Err(PayoutError::NoPendingBalance);
        }
        let amount = e.pending;
        let ghost pre = old(self)@;
        let mut actions: Vec<LedgerAction> = Vec::new();
        actions.push(LedgerAction::Transfer(TokenTransfer::new(&token.to_owned(), &self.address, &e.driver, amount)));
        actions.push(LedgerAction::Publish(Event::new(Topic::Withdraw, &e.driver, EventData::Amount(amount))));
        e.pending = 0;
        self.store_earnings(e);
        assert(ledger_actions_view(actions@) =~= pre.withdraw(driver@, token@)->Ok_0.1);
        Ok((amount, actions))
    }

    /// The admin pays `amount` of `token` to `driver` at once.
    pub fn instant_payout(
        &mut self,
        admin: &str,
        driver: &str,
        token: &str,
        amount: i128,
    ) -> (r: Result<Vec<LedgerAction>, PayoutError>)
        requires
            old(self)@.inv(),
        ensures
            payout_answered(old(self)@, final(self)@, r, old(self)@.instant_payout(admin@, driver@, token@, amount)),
            final(self)@.inv(),
    {
        let stored_admin = match &self.links {
            Some(l) => l.admin.clone(),
            None => return Err(PayoutError::NotInitialized),
        };
        let admin = admin.to_owned();
        if admin != stored_admin {
            return Err(PayoutError::InstantUnauthorized);
        }
        if amount <= 0 {
            return Err(PayoutError::AmountNotPositive);
        }
        let mut e = self.earnings_or_zero(driver);
        let total_earned = match e.total_earned.checked_add(amount) {
            Some(v) => v,
            None => return Err(PayoutError::Overflow),
        };
        let total_trips = match e.total_trips.checked_add(1) {
            Some(v) => v,
            None => return Err(PayoutError::Overflow),
        };
        let ghost pre = old(self)@;
        let mut actions: Vec<LedgerAction> = Vec::new();
        actions.push(LedgerAction::Transfer(TokenTransfer::new(&token.to_owned(), &admin, &e.driver, amount)));
        actions.push(LedgerAction::Publish(Event::new(Topic::Instant, &e.driver, EventData::Amount(amount))));
        e.total_earned = total_earned;
        e.total_trips = total_trips;
        self.store_earnings(e);
        assert(ledger_actions_view(actions@) =~= pre.instant_payout(admin@, driver@, token@, amount)->Ok_0.1);
        Ok(actions)
    }

    /// The driver's earnings summary, all zero where none is stored.
    pub fn get_earnings(&self, driver: &str) -> (e: DriverEarnings)
        ensures
            e@ == self@.earnings_of(driver@),
    {
        self.earnings_or_zero(driver)
    }

    /// The payout filed under `ride_id`.
    pub fn get_payout_record(&self, ride_id: &str) -> (r: Result<PayoutRecord, PayoutError>)
        ensures
            match r {
                Ok(rec) => self@.records.contains_key(ride_id@) && rec@ == self@.records[ride_id@],
                Err(err) => !self@.records.contains_key(ride_id@) && err == PayoutError::RecordNotFound,
            },
    {
        match self.records.get(ride_id) {
            Some(rec) => Ok(rec.clone()),
            None => Err(PayoutError::RecordNotFound),
        }
    }

    /// The escrow contract allowed to record payouts.
    pub fn get_escrow_contract(&self) -> (r: Result<String, PayoutError>)
        ensures
            match self@.links {
                Some(l) => r matches Ok(a) && a@ == l.escrow_contract,
                None => r == Err::<String, PayoutError>(PayoutError::NotInitialized),
            },
    {
        match &self.links {
            Some(l) => Ok(l.escrow_contract.clone()),
            None => Err(PayoutError::NotInitialized),
        }
    }
}

} // verus!
