//! Laws of the driver payout ledger: where every credited fare ends up.

use vstd::prelude::*;
use crate::driver_payout::{DriverPayoutState, PayoutError, PayoutRecordView, ledger_transfer};
use crate::escrow_laws::EscrowCall;
use crate::ledger::LedgerActionView;
use crate::ride_escrow::RideEscrowState;

verus! {

/// Any call that changes the payout ledger, with its arguments.
pub enum DriverPayoutCall {
    Record { caller: Seq<char>, driver: Seq<char>, token: Seq<char>, amount: i128, ride_id: Seq<char>, now: u64 },
    Withdraw { driver: Seq<char>, token: Seq<char> },
    Instant { admin: Seq<char>, driver: Seq<char>, token: Seq<char>, amount: i128 },
}

impl DriverPayoutCall {
    /// The driver whose earnings the call is about.
    pub open spec fn driver(self) -> Seq<char> {
        match self {
            DriverPayoutCall::Record { driver, .. } => driver,
            DriverPayoutCall::Withdraw { driver, .. } => driver,
            DriverPayoutCall::Instant { driver, .. } => driver,
        }
    }
}

impl DriverPayoutState {
    /// The answer to `call` in this state: the next state, the actions, and
    /// the amount paid out of the pending balance (zero but for a withdrawal).
    pub open spec fn apply(self, call: DriverPayoutCall) -> Result<(DriverPayoutState, Seq<LedgerActionView>, i128), PayoutError> {
        match call {
            DriverPayoutCall::Record { caller, driver, token, amount, ride_id, now } => match self.record_payout(
                caller,
                driver,
                token,
                amount,
                ride_id,
                now,
            ) {
                Ok((t, actions)) => Ok((t, actions, 0)),
                Err(e) => Err(e),
            },
            DriverPayoutCall::Withdraw { driver, token } => self.withdraw(driver, token),
            DriverPayoutCall::Instant { admin, driver, token, amount } => match self.instant_payout(
                admin,
                driver,
                token,
                amount,
            ) {
                Ok((t, actions)) => Ok((t, actions, 0)),
                Err(e) => Err(e),
            },
        }
    }

    /// The state after the calls `calls`, rejected calls changing nothing.
    pub open spec fn run(self, calls: Seq<DriverPayoutCall>) -> DriverPayoutState
        decreases calls.len(),
    {
        if calls.len() == 0 {
            self
        } else {
            match self.apply(calls[0]) {
                Ok((next, _, _)) => next.run(calls.drop_first()),
                Err(_) => self.run(calls.drop_first()),
            }
        }
    }

    /// The fares credited to `driver`'s pending balance by the accepted
    /// calls among `calls`, less what those calls paid out of it.
    pub open spec fn pending_flow(self, calls: Seq<DriverPayoutCall>, driver: Seq<char>) -> int
        decreases calls.len(),
    {
        if calls.len() == 0 {
            0
        } else {
            match self.apply(calls[0]) {
                Ok((next, _, paid)) => {
                    let credited = match calls[0] {
                        DriverPayoutCall::Record { amount, .. } => amount as int,
                        _ => 0,
                    };
                    (if calls[0].driver() == driver { credited - paid } else { 0 }) + next.pending_flow(
                        calls.drop_first(),
                        driver,
                    )
                },
                Err(_) => self.pending_flow(calls.drop_first(), driver),
            }
        }
    }

    /// The fares credited to `driver` as earned, recorded or paid at once,
    /// by the accepted calls among `calls`.
    pub open spec fn earned_flow(self, calls: Seq<DriverPayoutCall>, driver: Seq<char>) -> int
        decreases calls.len(),
    {
        if calls.len() == 0 {
            0
        } else {
            match self.apply(calls[0]) {
                Ok((next, _, _)) => {
                    let credited = match calls[0] {
                        DriverPayoutCall::Record { amount, .. } => amount as int,
                        DriverPayoutCall::Instant { amount, .. } => amount as int,
                        _ => 0,
                    };
                    (if calls[0].driver() == driver { credited } else { 0 }) + next.earned_flow(
                        calls.drop_first(),
                        driver,
                    )
                },
                Err(_) => self.earned_flow(calls.drop_first(), driver),
            }
        }
    }
}

/// Every call the ledger accepts keeps its invariant (so no pending balance
/// is ever negative or above what the driver earned), keeps the links, and
/// touches the earnings of the driver it names alone.
pub proof fn lemma_accepted_payout_call(s: DriverPayoutState, call: DriverPayoutCall)
    requires
        s.inv(),
        s.apply(call) is Ok,
    ensures
        ({
            let (t, _, paid) = s.apply(call)->Ok_0;
            &&& t.inv()
            &&& t.address == s.address
            &&& t.links == s.links
            &&& forall|d: Seq<char>| d != call.driver() ==> #[trigger] t.earnings_of(d) == s.earnings_of(d)
            &&& paid >= 0
        }),
{
    let (t, _, _) = s.apply(call)->Ok_0;
    assert forall|d: Seq<char>| d != call.driver() implies #[trigger] t.earnings_of(d) == s.earnings_of(d) by {
        assert(t.earnings.contains_key(d) == s.earnings.contains_key(d));
    }
}

/// A withdrawal pays the driver the whole pending balance from the
/// contract, in the token asked for, and leaves nothing pending; a second
/// withdrawal right after it is rejected.
pub proof fn lemma_withdraw_empties_pending(s: DriverPayoutState, driver: Seq<char>, token: Seq<char>, again: Seq<char>)
    requires
        s.withdraw(driver, token) is Ok,
    ensures
        ({
            let (t, actions, paid) = s.withdraw(driver, token)->Ok_0;
            &&& paid == s.earnings_of(driver).pending
            &&& paid > 0
            &&& actions[0] == ledger_transfer(token, s.address, driver, paid)
            &&& t.earnings_of(driver).pending == 0
            &&& t.earnings_of(driver).total_earned == s.earnings_of(driver).total_earned
            &&& t.withdraw(driver, again) == Err::<(DriverPayoutState, Seq<LedgerActionView>, i128), PayoutError>(
                PayoutError::NoPendingBalance,
            )
        }),
{
}

/// Over any run of calls, what was credited to a driver's pending balance,
/// less what was withdrawn, is exactly the change in that balance; and what
/// was credited as earned is exactly the change in the driver's total
/// earned. No recorded fare is lost or paid twice.
pub proof fn lemma_driver_accounts_balance(s: DriverPayoutState, calls: Seq<DriverPayoutCall>, driver: Seq<char>)
    requires
        s.inv(),
    ensures
        s.pending_flow(calls, driver) == s.run(calls).earnings_of(driver).pending - s.earnings_of(driver).pending,
        s.earned_flow(calls, driver) == s.run(calls).earnings_of(driver).total_earned - s.earnings_of(
            driver,
        ).total_earned,
        s.run(calls).inv(),
    decreases calls.len(),
{
    if calls.len() > 0 {
        let rest = calls.drop_first();
        match s.apply(calls[0]) {
            Ok((next, _, _)) => {
                lemma_accepted_payout_call(s, calls[0]);
                lemma_driver_accounts_balance(next, rest, driver);
            },
            Err(_) => {
                lemma_driver_accounts_balance(s, rest, driver);
            },
        }
    }
}

/// The ledger is initialised once: once it is, a further initialisation is
/// rejected, and no other call changes what was stored.
pub proof fn lemma_payout_initialized_once(
    s: DriverPayoutState,
    admin: Seq<char>,
    escrow_contract: Seq<char>,
    call: DriverPayoutCall,
)
    requires
        s.links is Some,
    ensures
        s.initialize(admin, escrow_contract) is Err,
        s.apply(call) matches Ok((t, _, _)) ==> t.links == s.links,
{
}

/// The payout ledger `p` is the one the escrow contract `e` pays into, and
/// knows `e` as its escrow contract (and not as its admin).
pub open spec fn linked_to_escrow(p: DriverPayoutState, e: RideEscrowState) -> bool {
    &&& e.links matches Some(el) && el.payout_contract == p.address
    &&& p.links matches Some(pl) && pl.escrow_contract == e.address && pl.admin != e.address
}

/// Every payout the escrow contract asks to record (on a release or on a
/// settled dispute) is accepted by the payout ledger it is linked to, as
/// long as the driver's counters do not overflow: the fare is credited to
/// the driver's pending balance, and no tokens are pulled, the escrow
/// having sent them already.
pub proof fn lemma_payout_accepts_escrow_calls(
    e: RideEscrowState,
    call: EscrowCall,
    p: DriverPayoutState,
    now: u64,
    i: int,
)
    requires
        e.inv(),
        e.apply(call) is Ok,
        linked_to_escrow(p, e),
        0 <= i < e.apply(call)->Ok_0.1.len(),
        e.apply(call)->Ok_0.1[i] is RecordPayout,
    ensures
        ({
            let c = e.apply(call)->Ok_0.1[i]->RecordPayout_0;
            &&& c.payout_contract == p.address
            &&& p.earnings_of(c.driver).can_credit(c.amount, true) ==> {
                &&& p.record_payout(c.caller, c.driver, c.token, c.amount, c.ride_id, now) matches Ok((t, actions))
                &&& t.earnings_of(c.driver).pending == p.earnings_of(c.driver).pending + c.amount
                &&& t.earnings_of(c.driver).total_earned == p.earnings_of(c.driver).total_earned + c.amount
                &&& actions.len() == 1
                &&& actions[0] is Publish
            }
        }),
{
}

/// An accepted payout record files exactly the given driver, token, amount,
/// ride and time under the ride id, and credits exactly the amount to the
/// driver's earnings and pending balance, counting one more trip; the
/// admin's record pulls exactly the amount from the admin into the
/// contract, the escrow's pulls nothing.
pub proof fn lemma_record_files_what_was_paid(
    s: DriverPayoutState,
    caller: Seq<char>,
    driver: Seq<char>,
    token: Seq<char>,
    amount: i128,
    ride_id: Seq<char>,
    now: u64,
)
    requires
        s.inv(),
        s.record_payout(caller, driver, token, amount, ride_id, now) is Ok,
    ensures
        ({
            let (t, actions) = s.record_payout(caller, driver, token, amount, ride_id, now)->Ok_0;
            let before = s.earnings_of(driver);
            let after = t.earnings_of(driver);
            &&& amount > 0
            &&& t.records.contains_key(ride_id)
            &&& t.records[ride_id] == (PayoutRecordView { driver, token, amount, ride_id, timestamp: now })
            &&& after.pending == before.pending + amount
            &&& after.total_earned == before.total_earned + amount
            &&& after.total_trips == before.total_trips + 1
            &&& after.driver == driver
            &&& (s.links->0.admin == caller ==> actions[0] == ledger_transfer(token, caller, s.address, amount)
                && actions.len() == 2)
            &&& (s.links->0.admin != caller ==> actions.len() == 1 && actions[0] is Publish)
            &&& forall|k: Seq<char>| k != ride_id ==> #[trigger] t.records.contains_key(k) == s.records.contains_key(k)
                && (s.records.contains_key(k) ==> t.records[k] == s.records[k])
        }),
{
}

/// An accepted instant payout sends exactly the amount from the admin to
/// the driver, credits it to the driver's total earned with one more trip,
/// and leaves the pending balance and the payout records as they were.
pub proof fn lemma_instant_payout_bypasses_pending(
    s: DriverPayoutState,
    admin: Seq<char>,
    driver: Seq<char>,
    token: Seq<char>,
    amount: i128,
)
    requires
        s.instant_payout(admin, driver, token, amount) is Ok,
    ensures
        ({
            let (t, actions) = s.instant_payout(admin, driver, token, amount)->Ok_0;
            let before = s.earnings_of(driver);
            let after = t.earnings_of(driver);
            &&& amount > 0
            &&& actions[0] == ledger_transfer(token, admin, driver, amount)
            &&& after.pending == before.pending
            &&& after.total_earned == before.total_earned + amount
            &&& after.total_trips == before.total_trips + 1
            &&& t.records == s.records
        }),
{
}

} // verus!
