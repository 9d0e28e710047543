//! Laws of the dispute desk, and of its dealings with the escrow contract.

use vstd::prelude::*;
use crate::dispute_resolution::{
    DisputeActionView, DisputeOutcome, DisputeReason, DisputeState, DisputeStatus, DisputeView, resolution_kind,
};
use crate::escrow_laws::EscrowCall;
use crate::ride_escrow::{RideEscrowState, RideEscrowView, RideStatus};

verus! {

/// Any call that changes the dispute desk, with its arguments.
pub enum DisputeCall {
    Raise {
        dispute_id: Seq<char>,
        ride_id: Seq<char>,
        raised_by: Seq<char>,
        reason: DisputeReason,
        description: Seq<char>,
        escrow: RideEscrowView,
        now: u64,
    },
    Resolve { admin: Seq<char>, dispute_id: Seq<char>, passenger_amount: i128, driver_amount: i128, now: u64 },
    Dismiss { admin: Seq<char>, dispute_id: Seq<char>, now: u64 },
}

impl DisputeCall {
    /// The dispute that the call is about.
    pub open spec fn dispute(self) -> Seq<char> {
        match self {
            DisputeCall::Raise { dispute_id, .. } => dispute_id,
            DisputeCall::Resolve { dispute_id, .. } => dispute_id,
            DisputeCall::Dismiss { dispute_id, .. } => dispute_id,
        }
    }
}

impl DisputeState {
    /// The answer to `call` in this state.
    pub open spec fn apply(self, call: DisputeCall) -> DisputeOutcome {
        match call {
            DisputeCall::Raise { dispute_id, ride_id, raised_by, reason, description, escrow, now } =>
                self.raise_dispute(dispute_id, ride_id, raised_by, reason, description, escrow, now),
            DisputeCall::Resolve { admin, dispute_id, passenger_amount, driver_amount, now } =>
                self.resolve(admin, dispute_id, passenger_amount, driver_amount, now),
            DisputeCall::Dismiss { admin, dispute_id, now } => self.dismiss(admin, dispute_id, now),
        }
    }
}

/// Every call the desk accepts keeps its invariant and touches the dispute
/// it names alone; a dispute that was already filed keeps its ride,
/// parties, token, escrowed fare, reason, description, filer and filing
/// time.
pub proof fn lemma_accepted_dispute_call(s: DisputeState, call: DisputeCall)
    requires
        s.inv(),
        s.apply(call) is Ok,
    ensures
        ({
            let (t, _) = s.apply(call)->Ok_0;
            let k = call.dispute();
            &&& t.inv()
            &&& t.address == s.address
            &&& t.links == s.links
            &&& t.disputes.contains_key(k)
            &&& forall|j: Seq<char>|
                j != k ==> (#[trigger] t.disputes.contains_key(j) == s.disputes.contains_key(j) && (
                s.disputes.contains_key(j) ==> t.disputes[j] == s.disputes[j]))
            &&& s.disputes.contains_key(k) ==> {
                let (a, b) = (s.disputes[k], t.disputes[k]);
                &&& b.ride_id == a.ride_id && b.passenger == a.passenger && b.driver == a.driver
                &&& b.token == a.token && b.escrowed_amount == a.escrowed_amount
                &&& b.reason == a.reason && b.description == a.description
                &&& b.raised_by == a.raised_by && b.raised_at == a.raised_at
            }
        }),
{
}

/// A decided dispute is final: the desk rejects every further call about it.
pub proof fn lemma_closed_dispute_is_final(s: DisputeState, call: DisputeCall)
    requires
        s.disputes.contains_key(call.dispute()),
        s.disputes[call.dispute()].is_closed(),
    ensures
        s.apply(call) is Err,
{
}

/// An accepted resolution splits the whole escrowed fare into two
/// non-negative shares, names the kind of split, and asks the escrow
/// contract, as the desk itself, to settle the dispute's ride with exactly
/// those shares.
pub proof fn lemma_resolution_splits_fare(
    s: DisputeState,
    admin: Seq<char>,
    dispute_id: Seq<char>,
    passenger_amount: i128,
    driver_amount: i128,
    now: u64,
)
    requires
        s.resolve(admin, dispute_id, passenger_amount, driver_amount, now) is Ok,
    ensures
        ({
            let (t, actions) = s.resolve(admin, dispute_id, passenger_amount, driver_amount, now)->Ok_0;
            let d = t.disputes[dispute_id];
            &&& passenger_amount >= 0 && driver_amount >= 0
            &&& passenger_amount + driver_amount == s.disputes[dispute_id].escrowed_amount
            &&& d.status == resolution_kind(passenger_amount, driver_amount)
            &&& d.passenger_amount == passenger_amount && d.driver_amount == driver_amount
            &&& actions[0] matches DisputeActionView::Settle(c) && c.caller == s.address && c.ride_id
                == s.disputes[dispute_id].ride_id && c.passenger_amount == passenger_amount
                && c.driver_amount == driver_amount && c.escrow_contract == s.links->0.escrow_contract
        }),
{
}

/// The escrow contract `e` is linked to the desk `s`, and still holds the
/// ride of the dispute `dispute_id` disputed, with the fare the desk read
/// when the dispute was filed.
pub open spec fn escrow_agrees(s: DisputeState, e: RideEscrowState, dispute_id: Seq<char>) -> bool {
    let d = s.disputes[dispute_id];
    &&& s.links matches Some(l) && l.escrow_contract == e.address
    &&& e.links matches Some(el) && el.dispute_contract == s.address
    &&& e.escrows.contains_key(d.ride_id)
    &&& e.escrows[d.ride_id].status == RideStatus::Disputed
    &&& e.escrows[d.ride_id].amount == d.escrowed_amount
}

/// Where the escrow contract agrees with the desk on a dispute, the escrow
/// contract accepts the settlement or the dismissal that the desk sends it
/// for that dispute.
pub proof fn lemma_escrow_accepts_decision(s: DisputeState, e: RideEscrowState, call: DisputeCall)
    requires
        s.disputes.contains_key(call.dispute()),
        escrow_agrees(s, e, call.dispute()),
        s.apply(call) is Ok,
    ensures
        match s.apply(call)->Ok_0.1[0] {
            DisputeActionView::Settle(c) => {
                let asked = EscrowCall::ResolveDispute {
                    caller: c.caller,
                    ride_id: c.ride_id,
                    passenger_amount: c.passenger_amount,
                    driver_amount: c.driver_amount,
                };
                &&& c.escrow_contract == e.address
                &&& e.apply(asked) is Ok
            },
            DisputeActionView::Dismiss(c) => {
                &&& c.escrow_contract == e.address
                &&& e.apply(EscrowCall::DismissDispute { caller: c.caller, ride_id: c.ride_id }) is Ok
            },
            _ => true,
        },
{
}

/// The desk is initialised once: once it is, a further initialisation is
/// rejected, and no other call changes what was stored.
pub proof fn lemma_dispute_initialized_once(s: DisputeState, admin: Seq<char>, escrow_contract: Seq<char>, call: DisputeCall)
    requires
        s.links is Some,
    ensures
        s.initialize(admin, escrow_contract) is Err,
        s.apply(call) matches Ok((t, _)) ==> t.links == s.links,
{
}

/// The kind of an accepted resolution follows its shares: resolved for the
/// passenger exactly when the driver gets nothing, resolved for the driver
/// exactly when the passenger gets nothing and the driver something, a
/// split exactly when both get something. The shares are stored as given,
/// with the time of the decision, and the rest of the dispute is kept.
pub proof fn lemma_resolution_kind_follows_shares(
    s: DisputeState,
    admin: Seq<char>,
    dispute_id: Seq<char>,
    passenger_amount: i128,
    driver_amount: i128,
    now: u64,
)
    requires
        s.resolve(admin, dispute_id, passenger_amount, driver_amount, now) is Ok,
    ensures
        ({
            let (t, _) = s.resolve(admin, dispute_id, passenger_amount, driver_amount, now)->Ok_0;
            let d = t.disputes[dispute_id];
            let before = s.disputes[dispute_id];
            &&& t.disputes.contains_key(dispute_id)
            &&& (d.status == DisputeStatus::ResolvedForPassenger <==> driver_amount == 0)
            &&& (d.status == DisputeStatus::ResolvedForDriver <==> passenger_amount == 0 && driver_amount > 0)
            &&& (d.status == DisputeStatus::SplitResolution <==> passenger_amount > 0 && driver_amount > 0)
            &&& d.passenger_amount == passenger_amount
            &&& d.driver_amount == driver_amount
            &&& d.resolved_at == now
            &&& d == (DisputeView {
                status: d.status,
                passenger_amount,
                driver_amount,
                resolved_at: now,
                ..before
            })
        }),
{
}

/// An accepted filing stores a new open dispute under its id that copies
/// the escrow record's passenger, driver, token and fare, whoever filed
/// it, together with the ride, reason, description, filer and filing time
/// given, and no shares yet.
pub proof fn lemma_filing_copies_escrow(
    s: DisputeState,
    dispute_id: Seq<char>,
    ride_id: Seq<char>,
    raised_by: Seq<char>,
    reason: DisputeReason,
    description: Seq<char>,
    escrow: RideEscrowView,
    now: u64,
)
    requires
        s.raise_dispute(dispute_id, ride_id, raised_by, reason, description, escrow, now) is Ok,
    ensures
        ({
            let (t, _) = s.raise_dispute(dispute_id, ride_id, raised_by, reason, description, escrow, now)->Ok_0;
            let d = t.disputes[dispute_id];
            &&& !s.disputes.contains_key(dispute_id)
            &&& t.disputes.contains_key(dispute_id)
            &&& d.passenger == escrow.passenger
            &&& d.driver == escrow.driver
            &&& d.token == escrow.token
            &&& d.escrowed_amount == escrow.amount
            &&& d.dispute_id == dispute_id
            &&& d.ride_id == ride_id
            &&& d.raised_by == raised_by
            &&& d.reason == reason
            &&& d.description == description
            &&& d.raised_at == now
            &&& d.status == DisputeStatus::Open
            &&& d.resolved_at == 0
            &&& d.passenger_amount == 0
            &&& d.driver_amount == 0
            &&& (raised_by == escrow.passenger || raised_by == escrow.driver)
            &&& escrow.status == RideStatus::Disputed
        }),
{
}

} // verus!
