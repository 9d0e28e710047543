//! Laws of the ride escrow: what every call keeps, and how a ride's fare
//! moves over any run of calls.

use vstd::prelude::*;
use crate::ride_escrow::{EscrowActionView, EscrowOutcome, RideEscrowState, RideStatus};

verus! {

/// Any call that the escrow contract accepts, with its arguments.
pub enum EscrowCall {
    Deposit { ride_id: Seq<char>, passenger: Seq<char>, driver: Seq<char>, token: Seq<char>, amount: i128 },
    Release { ride_id: Seq<char>, caller: Seq<char> },
    Refund { ride_id: Seq<char>, caller: Seq<char> },
    Dispute { ride_id: Seq<char>, caller: Seq<char> },
    ResolveDispute { caller: Seq<char>, ride_id: Seq<char>, passenger_amount: i128, driver_amount: i128 },
    DismissDispute { caller: Seq<char>, ride_id: Seq<char> },
}

impl EscrowCall {
    /// The ride that the call is about.
    pub open spec fn ride(self) -> Seq<char> {
        match self {
            EscrowCall::Deposit { ride_id, .. } => ride_id,
            EscrowCall::Release { ride_id, .. } => ride_id,
            EscrowCall::Refund { ride_id, .. } => ride_id,
            EscrowCall::Dispute { ride_id, .. } => ride_id,
            EscrowCall::ResolveDispute { ride_id, .. } => ride_id,
            EscrowCall::DismissDispute { ride_id, .. } => ride_id,
        }
    }
}

impl RideEscrowState {
    /// The answer to `call` in this state.
    pub open spec fn apply(self, call: EscrowCall) -> EscrowOutcome {
        match call {
            EscrowCall::Deposit { ride_id, passenger, driver, token, amount } =>
                self.deposit(ride_id, passenger, driver, token, amount),
            EscrowCall::Release { ride_id, caller } => self.release(ride_id, caller),
            EscrowCall::Refund { ride_id, caller } => self.refund(ride_id, caller),
            EscrowCall::Dispute { ride_id, caller } => self.dispute(ride_id, caller),
            EscrowCall::ResolveDispute { caller, ride_id, passenger_amount, driver_amount } =>
                self.resolve_dispute(caller, ride_id, passenger_amount, driver_amount),
            EscrowCall::DismissDispute { caller, ride_id } => self.dismiss_dispute(caller, ride_id),
        }
    }

    /// What the contract owes on the ride's account: its fare while it is
    /// funded or disputed, nothing otherwise.
    pub open spec fn locked(self, ride_id: Seq<char>) -> int {
        if self.escrows.contains_key(ride_id) && (self.escrows[ride_id].status == RideStatus::Funded
            || self.escrows[ride_id].status == RideStatus::Disputed) {
            self.escrows[ride_id].amount as int
        } else {
            0
        }
    }

    /// The state after the calls `calls`, rejected calls changing nothing.
    pub open spec fn run(self, calls: Seq<EscrowCall>) -> RideEscrowState
        decreases calls.len(),
    {
        if calls.len() == 0 {
            self
        } else {
            match self.apply(calls[0]) {
                Ok((next, _)) => next.run(calls.drop_first()),
                Err(_) => self.run(calls.drop_first()),
            }
        }
    }

    /// The tokens that enter the contract, less those that leave it, in the
    /// accepted calls among `calls` that are about `ride_id`.
    pub open spec fn ride_net_flow(self, calls: Seq<EscrowCall>, ride_id: Seq<char>) -> int
        decreases calls.len(),
    {
        if calls.len() == 0 {
            0
        } else {
            match self.apply(calls[0]) {
                Ok((next, actions)) =>
                    (if calls[0].ride() == ride_id { net_flow(actions, self.address) } else { 0 })
                        + next.ride_net_flow(calls.drop_first(), ride_id),
                Err(_) => self.ride_net_flow(calls.drop_first(), ride_id),
            }
        }
    }
}

/// Tokens that `action` moves to `me`, less those it moves from `me`.
pub open spec fn flow(action: EscrowActionView, me: Seq<char>) -> int {
    match action {
        EscrowActionView::Transfer(t) =>
            (if t.to == me { t.amount as int } else { 0 }) - (if t.from == me { t.amount as int } else { 0 }),
        _ => 0,
    }
}

/// Tokens transferred to `me`, less tokens transferred from `me`, by `actions`.
pub open spec fn net_flow(actions: Seq<EscrowActionView>, me: Seq<char>) -> int
    decreases actions.len(),
{
    if actions.len() == 0 {
        0
    } else {
        net_flow(actions.drop_last(), me) + flow(actions.last(), me)
    }
}

/// Every transfer among `actions` moves `token` between `me` and someone else.
pub open spec fn transfers_between(actions: Seq<EscrowActionView>, me: Seq<char>, token: Seq<char>) -> bool {
    forall|i: int|
        0 <= i < actions.len() ==> match #[trigger] actions[i] {
            EscrowActionView::Transfer(t) => t.token == token && (t.from == me) != (t.to == me),
            _ => true,
        }
}

/// The moves a ride's status may make in one call.
pub open spec fn status_step(from: RideStatus, to: RideStatus) -> bool {
    ||| from == to
    ||| from == RideStatus::Funded && to == RideStatus::Completed
    ||| from == RideStatus::Funded && to == RideStatus::Refunded
    ||| from == RideStatus::Funded && to == RideStatus::Disputed
    ||| from == RideStatus::Disputed && to == RideStatus::Completed
    ||| from == RideStatus::Disputed && to == RideStatus::Funded
}

/// `t` differs from `s` in the record of `ride_id` alone: the address and
/// the links stay, every other ride keeps its record.
pub open spec fn only_ride_changed(s: RideEscrowState, t: RideEscrowState, ride_id: Seq<char>) -> bool {
    &&& t.address == s.address
    &&& t.links == s.links
    &&& forall|k: Seq<char>|
        k != ride_id ==> (#[trigger] t.escrows.contains_key(k) == s.escrows.contains_key(k)
            && (s.escrows.contains_key(k) ==> t.escrows[k] == s.escrows[k]))
}

/// The record of a known ride keeps its parties, token and fare; only the
/// status may change, and only along an allowed step.
pub open spec fn record_kept(s: RideEscrowState, t: RideEscrowState, ride_id: Seq<char>) -> bool {
    s.escrows.contains_key(ride_id) ==> {
        &&& t.escrows.contains_key(ride_id)
        &&& t.escrows[ride_id] == s.escrows[ride_id].with_status(t.escrows[ride_id].status)
        &&& status_step(s.escrows[ride_id].status, t.escrows[ride_id].status)
    }
}

impl RideEscrowState {
    /// The contract is neither its own payout contract nor the passenger of
    /// any ride: every payment leaves it for someone else.
    pub open spec fn apart(self) -> bool {
        &&& (self.links matches Some(l) ==> l.payout_contract != self.address)
        &&& forall|k: Seq<char>| #[trigger] self.escrows.contains_key(k) ==> self.escrows[k].passenger != self.address
    }
}

impl EscrowCall {
    /// The call does not make the contract at `address` a passenger.
    pub open spec fn keeps_apart(self, address: Seq<char>) -> bool {
        match self {
            EscrowCall::Deposit { passenger, .. } => passenger != address,
            _ => true,
        }
    }
}

proof fn lemma_net_flow_push(x: Seq<EscrowActionView>, a: EscrowActionView, me: Seq<char>)
    ensures
        net_flow(x.push(a), me) == net_flow(x, me) + flow(a, me),
{
    assert(x.push(a).drop_last() =~= x);
}

proof fn lemma_net_flow_append(x: Seq<EscrowActionView>, y: Seq<EscrowActionView>, me: Seq<char>)
    ensures
        net_flow(x + y, me) == net_flow(x, me) + net_flow(y, me),
    decreases y.len(),
{
    if y.len() == 0 {
        assert(x + y =~= x);
    } else {
        lemma_net_flow_append(x, y.drop_last(), me);
        assert((x + y).drop_last() =~= x + y.drop_last());
    }
}

proof fn lemma_net_flow_one(a: EscrowActionView, me: Seq<char>)
    ensures
        net_flow(seq![a], me) == flow(a, me),
{
    lemma_net_flow_push(Seq::empty(), a, me);
    assert(Seq::<EscrowActionView>::empty().push(a) =~= seq![a]);
}

proof fn lemma_net_flow_pair(a: EscrowActionView, b: EscrowActionView, me: Seq<char>)
    ensures
        net_flow(seq![a, b], me) == flow(a, me) + flow(b, me),
{
    lemma_net_flow_one(a, me);
    lemma_net_flow_push(seq![a], b, me);
    assert(seq![a].push(b) =~= seq![a, b]);
}

/// Every call the contract accepts keeps its invariant, changes the record
/// of its own ride alone, keeps that record's parties, token and fare, and
/// moves its status along an allowed step only. Where the contract stands
/// apart from the parties it pays, the call transfers only the ride's token,
/// each time between the contract and someone else, and moves exactly as
/// many tokens into (or out of) the contract as it adds to (or takes from)
/// what the contract owes on that ride.
pub proof fn lemma_accepted_call(s: RideEscrowState, call: EscrowCall)
    requires
        s.inv(),
        s.apply(call) is Ok,
    ensures
        ({
            let (t, actions) = s.apply(call)->Ok_0;
            &&& t.inv()
            &&& only_ride_changed(s, t, call.ride())
            &&& record_kept(s, t, call.ride())
            &&& t.escrows.contains_key(call.ride())
            &&& s.apart() && call.keeps_apart(s.address) ==> {
                &&& t.apart()
                &&& transfers_between(actions, s.address, t.escrows[call.ride()].token)
                &&& net_flow(actions, s.address) == t.locked(call.ride())
                    - s.locked(call.ride())
            }
        }),
{
    let (t, actions) = s.apply(call)->Ok_0;
    let me = s.address;
    match call {
        EscrowCall::Deposit { .. } => {
            lemma_net_flow_pair(actions[0], actions[1], me);
            assert(actions =~= seq![actions[0], actions[1]]);
        },
        EscrowCall::Release { .. } => {
            lemma_net_flow_pair(actions[0], actions[1], me);
            lemma_net_flow_push(seq![actions[0], actions[1]], actions[2], me);
            assert(actions =~= seq![actions[0], actions[1]].push(actions[2]));
        },
        EscrowCall::Refund { .. } => {
            lemma_net_flow_pair(actions[0], actions[1], me);
            assert(actions =~= seq![actions[0], actions[1]]);
        },
        EscrowCall::Dispute { .. } => {
            lemma_net_flow_one(actions[0], me);
            assert(actions =~= seq![actions[0]]);
        },
        EscrowCall::ResolveDispute { caller, ride_id, passenger_amount, driver_amount } => {
            let e = s.escrows[ride_id];
            let payout = s.links->0.payout_contract;
            let split = s.split_actions(ride_id, passenger_amount, driver_amount);
            let last = actions.last();
            assert(actions =~= split.push(last));
            lemma_net_flow_push(split, last, me);
            let to_passenger = if passenger_amount > 0 {
                seq![crate::ride_escrow::transfer_action(e.token, me, e.passenger, passenger_amount)]
            } else {
                Seq::empty()
            };
            let to_driver = if driver_amount > 0 {
                seq![
                    crate::ride_escrow::transfer_action(e.token, me, payout, driver_amount),
                    split.last(),
                ]
            } else {
                Seq::empty()
            };
            assert(split =~= to_passenger + to_driver);
            lemma_net_flow_append(to_passenger, to_driver, me);
            if passenger_amount > 0 {
                lemma_net_flow_one(to_passenger[0], me);
            }
            if driver_amount > 0 {
                lemma_net_flow_pair(to_driver[0], to_driver[1], me);
            }
        },
        EscrowCall::DismissDispute { .. } => {
            lemma_net_flow_one(actions[0], me);
            assert(actions =~= seq![actions[0]]);
        },
    }
}

/// A ride whose fare has been paid out (released, refunded or split) is
/// final: the contract rejects every further call about it.
pub proof fn lemma_settled_ride_is_final(s: RideEscrowState, call: EscrowCall)
    requires
        s.escrows.contains_key(call.ride()),
        s.escrows[call.ride()].is_settled(),
    ensures
        s.apply(call) is Err,
{
}

/// Over any run of calls in which the contract stands apart from the
/// parties it pays, the tokens that entered the contract on a ride's account, less those that
/// left it, equal the change in what the contract owes on that ride. A ride
/// that was unknown before the run has thus never been paid out more than
/// was paid in for it.
pub proof fn lemma_ride_funds_balance(s: RideEscrowState, calls: Seq<EscrowCall>, ride_id: Seq<char>)
    requires
        s.inv(),
        s.apart(),
        forall|i: int|
            0 <= i < calls.len() ==> #[trigger] calls[i].keeps_apart(
                s.address,
            ),
    ensures
        s.ride_net_flow(calls, ride_id) == s.run(calls).locked(ride_id) - s.locked(ride_id),
        s.run(calls).inv(),
        s.run(calls).apart(),
        s.run(calls).address == s.address,
        !s.escrows.contains_key(ride_id) ==> s.ride_net_flow(calls, ride_id) >= 0,
    decreases calls.len(),
{
    if calls.len() > 0 {
        let rest = calls.drop_first();
        assert forall|i: int| 0 <= i < rest.len() implies #[trigger] rest[i].keeps_apart(s.address) by {
            assert(rest[i] == calls[i + 1]);
        }
        assert(calls[0].keeps_apart(s.address));
        match s.apply(calls[0]) {
            Ok((next, _)) => {
                lemma_accepted_call(s, calls[0]);
                lemma_ride_funds_balance(next, rest, ride_id);
            },
            Err(_) => {
                lemma_ride_funds_balance(s, rest, ride_id);
            },
        }
    }
}

/// A disputed ride's fare is frozen: neither a release nor a refund nor a
/// second dispute is accepted, and only the linked dispute contract can
/// settle the dispute or dismiss it.
pub proof fn lemma_disputed_ride_is_frozen(s: RideEscrowState, call: EscrowCall)
    requires
        s.escrows.contains_key(call.ride()),
        s.escrows[call.ride()].status == RideStatus::Disputed,
        s.apply(call) is Ok,
    ensures
        match call {
            EscrowCall::ResolveDispute { caller, .. } => s.links matches Some(l) && caller == l.dispute_contract,
            EscrowCall::DismissDispute { caller, .. } => s.links matches Some(l) && caller == l.dispute_contract,
            _ => false,
        },
{
}

/// Only the parties the contract names may move a ride forward: the
/// driver or the admin releases, the passenger or the admin refunds, a
/// participant disputes, and the linked dispute contract settles or
/// dismisses a dispute.
pub proof fn lemma_who_may_act(s: RideEscrowState, call: EscrowCall)
    requires
        s.apply(call) is Ok,
    ensures
        match call {
            EscrowCall::Release { ride_id, caller } => s.links matches Some(l) && (caller == s.escrows[ride_id].driver
                || caller == l.admin),
            EscrowCall::Refund { ride_id, caller } => s.links matches Some(l) && (caller
                == s.escrows[ride_id].passenger || caller == l.admin),
            EscrowCall::Dispute { ride_id, caller } => caller == s.escrows[ride_id].passenger || caller
                == s.escrows[ride_id].driver,
            EscrowCall::ResolveDispute { caller, .. } => s.links matches Some(l) && caller == l.dispute_contract,
            EscrowCall::DismissDispute { caller, .. } => s.links matches Some(l) && caller == l.dispute_contract,
            EscrowCall::Deposit { .. } => true,
        },
{
}

/// The escrow contract is initialised once: once it is, a further
/// initialisation is rejected, and no other call changes what was stored.
pub proof fn lemma_escrow_initialized_once(
    s: RideEscrowState,
    admin: Seq<char>,
    payout_contract: Seq<char>,
    dispute_contract: Seq<char>,
    call: EscrowCall,
)
    requires
        s.links is Some,
    ensures
        s.initialize(admin, payout_contract, dispute_contract) is Err,
        s.apply(call) matches Ok((t, _)) ==> t.links == s.links,
{
}

/// Every token that an accepted call sends out of the contract goes to the
/// ride's passenger, or to the linked payout contract together with a
/// record, right after it, of the same amount in the ride's token for the
/// ride's driver: a fare reaches the passenger or is credited to the driver.
pub proof fn lemma_fare_goes_to_parties(s: RideEscrowState, call: EscrowCall, i: int)
    requires
        s.inv(),
        s.apply(call) is Ok,
        0 <= i < s.apply(call)->Ok_0.1.len(),
        s.apply(call)->Ok_0.1[i] matches EscrowActionView::Transfer(t) && t.from == s.address,
        call.keeps_apart(s.address),
    ensures
        ({
            let actions = s.apply(call)->Ok_0.1;
            let t = actions[i]->Transfer_0;
            let e = s.escrows[call.ride()];
            ||| t.to == e.passenger
            ||| {
                &&& s.links matches Some(l) && t.to == l.payout_contract
                &&& i + 1 < actions.len()
                &&& actions[i + 1] == EscrowActionView::RecordPayout(crate::ride_escrow::PayoutCallView {
                    payout_contract: t.to,
                    caller: s.address,
                    driver: e.driver,
                    token: e.token,
                    amount: t.amount,
                    ride_id: call.ride(),
                })
            }
        }),
{
    let actions = s.apply(call)->Ok_0.1;
    match call {
        EscrowCall::ResolveDispute { caller, ride_id, passenger_amount, driver_amount } => {
            let split = s.split_actions(ride_id, passenger_amount, driver_amount);
            assert(actions =~= split.push(actions.last()));
        },
        _ => {},
    }
}

/// Tokens that `action` moves from `from` to `to`.
pub open spec fn moved(action: EscrowActionView, from: Seq<char>, to: Seq<char>) -> int {
    match action {
        EscrowActionView::Transfer(t) => if t.from == from && t.to == to { t.amount as int } else { 0 },
        _ => 0,
    }
}

/// Tokens that `actions` move, in all, from `from` to `to`.
pub open spec fn transferred(actions: Seq<EscrowActionView>, from: Seq<char>, to: Seq<char>) -> int
    decreases actions.len(),
{
    if actions.len() == 0 {
        0
    } else {
        transferred(actions.drop_last(), from, to) + moved(actions.last(), from, to)
    }
}

/// The amount that `action` asks the payout contract to credit to `driver`.
pub open spec fn credit(action: EscrowActionView, driver: Seq<char>) -> int {
    match action {
        EscrowActionView::RecordPayout(c) => if c.driver == driver { c.amount as int } else { 0 },
        _ => 0,
    }
}

/// The amounts that `actions` ask the payout contract to credit to `driver`, in all.
pub open spec fn credited_to(actions: Seq<EscrowActionView>, driver: Seq<char>) -> int
    decreases actions.len(),
{
    if actions.len() == 0 {
        0
    } else {
        credited_to(actions.drop_last(), driver) + credit(actions.last(), driver)
    }
}

proof fn lemma_tallies_append(x: Seq<EscrowActionView>, y: Seq<EscrowActionView>, from: Seq<char>, to: Seq<char>, driver: Seq<char>)
    ensures
        transferred(x + y, from, to) == transferred(x, from, to) + transferred(y, from, to),
        credited_to(x + y, driver) == credited_to(x, driver) + credited_to(y, driver),
    decreases y.len(),
{
    if y.len() == 0 {
        assert(x + y =~= x);
    } else {
        lemma_tallies_append(x, y.drop_last(), from, to, driver);
        assert((x + y).drop_last() =~= x + y.drop_last());
    }
}

proof fn lemma_tallies_one(a: EscrowActionView, from: Seq<char>, to: Seq<char>, driver: Seq<char>)
    ensures
        transferred(seq![a], from, to) == moved(a, from, to),
        credited_to(seq![a], driver) == credit(a, driver),
{
    assert(seq![a].drop_last() =~= Seq::<EscrowActionView>::empty());
    assert(transferred(Seq::<EscrowActionView>::empty(), from, to) == 0);
    assert(credited_to(Seq::<EscrowActionView>::empty(), driver) == 0);
}

proof fn lemma_tallies_empty(from: Seq<char>, to: Seq<char>, driver: Seq<char>)
    ensures
        transferred(Seq::empty(), from, to) == 0,
        credited_to(Seq::empty(), driver) == 0,
{
}

/// Tallies of `a` followed by `b`.
proof fn lemma_tallies_two(a: EscrowActionView, b: EscrowActionView, from: Seq<char>, to: Seq<char>, driver: Seq<char>)
    ensures
        transferred(seq![a, b], from, to) == moved(a, from, to) + moved(b, from, to),
        credited_to(seq![a, b], driver) == credit(a, driver) + credit(b, driver),
{
    lemma_tallies_one(a, from, to, driver);
    lemma_tallies_one(b, from, to, driver);
    lemma_tallies_append(seq![a], seq![b], from, to, driver);
    assert(seq![a] + seq![b] =~= seq![a, b]);
}

/// Tallies of `a`, `b` and `c` in turn.
proof fn lemma_tallies_three(
    a: EscrowActionView,
    b: EscrowActionView,
    c: EscrowActionView,
    from: Seq<char>,
    to: Seq<char>,
    driver: Seq<char>,
)
    ensures
        transferred(seq![a, b, c], from, to) == moved(a, from, to) + moved(b, from, to) + moved(c, from, to),
        credited_to(seq![a, b, c], driver) == credit(a, driver) + credit(b, driver) + credit(c, driver),
{
    lemma_tallies_two(a, b, from, to, driver);
    lemma_tallies_one(c, from, to, driver);
    lemma_tallies_append(seq![a, b], seq![c], from, to, driver);
    assert(seq![a, b] + seq![c] =~= seq![a, b, c]);
}

/// A settled dispute pays each side its own share: the escrow sends the
/// ride's passenger exactly the passenger's share and the linked payout
/// contract exactly the driver's share, and asks it to credit exactly the
/// driver's share to the ride's driver. Every transfer is in the ride's
/// token, from the escrow to one of those two; every payout record is for
/// the ride's driver, in the ride's token, about the ride. (The passenger is
/// taken to be another account than the payout contract, so that the two
/// shares can be told apart.)
pub proof fn lemma_settlement_pays_each_share(
    s: RideEscrowState,
    caller: Seq<char>,
    ride_id: Seq<char>,
    passenger_amount: i128,
    driver_amount: i128,
)
    requires
        s.resolve_dispute(caller, ride_id, passenger_amount, driver_amount) is Ok,
        s.escrows[ride_id].passenger != s.links->0.payout_contract,
    ensures
        ({
            let actions = s.resolve_dispute(caller, ride_id, passenger_amount, driver_amount)->Ok_0.1;
            let e = s.escrows[ride_id];
            let payout = s.links->0.payout_contract;
            &&& passenger_amount >= 0 && driver_amount >= 0
            &&& passenger_amount + driver_amount == e.amount
            &&& transferred(actions, s.address, e.passenger) == passenger_amount
            &&& transferred(actions, s.address, payout) == driver_amount
            &&& credited_to(actions, e.driver) == driver_amount
            &&& forall|i: int| 0 <= i < actions.len() ==> match #[trigger] actions[i] {
                EscrowActionView::Transfer(t) => t.from == s.address && t.token == e.token && (t.to == e.passenger
                    || t.to == payout),
                EscrowActionView::RecordPayout(c) => c.driver == e.driver && c.token == e.token && c.payout_contract
                    == payout && c.caller == s.address && c.ride_id == ride_id,
                _ => true,
            }
        }),
{
    let actions = s.resolve_dispute(caller, ride_id, passenger_amount, driver_amount)->Ok_0.1;
    let e = s.escrows[ride_id];
    let payout = s.links->0.payout_contract;
    let me = s.address;
    let split = s.split_actions(ride_id, passenger_amount, driver_amount);
    let last = actions.last();
    assert(actions =~= split + seq![last]);
    let to_passenger = if passenger_amount > 0 {
        seq![crate::ride_escrow::transfer_action(e.token, me, e.passenger, passenger_amount)]
    } else {
        Seq::empty()
    };
    let to_driver = if driver_amount > 0 {
        seq![crate::ride_escrow::transfer_action(e.token, me, payout, driver_amount), split.last()]
    } else {
        Seq::empty()
    };
    assert(split =~= to_passenger + to_driver);
    lemma_tallies_append(split, seq![last], me, e.passenger, e.driver);
    lemma_tallies_append(split, seq![last], me, payout, e.driver);
    lemma_tallies_append(to_passenger, to_driver, me, e.passenger, e.driver);
    lemma_tallies_append(to_passenger, to_driver, me, payout, e.driver);
    lemma_tallies_one(last, me, e.passenger, e.driver);
    lemma_tallies_one(last, me, payout, e.driver);
    lemma_tallies_empty(me, e.passenger, e.driver);
    lemma_tallies_empty(me, payout, e.driver);
    if passenger_amount > 0 {
        lemma_tallies_one(to_passenger[0], me, e.passenger, e.driver);
        lemma_tallies_one(to_passenger[0], me, payout, e.driver);
    }
    if driver_amount > 0 {
        lemma_tallies_two(to_driver[0], to_driver[1], me, e.passenger, e.driver);
        lemma_tallies_two(to_driver[0], to_driver[1], me, payout, e.driver);
    }
}

/// A refund, whoever asks for it, sends the whole fare back to the ride's
/// passenger in the ride's token, in one transfer from the escrow, and
/// credits no driver.
pub proof fn lemma_refund_returns_fare(s: RideEscrowState, ride_id: Seq<char>, caller: Seq<char>, anyone: Seq<char>)
    requires
        s.refund(ride_id, caller) is Ok,
    ensures
        ({
            let actions = s.refund(ride_id, caller)->Ok_0.1;
            let e = s.escrows[ride_id];
            &&& transferred(actions, s.address, e.passenger) == e.amount
            &&& credited_to(actions, anyone) == 0
            &&& forall|i: int| 0 <= i < actions.len() ==> match #[trigger] actions[i] {
                EscrowActionView::Transfer(t) => t.from == s.address && t.to == e.passenger && t.token == e.token
                    && t.amount == e.amount,
                EscrowActionView::RecordPayout(_) => false,
                _ => true,
            }
            &&& exists|i: int| 0 <= i < actions.len() && #[trigger] actions[i] is Transfer
            &&& forall|i: int, j: int|
                0 <= i < actions.len() && 0 <= j < actions.len() && #[trigger] actions[i] is Transfer
                    && #[trigger] actions[j] is Transfer ==> i == j
        }),
{
    let actions = s.refund(ride_id, caller)->Ok_0.1;
    let e = s.escrows[ride_id];
    assert(actions =~= seq![actions[0], actions[1]]);
    lemma_tallies_two(actions[0], actions[1], s.address, e.passenger, anyone);
    assert(actions[0] is Transfer);
}

/// A release sends the whole fare from the escrow to the linked payout
/// contract in the ride's token, and asks it to credit the whole fare to
/// the ride's driver; the passenger gets nothing.
pub proof fn lemma_release_pays_driver(s: RideEscrowState, ride_id: Seq<char>, caller: Seq<char>)
    requires
        s.release(ride_id, caller) is Ok,
        s.escrows[ride_id].passenger != s.links->0.payout_contract,
    ensures
        ({
            let actions = s.release(ride_id, caller)->Ok_0.1;
            let e = s.escrows[ride_id];
            let payout = s.links->0.payout_contract;
            &&& transferred(actions, s.address, payout) == e.amount
            &&& transferred(actions, s.address, e.passenger) == 0
            &&& credited_to(actions, e.driver) == e.amount
            &&& forall|i: int| 0 <= i < actions.len() ==> match #[trigger] actions[i] {
                EscrowActionView::Transfer(t) => t.from == s.address && t.to == payout && t.token == e.token,
                EscrowActionView::RecordPayout(c) => c.driver == e.driver && c.token == e.token && c.payout_contract
                    == payout && c.ride_id == ride_id,
                _ => true,
            }
        }),
{
    let actions = s.release(ride_id, caller)->Ok_0.1;
    let e = s.escrows[ride_id];
    let payout = s.links->0.payout_contract;
    assert(actions =~= seq![actions[0], actions[1], actions[2]]);
    lemma_tallies_three(actions[0], actions[1], actions[2], s.address, payout, e.driver);
    lemma_tallies_three(actions[0], actions[1], actions[2], s.address, e.passenger, e.driver);
}

/// An accepted deposit files a funded record of exactly the ride, parties,
/// token and fare given, and pulls exactly the fare, in that token, from
/// the passenger into the escrow; no driver is credited.
pub proof fn lemma_deposit_locks_fare(
    s: RideEscrowState,
    ride_id: Seq<char>,
    passenger: Seq<char>,
    driver: Seq<char>,
    token: Seq<char>,
    amount: i128,
    anyone: Seq<char>,
)
    requires
        s.deposit(ride_id, passenger, driver, token, amount) is Ok,
    ensures
        ({
            let (t, actions) = s.deposit(ride_id, passenger, driver, token, amount)->Ok_0;
            let e = t.escrows[ride_id];
            &&& amount > 0
            &&& !s.escrows.contains_key(ride_id)
            &&& t.escrows.contains_key(ride_id)
            &&& e.ride_id == ride_id && e.passenger == passenger && e.driver == driver
            &&& e.token == token && e.amount == amount && e.status == RideStatus::Funded
            &&& transferred(actions, passenger, s.address) == amount
            &&& credited_to(actions, anyone) == 0
            &&& forall|i: int| 0 <= i < actions.len() ==> match #[trigger] actions[i] {
                EscrowActionView::Transfer(x) => x.from == passenger && x.to == s.address && x.token == token,
                EscrowActionView::RecordPayout(_) => false,
                _ => true,
            }
        }),
{
    let actions = s.deposit(ride_id, passenger, driver, token, amount)->Ok_0.1;
    assert(actions =~= seq![actions[0], actions[1]]);
    lemma_tallies_two(actions[0], actions[1], passenger, s.address, anyone);
}

} // verus!
