//! What the contracts ask of the host ledger: token transfers and events.

use vstd::prelude::*;

verus! {

/// A transfer of `amount` units of the token contract `token`
/// from the account `from` to the account `to`.
#[derive(Debug)]
pub struct TokenTransfer {
    pub token: String,
    pub from: String,
    pub to: String,
    pub amount: i128,
}

pub struct TransferView {
    pub token: Seq<char>,
    pub from: Seq<char>,
    pub to: Seq<char>,
    pub amount: i128,
}

impl View for TokenTransfer {
    type V = TransferView;

    open spec fn view(&self) -> TransferView {
        TransferView { token: self.token@, from: self.from@, to: self.to@, amount: self.amount }
    }
}

impl TokenTransfer {
    /// Builds a transfer from copies of the given names.
    pub fn new(token: &String, from: &String, to: &String, amount: i128) -> (t: TokenTransfer)
        ensures
            t@ == (TransferView { token: token@, from: from@, to: to@, amount }),
    {
        TokenTransfer { token: token.clone(), from: from.clone(), to: to.clone(), amount }
    }
}

/// The topic under which a contract publishes an event.
#[derive(Clone, Copy, Debug, PartialEq, Eq, Structural)]
pub enum Topic {
    Deposit,
    Release,
    Refund,
    Dispute,
    Resolved,
    Dismissed,
    Raised,
    Recorded,
    Withdraw,
    Instant,
}

/// The data attached to an event.
#[derive(Clone, Copy, Debug, PartialEq, Eq, Structural)]
pub enum EventData {
    Nothing,
    Amount(i128),
    Split(i128, i128),
}

/// An event published under `topic`, about `subject` (a ride, a dispute
/// or a driver), carrying `data`.
#[derive(Debug)]
pub struct Event {
    pub topic: Topic,
    pub subject: String,
    pub data: EventData,
}

pub struct EventView {
    pub topic: Topic,
    pub subject: Seq<char>,
    pub data: EventData,
}

impl View for Event {
    type V = EventView;

    open spec fn view(&self) -> EventView {
        EventView { topic: self.topic, subject: self.subject@, data: self.data }
    }
}

impl Event {
    /// Builds an event about a copy of `subject`.
    pub fn new(topic: Topic, subject: &String, data: EventData) -> (e: Event)
        ensures
            e@ == (EventView { topic, subject: subject@, data }),
    {
        Event { topic, subject: subject.clone(), data }
    }
}

/// Outside work on the ledger alone: a token transfer or a published event.
#[derive(Debug)]
pub enum LedgerAction {
    Transfer(TokenTransfer),
    Publish(Event),
}

pub enum LedgerActionView {
    Transfer(TransferView),
    Publish(EventView),
}

impl View for LedgerAction {
    type V = LedgerActionView;

    open spec fn view(&self) -> LedgerActionView {
        match self {
            LedgerAction::Transfer(t) => LedgerActionView::Transfer(t@),
            LedgerAction::Publish(e) => LedgerActionView::Publish(e@),
        }
    }
}

pub open spec fn ledger_actions_view(v: Seq<LedgerAction>) -> Seq<LedgerActionView> {
    v.map_values(|a: LedgerAction| a@)
}

} // verus!
