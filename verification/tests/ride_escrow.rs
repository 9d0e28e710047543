use std::collections::HashMap;

use aj_drive::ledger::{EventData, Topic};
use aj_drive::ride_escrow::{EscrowAction, EscrowError, RideEscrowContract, RideStatus};

/// Token balances of the accounts a test touches, per token contract.
struct Balances {
    of: HashMap<(String, String), i128>,
}

/// What a stand-in payout contract saw of `record_payout` calls.
#[derive(Default)]
struct Recorded {
    recorded: bool,
    driver: String,
    token: String,
    amount: i128,
    ride_id: String,
}

impl Balances {
    fn new() -> Balances {
        Balances { of: HashMap::new() }
    }

    fn mint(&mut self, token: &str, to: &str, amount: i128) {
        *self.of.entry((token.to_string(), to.to_string())).or_insert(0) += amount;
    }

    fn balance(&self, token: &str, who: &str) -> i128 {
        *self.of.get(&(token.to_string(), who.to_string())).unwrap_or(&0)
    }

    /// Carries out the escrow's actions: transfers move tokens (failing on
    /// an overdraft), payout calls are noted in `recorded`.
    fn carry_out(&mut self, actions: &[EscrowAction], recorded: &mut Recorded) {
        for a in actions {
            match a {
                EscrowAction::Transfer(t) => {
                    let from = self.balance(&t.token, &t.from);
                    assert!(from >= t.amount, "balance is not sufficient to spend");
                    self.of.insert((t.token.clone(), t.from.clone()), from - t.amount);
                    self.mint(&t.token, &t.to, t.amount);
                }
                EscrowAction::RecordPayout(c) => {
                    recorded.recorded = true;
                    recorded.driver = c.driver.clone();
                    recorded.token = c.token.clone();
                    recorded.amount = c.amount;
                    recorded.ride_id = c.ride_id.clone();
                }
                EscrowAction::Publish(_) => {}
            }
        }
    }
}

const ADMIN: &str = "GADMIN";
const PASSENGER: &str = "GPASSENGER";
const DRIVER: &str = "GDRIVER";
const TOKEN: &str = "CTOKEN";
const ESCROW: &str = "CESCROW";
const PAYOUT: &str = "CPAYOUT";
const DISPUTE: &str = "CDISPUTE";

fn setup() -> (RideEscrowContract, Balances) {
    let mut balances = Balances::new();
    balances.mint(TOKEN, PASSENGER, 1000);
    let mut escrow = RideEscrowContract::new(ESCROW);
    escrow.initialize(ADMIN, PAYOUT, DISPUTE).unwrap();
    (escrow, balances)
}

#[test]
fn test_deposit_and_release() {
    let (mut escrow, mut balances) = setup();
    let mut recorded = Recorded::default();
    assert_eq!(balances.balance(TOKEN, PASSENGER), 1000);

    let actions = escrow.deposit("ride_1", PASSENGER, DRIVER, TOKEN, 500).unwrap();
    balances.carry_out(&actions, &mut recorded);
    assert_eq!(balances.balance(TOKEN, ESCROW), 500);
    assert_eq!(balances.balance(TOKEN, PASSENGER), 500);

    let record = escrow.get_escrow("ride_1").unwrap();
    assert_eq!(record.ride_id, "ride_1");
    assert_eq!(record.passenger, PASSENGER);
    assert_eq!(record.driver, DRIVER);
    assert_eq!(record.token, TOKEN);
    assert_eq!(record.amount, 500);
    assert!(matches!(record.status, RideStatus::Funded));

    let actions = escrow.release("ride_1", DRIVER).unwrap();
    balances.carry_out(&actions, &mut recorded);
    assert_eq!(balances.balance(TOKEN, ESCROW), 0);
    assert_eq!(balances.balance(TOKEN, PAYOUT), 500);

    assert!(recorded.recorded);
    assert_eq!(recorded.driver, DRIVER);
    assert_eq!(recorded.amount, 500);

    let updated = escrow.get_escrow("ride_1").unwrap();
    assert!(matches!(updated.status, RideStatus::Completed));
}

#[test]
fn test_deposit_and_refund() {
    let (mut escrow, mut balances) = setup();
    let mut recorded = Recorded::default();
    let actions = escrow.deposit("ride_2", PASSENGER, DRIVER, TOKEN, 400).unwrap();
    balances.carry_out(&actions, &mut recorded);

    let actions = escrow.refund("ride_2", PASSENGER).unwrap();
    balances.carry_out(&actions, &mut recorded);

    assert_eq!(balances.balance(TOKEN, ESCROW), 0);
    assert_eq!(balances.balance(TOKEN, PASSENGER), 1000);
    let record = escrow.get_escrow("ride_2").unwrap();
    assert!(matches!(record.status, RideStatus::Refunded));
}

#[test]
fn test_dispute_and_resolve() {
    let (mut escrow, mut balances) = setup();
    let mut recorded = Recorded::default();
    let actions = escrow.deposit("ride_3", PASSENGER, DRIVER, TOKEN, 600).unwrap();
    balances.carry_out(&actions, &mut recorded);

    let actions = escrow.dispute("ride_3", PASSENGER).unwrap();
    balances.carry_out(&actions, &mut recorded);
    let record = escrow.get_escrow("ride_3").unwrap();
    assert!(matches!(record.status, RideStatus::Disputed));

    // 200 to the passenger and 400 to the driver, asked by the dispute contract
    let actions = escrow.resolve_dispute(DISPUTE, "ride_3", 200, 400).unwrap();
    balances.carry_out(&actions, &mut recorded);

    assert_eq!(balances.balance(TOKEN, ESCROW), 0);
    assert_eq!(balances.balance(TOKEN, PASSENGER), 600);
    assert_eq!(balances.balance(TOKEN, PAYOUT), 400);
    assert_eq!(recorded.amount, 400);

    let record = escrow.get_escrow("ride_3").unwrap();
    assert!(matches!(record.status, RideStatus::Completed));
}

#[test]
fn test_dispute_and_dismiss() {
    let (mut escrow, mut balances) = setup();
    let mut recorded = Recorded::default();
    let actions = escrow.deposit("ride_4", PASSENGER, DRIVER, TOKEN, 600).unwrap();
    balances.carry_out(&actions, &mut recorded);
    escrow.dispute("ride_4", PASSENGER).unwrap();

    escrow.dismiss_dispute(DISPUTE, "ride_4").unwrap();

    let record = escrow.get_escrow("ride_4").unwrap();
    assert!(matches!(record.status, RideStatus::Funded));
}

#[test]
fn escrow_actions_come_in_order() {
    let (mut escrow, _) = setup();
    let actions = escrow.deposit("ride_5", PASSENGER, DRIVER, TOKEN, 250).unwrap();
    assert_eq!(actions.len(), 2);
    match &actions[0] {
        EscrowAction::Transfer(t) => {
            assert_eq!(t.token, TOKEN);
            assert_eq!(t.from, PASSENGER);
            assert_eq!(t.to, ESCROW);
            assert_eq!(t.amount, 250);
        }
        _ => panic!("expected a transfer"),
    }
    match &actions[1] {
        EscrowAction::Publish(e) => {
            assert_eq!(e.topic, Topic::Deposit);
            assert_eq!(e.subject, "ride_5");
            assert_eq!(e.data, EventData::Amount(250));
        }
        _ => panic!("expected an event"),
    }

    let actions = escrow.release("ride_5", ADMIN).unwrap();
    assert_eq!(actions.len(), 3);
    match &actions[1] {
        EscrowAction::RecordPayout(c) => {
            assert_eq!(c.payout_contract, PAYOUT);
            assert_eq!(c.caller, ESCROW);
            assert_eq!(c.driver, DRIVER);
            assert_eq!(c.token, TOKEN);
            assert_eq!(c.amount, 250);
            assert_eq!(c.ride_id, "ride_5");
        }
        _ => panic!("expected a payout call"),
    }
    match &actions[2] {
        EscrowAction::Publish(e) => {
            assert_eq!(e.topic, Topic::Release);
            assert_eq!(e.data, EventData::Amount(250));
        }
        _ => panic!("expected an event"),
    }
}

#[test]
fn escrow_rejects_with_each_error() {
    let mut fresh = RideEscrowContract::new(ESCROW);
    assert_eq!(fresh.get_admin().unwrap_err(), EscrowError::NotInitialized);
    fresh.deposit("r", PASSENGER, DRIVER, TOKEN, 10).unwrap();
    assert_eq!(fresh.release("r", DRIVER).unwrap_err(), EscrowError::NotInitialized);
    assert_eq!(fresh.refund("r", PASSENGER).unwrap_err(), EscrowError::NotInitialized);
    assert_eq!(fresh.resolve_dispute(DISPUTE, "r", 5, 5).unwrap_err(), EscrowError::NotInitialized);
    assert_eq!(fresh.dismiss_dispute(DISPUTE, "r").unwrap_err(), EscrowError::NotInitialized);

    let (mut escrow, _) = setup();
    assert_eq!(escrow.initialize(ADMIN, PAYOUT, DISPUTE).unwrap_err(), EscrowError::AlreadyInitialized);
    assert_eq!(escrow.deposit("r", PASSENGER, DRIVER, TOKEN, 0).unwrap_err(), EscrowError::AmountNotPositive);
    assert_eq!(escrow.deposit("r", PASSENGER, DRIVER, TOKEN, -3).unwrap_err(), EscrowError::AmountNotPositive);
    escrow.deposit("r", PASSENGER, DRIVER, TOKEN, 100).unwrap();
    assert_eq!(escrow.deposit("r", PASSENGER, DRIVER, TOKEN, 100).unwrap_err(), EscrowError::RideExists);
    assert_eq!(escrow.release("missing", DRIVER).unwrap_err(), EscrowError::RideNotFound);
    assert_eq!(escrow.get_escrow("missing").unwrap_err(), EscrowError::RideNotFound);
    assert_eq!(escrow.release("r", PASSENGER).unwrap_err(), EscrowError::ReleaseUnauthorized);
    assert_eq!(escrow.refund("r", DRIVER).unwrap_err(), EscrowError::RefundUnauthorized);
    assert_eq!(escrow.dispute("r", ADMIN).unwrap_err(), EscrowError::NotParticipant);
    assert_eq!(escrow.resolve_dispute(DISPUTE, "r", 50, 50).unwrap_err(), EscrowError::NotDisputed);
    assert_eq!(escrow.dismiss_dispute(DISPUTE, "r").unwrap_err(), EscrowError::NotDisputed);
    escrow.dispute("r", DRIVER).unwrap();
    assert_eq!(escrow.release("r", DRIVER).unwrap_err(), EscrowError::NotFunded);
    assert_eq!(escrow.refund("r", PASSENGER).unwrap_err(), EscrowError::NotFunded);
    assert_eq!(escrow.dispute("r", PASSENGER).unwrap_err(), EscrowError::DisputeNotFunded);
    assert_eq!(escrow.resolve_dispute(ADMIN, "r", 50, 50).unwrap_err(), EscrowError::ResolveUnauthorized);
    assert_eq!(escrow.dismiss_dispute(ADMIN, "r").unwrap_err(), EscrowError::DismissUnauthorized);
    assert_eq!(escrow.resolve_dispute(DISPUTE, "r", 50, 49).unwrap_err(), EscrowError::SplitMismatch);
    assert_eq!(escrow.resolve_dispute(DISPUTE, "r", i128::MAX, 1).unwrap_err(), EscrowError::SplitMismatch);
    assert_eq!(escrow.resolve_dispute(DISPUTE, "r", -100, 200).unwrap_err(), EscrowError::NegativeShare);
    assert_eq!(escrow.resolve_dispute(DISPUTE, "r", 150, -50).unwrap_err(), EscrowError::NegativeShare);
    assert_eq!(escrow.get_escrow("r").unwrap().status, RideStatus::Disputed);
    assert_eq!(EscrowError::NegativeShare.message(), "amounts cannot be negative");
    assert_eq!(EscrowError::SplitMismatch.message(), "passenger_amount + driver_amount must equal escrowed_amount");
    assert_eq!(EscrowError::RideNotFound.message(), "ride not found");
}

#[test]
fn settled_ride_is_final() {
    let (mut escrow, _) = setup();
    escrow.deposit("r", PASSENGER, DRIVER, TOKEN, 100).unwrap();
    escrow.refund("r", ADMIN).unwrap();
    assert_eq!(escrow.release("r", DRIVER).unwrap_err(), EscrowError::NotFunded);
    assert_eq!(escrow.refund("r", PASSENGER).unwrap_err(), EscrowError::NotFunded);
    assert_eq!(escrow.dispute("r", PASSENGER).unwrap_err(), EscrowError::DisputeNotFunded);
    assert_eq!(escrow.resolve_dispute(DISPUTE, "r", 100, 0).unwrap_err(), EscrowError::NotDisputed);
    assert_eq!(escrow.deposit("r", PASSENGER, DRIVER, TOKEN, 100).unwrap_err(), EscrowError::RideExists);
    let record = escrow.get_escrow("r").unwrap();
    assert_eq!(record.status, RideStatus::Refunded);
    assert_eq!(record.amount, 100);
}

#[test]
fn fare_leaves_escrow_once_and_in_full() {
    let (mut escrow, mut balances) = setup();
    let mut recorded = Recorded::default();
    for (ride, amount) in [("a", 300), ("b", 200)] {
        let actions = escrow.deposit(ride, PASSENGER, DRIVER, TOKEN, amount).unwrap();
        balances.carry_out(&actions, &mut recorded);
    }
    assert_eq!(balances.balance(TOKEN, ESCROW), 500);
    escrow.dispute("a", DRIVER).unwrap();
    // whole fare to the passenger: no payout call
    let actions = escrow.resolve_dispute(DISPUTE, "a", 300, 0).unwrap();
    assert_eq!(actions.len(), 2);
    balances.carry_out(&actions, &mut recorded);
    assert!(!recorded.recorded);
    assert_eq!(balances.balance(TOKEN, ESCROW), 200);
    // whole fare to the driver: no transfer to the passenger
    escrow.dispute("b", PASSENGER).unwrap();
    let actions = escrow.resolve_dispute(DISPUTE, "b", 0, 200).unwrap();
    assert_eq!(actions.len(), 3);
    balances.carry_out(&actions, &mut recorded);
    assert_eq!(recorded.ride_id, "b");
    assert_eq!(recorded.token, TOKEN);
    assert_eq!(balances.balance(TOKEN, ESCROW), 0);
    assert_eq!(balances.balance(TOKEN, PASSENGER), 800);
    assert_eq!(balances.balance(TOKEN, PAYOUT), 200);
    // a dismissed dispute leaves the fare where it is, and the ride can be released
    escrow.deposit("c", PASSENGER, DRIVER, TOKEN, 50).unwrap();
    escrow.dispute("c", PASSENGER).unwrap();
    let actions = escrow.dismiss_dispute(DISPUTE, "c").unwrap();
    assert_eq!(actions.len(), 1);
    assert!(escrow.release("c", DRIVER).is_ok());
    assert_eq!(escrow.get_admin().unwrap(), ADMIN);
    assert_eq!(escrow.get_payout_contract().unwrap(), PAYOUT);
    assert_eq!(escrow.get_dispute_contract().unwrap(), DISPUTE);
}

#[test]
fn restore_reads_back_stored_records() {
    let (mut escrow, _) = setup();
    escrow.deposit("r", PASSENGER, DRIVER, TOKEN, 70).unwrap();
    let record = escrow.get_escrow("r").unwrap();
    let links = aj_drive::ride_escrow::EscrowLinks {
        admin: ADMIN.to_string(),
        payout_contract: PAYOUT.to_string(),
        dispute_contract: DISPUTE.to_string(),
    };
    let mut back = RideEscrowContract::restore(ESCROW, Some(links), vec![record.clone()]).unwrap();
    assert_eq!(back.get_escrow("r").unwrap().amount, 70);
    assert_eq!(back.get_admin().unwrap(), ADMIN);
    let actions = back.release("r", DRIVER).unwrap();
    assert_eq!(actions.len(), 3);

    let mut bad = record.clone();
    bad.amount = 0;
    assert!(RideEscrowContract::restore(ESCROW, None, vec![record.clone(), bad]).is_none());
    let mut pending = record;
    pending.status = RideStatus::Pending;
    assert!(RideEscrowContract::restore(ESCROW, None, vec![pending]).is_none());
}

#[test]
fn negative_share_is_refused_and_moves_nothing() {
    let (mut escrow, mut balances) = setup();
    let mut recorded = Recorded::default();
    let actions = escrow.deposit("ride_x", PASSENGER, DRIVER, TOKEN, 600).unwrap();
    balances.carry_out(&actions, &mut recorded);
    escrow.dispute("ride_x", PASSENGER).unwrap();
    assert_eq!(escrow.resolve_dispute(DISPUTE, "ride_x", -100, 700).unwrap_err(), EscrowError::NegativeShare);
    assert_eq!(balances.balance(TOKEN, ESCROW), 600);
    assert!(!recorded.recorded);
    let record = escrow.get_escrow("ride_x").unwrap();
    assert_eq!(record.status, RideStatus::Disputed);
    assert_eq!(record.amount, 600);
    // the same ride can still be settled with a proper split
    let actions = escrow.resolve_dispute(DISPUTE, "ride_x", 100, 500).unwrap();
    balances.carry_out(&actions, &mut recorded);
    assert_eq!(balances.balance(TOKEN, ESCROW), 0);
    assert_eq!(recorded.amount, 500);
}
