use aj_drive::driver_payout::{DriverEarnings, PayoutLinks, PayoutRecord};
use std::collections::HashMap;

use aj_drive::driver_payout::{DriverPayoutContract, PayoutError};
use aj_drive::ledger::{EventData, LedgerAction, Topic};

/// Token balances of the accounts a test touches, per token contract.
struct Balances {
    of: HashMap<(String, String), i128>,
}

impl Balances {
    fn new() -> Balances {
        Balances { of: HashMap::new() }
    }

    fn mint(&mut self, token: &str, to: &str, amount: i128) {
        *self.of.entry((token.to_string(), to.to_string())).or_insert(0) += amount;
    }

    fn balance(&self, token: &str, who: &str) -> i128 {
        *self.of.get(&(token.to_string(), who.to_string())).unwrap_or(&0)
    }

    /// Carries out the transfers among `actions`, failing on an overdraft.
    fn carry_out(&mut self, actions: &[LedgerAction]) {
        for a in actions {
            if let LedgerAction::Transfer(t) = a {
                let from = self.balance(&t.token, &t.from);
                assert!(from >= t.amount, "balance is not sufficient to spend");
                self.of.insert((t.token.clone(), t.from.clone()), from - t.amount);
                self.mint(&t.token, &t.to, t.amount);
            }
        }
    }
}

const ADMIN: &str = "GADMIN";
const ESCROW: &str = "CESCROW";
const DRIVER: &str = "GDRIVER";
const TOKEN: &str = "CTOKEN";
const PAYOUT: &str = "CPAYOUT";

#[test]
fn test_record_payout_from_escrow_and_withdraw() {
    let mut balances = Balances::new();
    let mut payout = DriverPayoutContract::new(PAYOUT);
    payout.initialize(ADMIN, ESCROW).unwrap();
    assert_eq!(payout.get_escrow_contract().unwrap(), ESCROW);

    // the escrow has already moved the fare to the payout contract
    balances.mint(TOKEN, PAYOUT, 500);
    assert_eq!(balances.balance(TOKEN, PAYOUT), 500);

    let actions = payout.record_payout(ESCROW, DRIVER, TOKEN, 500, "ride_1", 0).unwrap();
    balances.carry_out(&actions);

    let earnings = payout.get_earnings(DRIVER);
    assert_eq!(earnings.total_earned, 500);
    assert_eq!(earnings.total_trips, 1);
    assert_eq!(earnings.pending, 500);

    let (withdrawn, actions) = payout.withdraw(DRIVER, TOKEN).unwrap();
    balances.carry_out(&actions);
    assert_eq!(withdrawn, 500);

    assert_eq!(balances.balance(TOKEN, DRIVER), 500);
    assert_eq!(balances.balance(TOKEN, PAYOUT), 0);

    let updated = payout.get_earnings(DRIVER);
    assert_eq!(updated.pending, 0);
}

#[test]
fn test_record_payout_from_admin() {
    let mut balances = Balances::new();
    let mut payout = DriverPayoutContract::new(PAYOUT);
    payout.initialize(ADMIN, ESCROW).unwrap();
    balances.mint(TOKEN, ADMIN, 1000);

    // the admin records a payout, which pulls the fare from the admin
    let actions = payout.record_payout(ADMIN, DRIVER, TOKEN, 300, "ride_2", 0).unwrap();
    balances.carry_out(&actions);

    assert_eq!(balances.balance(TOKEN, ADMIN), 700);
    assert_eq!(balances.balance(TOKEN, PAYOUT), 300);

    let earnings = payout.get_earnings(DRIVER);
    assert_eq!(earnings.pending, 300);
}

#[test]
fn test_instant_payout() {
    let mut balances = Balances::new();
    let mut payout = DriverPayoutContract::new(PAYOUT);
    payout.initialize(ADMIN, ESCROW).unwrap();
    balances.mint(TOKEN, ADMIN, 1000);

    let actions = payout.instant_payout(ADMIN, DRIVER, TOKEN, 400).unwrap();
    balances.carry_out(&actions);

    assert_eq!(balances.balance(TOKEN, ADMIN), 600);
    assert_eq!(balances.balance(TOKEN, DRIVER), 400);
    assert_eq!(balances.balance(TOKEN, PAYOUT), 0);

    let earnings = payout.get_earnings(DRIVER);
    assert_eq!(earnings.total_earned, 400);
    assert_eq!(earnings.pending, 0);
}

#[test]
fn payout_record_is_filed_by_ride() {
    let mut payout = DriverPayoutContract::new(PAYOUT);
    payout.initialize(ADMIN, ESCROW).unwrap();
    let actions = payout.record_payout(ESCROW, DRIVER, TOKEN, 120, "ride_9", 1_700_000_000).unwrap();
    assert_eq!(actions.len(), 1);
    match &actions[0] {
        LedgerAction::Publish(e) => {
            assert_eq!(e.topic, Topic::Recorded);
            assert_eq!(e.subject, "ride_9");
            assert_eq!(e.data, EventData::Amount(120));
        }
        _ => panic!("the escrow's payout pulls nothing"),
    }
    let record = payout.get_payout_record("ride_9").unwrap();
    assert_eq!(record.driver, DRIVER);
    assert_eq!(record.token, TOKEN);
    assert_eq!(record.amount, 120);
    assert_eq!(record.ride_id, "ride_9");
    assert_eq!(record.timestamp, 1_700_000_000);
    assert_eq!(payout.get_payout_record("ride_0").unwrap_err(), PayoutError::RecordNotFound);
}

#[test]
fn pending_plus_withdrawn_equals_recorded() {
    let mut balances = Balances::new();
    let mut payout = DriverPayoutContract::new(PAYOUT);
    payout.initialize(ADMIN, ESCROW).unwrap();
    balances.mint(TOKEN, ADMIN, 10_000);
    let mut withdrawn_total = 0;
    for (i, amount) in [100, 250, 75].iter().enumerate() {
        let actions = payout.record_payout(ADMIN, DRIVER, TOKEN, *amount, &format!("r{}", i), 0).unwrap();
        balances.carry_out(&actions);
        if i == 1 {
            let (w, actions) = payout.withdraw(DRIVER, TOKEN).unwrap();
            balances.carry_out(&actions);
            withdrawn_total += w;
        }
    }
    payout.instant_payout(ADMIN, DRIVER, TOKEN, 40).unwrap();
    let e = payout.get_earnings(DRIVER);
    assert_eq!(withdrawn_total, 350);
    assert_eq!(withdrawn_total + e.pending, 425);
    assert_eq!(e.total_earned, 465);
    assert_eq!(e.total_trips, 4);
    assert_eq!(balances.balance(TOKEN, DRIVER), 350);
    assert_eq!(balances.balance(TOKEN, PAYOUT), 75);
    // nothing is pending for a second withdrawal right after the first
    payout.withdraw(DRIVER, TOKEN).unwrap();
    assert_eq!(payout.withdraw(DRIVER, TOKEN).unwrap_err(), PayoutError::NoPendingBalance);
}

#[test]
fn payout_rejects_with_each_error() {
    let mut payout = DriverPayoutContract::new(PAYOUT);
    assert_eq!(
        payout.record_payout(ADMIN, DRIVER, TOKEN, 1, "r", 0).unwrap_err(),
        PayoutError::NotInitialized
    );
    assert_eq!(payout.instant_payout(ADMIN, DRIVER, TOKEN, 1).unwrap_err(), PayoutError::NotInitialized);
    assert_eq!(payout.get_escrow_contract().unwrap_err(), PayoutError::NotInitialized);
    assert_eq!(payout.withdraw(DRIVER, TOKEN).unwrap_err(), PayoutError::NoPendingBalance);
    payout.initialize(ADMIN, ESCROW).unwrap();
    assert_eq!(payout.initialize(ADMIN, ESCROW).unwrap_err(), PayoutError::AlreadyInitialized);
    assert_eq!(
        payout.record_payout(DRIVER, DRIVER, TOKEN, 1, "r", 0).unwrap_err(),
        PayoutError::RecordUnauthorized
    );
    assert_eq!(
        payout.record_payout(ESCROW, DRIVER, TOKEN, 0, "r", 0).unwrap_err(),
        PayoutError::AmountNotPositive
    );
    assert_eq!(payout.instant_payout(ESCROW, DRIVER, TOKEN, 1).unwrap_err(), PayoutError::InstantUnauthorized);
    assert_eq!(payout.instant_payout(ADMIN, DRIVER, TOKEN, -1).unwrap_err(), PayoutError::AmountNotPositive);
    payout.record_payout(ESCROW, DRIVER, TOKEN, i128::MAX, "r", 0).unwrap();
    assert_eq!(payout.record_payout(ESCROW, DRIVER, TOKEN, 1, "s", 0).unwrap_err(), PayoutError::Overflow);
    assert_eq!(payout.instant_payout(ADMIN, DRIVER, TOKEN, 1).unwrap_err(), PayoutError::Overflow);
    // a rejected call changes nothing
    assert_eq!(payout.get_earnings(DRIVER).total_trips, 1);
    assert_eq!(payout.get_payout_record("s").unwrap_err(), PayoutError::RecordNotFound);
    assert_eq!(PayoutError::NoPendingBalance.message(), "no pending balance to withdraw");
}

#[test]
fn unknown_driver_has_zero_earnings() {
    let payout = DriverPayoutContract::new(PAYOUT);
    let e = payout.get_earnings("GNOBODY");
    assert_eq!(e.driver, "GNOBODY");
    assert_eq!(e.total_earned, 0);
    assert_eq!(e.total_trips, 0);
    assert_eq!(e.pending, 0);
}

#[test]
fn restore_reads_back_stored_entries() {
    let earnings = DriverEarnings { driver: DRIVER.to_string(), total_earned: 900, total_trips: 3, pending: 200 };
    let record = PayoutRecord {
        driver: DRIVER.to_string(),
        token: TOKEN.to_string(),
        amount: 300,
        ride_id: "ride_1".to_string(),
        timestamp: 9,
    };
    let links = PayoutLinks { admin: ADMIN.to_string(), escrow_contract: ESCROW.to_string() };
    let mut payout =
        DriverPayoutContract::restore(PAYOUT, Some(links), vec![earnings.clone()], vec![record.clone()]).unwrap();
    assert_eq!(payout.get_payout_record("ride_1").unwrap().amount, 300);
    let (paid, _) = payout.withdraw(DRIVER, TOKEN).unwrap();
    assert_eq!(paid, 200);
    assert_eq!(payout.get_earnings(DRIVER).total_earned, 900);

    let mut over = earnings.clone();
    over.pending = 901;
    assert!(DriverPayoutContract::restore(PAYOUT, None, vec![over], vec![]).is_none());
    let mut negative = earnings;
    negative.pending = -1;
    assert!(DriverPayoutContract::restore(PAYOUT, None, vec![negative], vec![]).is_none());
    let mut empty = record;
    empty.amount = 0;
    assert!(DriverPayoutContract::restore(PAYOUT, None, vec![], vec![empty]).is_none());
}
