use aj_drive::dispute_resolution::DisputeLinks;
use aj_drive::dispute_resolution::{
    DisputeAction, DisputeError, DisputeReason, DisputeResolutionContract, DisputeStatus,
};
use aj_drive::ledger::{EventData, Topic};
use aj_drive::ride_escrow::{RideEscrow, RideEscrowContract, RideStatus};

const ADMIN: &str = "GADMIN";
const PASSENGER: &str = "GPASSENGER";
const DRIVER: &str = "GDRIVER";
const TOKEN: &str = "CTOKEN";
const ESCROW: &str = "CESCROW";
const DISPUTE: &str = "CDISPUTE";

/// The record the escrow contract answers with for `ride_id`.
fn escrow_record(ride_id: &str, amount: i128, status: RideStatus) -> RideEscrow {
    RideEscrow {
        ride_id: ride_id.to_string(),
        passenger: PASSENGER.to_string(),
        driver: DRIVER.to_string(),
        token: TOKEN.to_string(),
        amount,
        status,
    }
}

/// What a stand-in escrow contract saw of the desk's calls.
#[derive(Default)]
struct EscrowSide {
    resolved: bool,
    dismissed: bool,
    passenger_amount: i128,
    driver_amount: i128,
}

impl EscrowSide {
    fn carry_out(&mut self, actions: &[DisputeAction]) {
        for a in actions {
            match a {
                DisputeAction::Settle(c) => {
                    self.resolved = true;
                    self.passenger_amount = c.passenger_amount;
                    self.driver_amount = c.driver_amount;
                }
                DisputeAction::Dismiss(_) => self.dismissed = true,
                DisputeAction::Publish(_) => {}
            }
        }
    }
}

#[test]
fn test_raise_and_resolve_dispute() {
    let mut side = EscrowSide::default();
    let mut desk = DisputeResolutionContract::new(DISPUTE);
    desk.initialize(ADMIN, ESCROW).unwrap();
    assert_eq!(desk.get_escrow_contract().unwrap(), ESCROW);

    assert_eq!(desk.escrow_to_consult("disp_1").unwrap(), ESCROW);
    let escrow = escrow_record("ride_1", 1000, RideStatus::Disputed);
    desk.raise_dispute(
        "disp_1",
        "ride_1",
        PASSENGER,
        DisputeReason::DriverNoShow,
        "Driver didn't show up",
        &escrow,
        0,
    )
    .unwrap();

    let dispute = desk.get_dispute("disp_1").unwrap();
    assert_eq!(dispute.ride_id, "ride_1");
    assert_eq!(dispute.passenger, PASSENGER);
    assert_eq!(dispute.driver, DRIVER);
    assert_eq!(dispute.escrowed_amount, 1000);
    assert!(matches!(dispute.status, DisputeStatus::Open));

    // split 400 to the passenger and 600 to the driver
    let actions = desk.resolve(ADMIN, "disp_1", 400, 600, 0).unwrap();
    side.carry_out(&actions);

    let dispute = desk.get_dispute("disp_1").unwrap();
    assert!(matches!(dispute.status, DisputeStatus::SplitResolution));
    assert_eq!(dispute.passenger_amount, 400);
    assert_eq!(dispute.driver_amount, 600);

    assert!(side.resolved);
    assert_eq!(side.passenger_amount, 400);
    assert_eq!(side.driver_amount, 600);
}

#[test]
fn test_raise_and_dismiss_dispute() {
    let mut side = EscrowSide::default();
    let mut desk = DisputeResolutionContract::new(DISPUTE);
    desk.initialize(ADMIN, ESCROW).unwrap();

    let escrow = escrow_record("ride_2", 1000, RideStatus::Disputed);
    desk.raise_dispute(
        "disp_2",
        "ride_2",
        PASSENGER,
        DisputeReason::SafetyConcern,
        "Safety issue raised",
        &escrow,
        0,
    )
    .unwrap();

    let actions = desk.dismiss(ADMIN, "disp_2", 0).unwrap();
    side.carry_out(&actions);

    let dispute = desk.get_dispute("disp_2").unwrap();
    assert!(matches!(dispute.status, DisputeStatus::Dismissed));
    assert!(side.dismissed);
}

#[test]
fn resolution_kind_follows_the_split() {
    let mut desk = DisputeResolutionContract::new(DISPUTE);
    desk.initialize(ADMIN, ESCROW).unwrap();
    let escrow = escrow_record("ride", 90, RideStatus::Disputed);
    for (id, p, d, kind) in [
        ("a", 90, 0, DisputeStatus::ResolvedForPassenger),
        ("b", 0, 90, DisputeStatus::ResolvedForDriver),
        ("c", 30, 60, DisputeStatus::SplitResolution),
    ] {
        desk.raise_dispute(id, "ride", DRIVER, DisputeReason::Other, "", &escrow, 5).unwrap();
        let actions = desk.resolve(ADMIN, id, p, d, 77).unwrap();
        assert_eq!(actions.len(), 2);
        match &actions[1] {
            DisputeAction::Publish(e) => {
                assert_eq!(e.topic, Topic::Resolved);
                assert_eq!(e.subject, id);
                assert_eq!(e.data, EventData::Split(p, d));
            }
            _ => panic!("expected an event"),
        }
        let dispute = desk.get_dispute(id).unwrap();
        assert_eq!(dispute.status, kind);
        assert_eq!(dispute.raised_at, 5);
        assert_eq!(dispute.resolved_at, 77);
        assert_eq!(dispute.raised_by, DRIVER);
    }
}

#[test]
fn dispute_rejects_with_each_error() {
    let mut desk = DisputeResolutionContract::new(DISPUTE);
    let escrow = escrow_record("ride", 100, RideStatus::Disputed);
    assert_eq!(desk.escrow_to_consult("d").unwrap_err(), DisputeError::NotInitialized);
    assert_eq!(
        desk.raise_dispute("d", "ride", PASSENGER, DisputeReason::Other, "", &escrow, 0).unwrap_err(),
        DisputeError::NotInitialized
    );
    assert_eq!(desk.resolve(ADMIN, "d", 50, 50, 0).unwrap_err(), DisputeError::NotInitialized);
    assert_eq!(desk.get_admin().unwrap_err(), DisputeError::NotInitialized);
    desk.initialize(ADMIN, ESCROW).unwrap();
    assert_eq!(desk.initialize(ADMIN, ESCROW).unwrap_err(), DisputeError::AlreadyInitialized);
    assert_eq!(
        desk.raise_dispute("d", "ride", ADMIN, DisputeReason::Other, "", &escrow, 0).unwrap_err(),
        DisputeError::NotParticipant
    );
    let funded = escrow_record("ride", 100, RideStatus::Funded);
    assert_eq!(
        desk.raise_dispute("d", "ride", PASSENGER, DisputeReason::Other, "", &funded, 0).unwrap_err(),
        DisputeError::EscrowNotDisputed
    );
    desk.raise_dispute("d", "ride", PASSENGER, DisputeReason::PaymentIssue, "late", &escrow, 0).unwrap();
    assert_eq!(desk.escrow_to_consult("d").unwrap_err(), DisputeError::DisputeExists);
    assert_eq!(
        desk.raise_dispute("d", "ride", PASSENGER, DisputeReason::Other, "", &escrow, 0).unwrap_err(),
        DisputeError::DisputeExists
    );
    assert_eq!(desk.resolve(PASSENGER, "d", 50, 50, 0).unwrap_err(), DisputeError::ResolveUnauthorized);
    assert_eq!(desk.dismiss(PASSENGER, "d", 0).unwrap_err(), DisputeError::DismissUnauthorized);
    assert_eq!(desk.resolve(ADMIN, "x", 50, 50, 0).unwrap_err(), DisputeError::DisputeNotFound);
    assert_eq!(desk.dismiss(ADMIN, "x", 0).unwrap_err(), DisputeError::DisputeNotFound);
    assert_eq!(desk.get_dispute("x").unwrap_err(), DisputeError::DisputeNotFound);
    assert_eq!(desk.resolve(ADMIN, "d", 50, 49, 0).unwrap_err(), DisputeError::SplitMismatch);
    assert_eq!(desk.resolve(ADMIN, "d", 150, -50, 0).unwrap_err(), DisputeError::NegativeAmount);
    desk.dismiss(ADMIN, "d", 3).unwrap();
    assert_eq!(desk.resolve(ADMIN, "d", 50, 50, 0).unwrap_err(), DisputeError::NotOpen);
    assert_eq!(desk.dismiss(ADMIN, "d", 0).unwrap_err(), DisputeError::NotOpen);
    assert_eq!(desk.get_admin().unwrap(), ADMIN);
    assert_eq!(DisputeError::NegativeAmount.message(), "amounts cannot be negative");
}

#[test]
fn desk_and_escrow_agree_on_a_settlement() {
    // a full round: the escrow holds the fare, the desk decides, the escrow pays
    let mut escrow = RideEscrowContract::new(ESCROW);
    escrow.initialize(ADMIN, "CPAYOUT", DISPUTE).unwrap();
    escrow.deposit("ride_7", PASSENGER, DRIVER, TOKEN, 800).unwrap();
    escrow.dispute("ride_7", PASSENGER).unwrap();

    let mut desk = DisputeResolutionContract::new(DISPUTE);
    desk.initialize(ADMIN, ESCROW).unwrap();
    let record = escrow.get_escrow("ride_7").unwrap();
    desk.raise_dispute("disp_7", "ride_7", PASSENGER, DisputeReason::RouteDeviation, "detour", &record, 10)
        .unwrap();
    let actions = desk.resolve(ADMIN, "disp_7", 300, 500, 20).unwrap();
    match &actions[0] {
        DisputeAction::Settle(c) => {
            assert_eq!(c.escrow_contract, ESCROW);
            assert_eq!(c.caller, DISPUTE);
            let paid = escrow
                .resolve_dispute(&c.caller, &c.ride_id, c.passenger_amount, c.driver_amount)
                .unwrap();
            assert_eq!(paid.len(), 4);
        }
        _ => panic!("expected a settlement"),
    }
    assert_eq!(escrow.get_escrow("ride_7").unwrap().status, RideStatus::Completed);
}

#[test]
fn restore_reads_back_stored_disputes() {
    let mut desk = DisputeResolutionContract::new(DISPUTE);
    desk.initialize(ADMIN, ESCROW).unwrap();
    let escrow = escrow_record("ride", 100, RideStatus::Disputed);
    desk.raise_dispute("d", "ride", PASSENGER, DisputeReason::Other, "x", &escrow, 1).unwrap();
    let open = desk.get_dispute("d").unwrap();
    let links = DisputeLinks { admin: ADMIN.to_string(), escrow_contract: ESCROW.to_string() };
    let mut back = DisputeResolutionContract::restore(DISPUTE, Some(links), vec![open.clone()]).unwrap();
    assert!(back.resolve(ADMIN, "d", 100, 0, 2).is_ok());

    let mut wrong_kind = back.get_dispute("d").unwrap();
    wrong_kind.status = DisputeStatus::SplitResolution;
    assert!(DisputeResolutionContract::restore(DISPUTE, None, vec![wrong_kind]).is_none());
    let mut open_with_amounts = open;
    open_with_amounts.passenger_amount = 5;
    assert!(DisputeResolutionContract::restore(DISPUTE, None, vec![open_with_amounts]).is_none());
}
