use rent_a_car::state::check_has_rental;
use rent_a_car::state::RentACarContract;
use rent_a_car::types::Address;
use rent_a_car::types::AuthContext;
use rent_a_car::types::CarStatus;
use rent_a_car::types::Error;
use rent_a_car::types::TokenTransfer;

const ADMIN: Address = Address { id: 1 };
const TOKEN: Address = Address { id: 2 };
const OWNER_A: Address = Address { id: 10 };
const OWNER_B: Address = Address { id: 11 };
const RENTER_A: Address = Address { id: 20 };
const RENTER_B: Address = Address { id: 21 };

fn setup() -> (RentACarContract, AuthContext) {
    let mut state = RentACarContract::new();
    state.initialize(ADMIN, TOKEN).unwrap();
    let auth = AuthContext {
        approved: vec![ADMIN, OWNER_A, OWNER_B, RENTER_A, RENTER_B],
    };
    (state, auth)
}

/// `contract_balance == admin_fees_balance + Σ available_to_withdraw`, the
/// sum read through the public getters over the given owners.
fn assert_conserved(state: &RentACarContract, owners: &[Address]) {
    let mut sum = 0_i128;
    for owner in owners {
        if state.has_car(owner) {
            let (_, available) = state.get_car_info(owner).unwrap();
            sum += available;
        }
    }
    assert_eq!(state.contract_balance, state.get_admin_fees_balance() + sum);
}

#[test]
fn test_initialize_twice_fails() {
    let (mut state, _auth) = setup();
    let r = state.initialize(ADMIN, TOKEN);
    assert_eq!(r, Err(Error::AlreadyInitialized));
    assert_eq!(state.get_admin(), ADMIN);
}

#[test]
fn test_initialize_admin_token_conflict_fails() {
    let mut state = RentACarContract::new();
    let r = state.initialize(ADMIN, ADMIN);
    assert_eq!(r, Err(Error::AdminTokenConflict));
    // The conflict is answered first even once initialized.
    state.initialize(ADMIN, TOKEN).unwrap();
    assert_eq!(state.initialize(TOKEN, TOKEN), Err(Error::AdminTokenConflict));
}

#[test]
fn test_set_and_get_admin_fee() {
    let (mut state, auth) = setup();
    assert_eq!(state.get_admin_fee(), 0);
    state.set_admin_fee(&auth, 250).unwrap();
    assert_eq!(state.get_admin_fee(), 250);
    state.set_admin_fee(&auth, 0).unwrap();
    assert_eq!(state.get_admin_fee(), 0);
}

#[test]
fn test_set_admin_fee_negative_fails() {
    let (mut state, auth) = setup();
    state.set_admin_fee(&auth, 250).unwrap();
    assert_eq!(state.set_admin_fee(&auth, -1), Err(Error::InvalidAmount));
    assert_eq!(state.get_admin_fee(), 250);
}

#[test]
fn test_add_car_validation_errors() {
    let (mut state, auth) = setup();
    assert_eq!(
        state.add_car(&auth, OWNER_A, 0, 10),
        Err(Error::InvalidAmount)
    );
    assert_eq!(
        state.add_car(&auth, OWNER_A, -5, 10),
        Err(Error::InvalidAmount)
    );
    assert_eq!(
        state.add_car(&auth, OWNER_A, 1500, 0),
        Err(Error::InvalidCommissionAmount)
    );
    assert!(!state.has_car(&OWNER_A));
    state.add_car(&auth, OWNER_A, 1500, 10).unwrap();
    assert_eq!(
        state.add_car(&auth, OWNER_A, 2000, 20),
        Err(Error::CarAlreadyExists)
    );
    // The first listing is untouched by the rejected second one.
    let (price, available) = state.get_car_info(&OWNER_A).unwrap();
    assert_eq!(price, 1500);
    assert_eq!(available, 0);
}

#[test]
fn test_rental_validation_errors() {
    let (mut state, auth) = setup();
    state.add_car(&auth, OWNER_A, 1500, 10).unwrap();
    assert_eq!(
        state.rental(&auth, RENTER_A, OWNER_A, 3, 0),
        Err(Error::InvalidAmount)
    );
    assert_eq!(
        state.rental(&auth, RENTER_A, OWNER_A, 0, 4500),
        Err(Error::RentalDurationZero)
    );
    assert_eq!(
        state.rental(&auth, OWNER_A, OWNER_A, 3, 4500),
        Err(Error::SelfRentalNotAllowed)
    );
    assert_eq!(
        state.rental(&auth, RENTER_A, OWNER_B, 3, 4500),
        Err(Error::CarNotFound)
    );
    assert_eq!(state.contract_balance, 0);
}

#[test]
fn test_second_rental_rejected_state_unchanged() {
    let (mut state, auth) = setup();
    state.add_car(&auth, OWNER_A, 1500, 10).unwrap();
    state.rental(&auth, RENTER_A, OWNER_A, 3, 4500).unwrap();
    let balance_before = state.contract_balance;
    let r = state.rental(&auth, RENTER_B, OWNER_A, 5, 9000);
    assert_eq!(r, Err(Error::CarAlreadyRented));
    assert_eq!(state.contract_balance, balance_before);
    assert!(!check_has_rental(&state, &RENTER_B, &OWNER_A));
    assert!(check_has_rental(&state, &RENTER_A, &OWNER_A));
}

#[test]
fn test_rental_overflow_no_state_change() {
    let (mut state, auth) = setup();
    state.add_car(&auth, OWNER_A, 1500, 10).unwrap();
    let r = state.rental(&auth, RENTER_A, OWNER_A, 3, i128::MAX);
    assert_eq!(r, Err(Error::Overflow));
    assert_eq!(state.contract_balance, 0);
    assert_eq!(state.get_admin_fees_balance(), 0);
    assert_eq!(state.get_car_status(&OWNER_A).unwrap(), CarStatus::Available);
    assert!(!check_has_rental(&state, &RENTER_A, &OWNER_A));
}

#[test]
fn test_return_car_errors() {
    let (mut state, auth) = setup();
    assert_eq!(
        state.return_car(&auth, RENTER_A, OWNER_A),
        Err(Error::CarNotFound)
    );
    state.add_car(&auth, OWNER_A, 1500, 10).unwrap();
    assert_eq!(
        state.return_car(&auth, RENTER_A, OWNER_A),
        Err(Error::CarNotRented)
    );
    state.rental(&auth, RENTER_A, OWNER_A, 3, 4500).unwrap();
    assert_eq!(
        state.return_car(&auth, RENTER_B, OWNER_A),
        Err(Error::RentalNotFound)
    );
    state.return_car(&auth, RENTER_A, OWNER_A).unwrap();
    assert_eq!(state.get_car_status(&OWNER_A).unwrap(), CarStatus::Available);
    assert!(!check_has_rental(&state, &RENTER_A, &OWNER_A));
}

#[test]
fn test_payout_owner_errors() {
    let (mut state, auth) = setup();
    assert_eq!(
        state.payout_owner(&auth, OWNER_A, 0),
        Err(Error::InvalidAmount)
    );
    assert_eq!(
        state.payout_owner(&auth, OWNER_A, 100),
        Err(Error::CarNotFound)
    );
    state.add_car(&auth, OWNER_A, 1500, 10).unwrap();
    state.rental(&auth, RENTER_A, OWNER_A, 3, 4500).unwrap();
    // The car is still out: the owner may not withdraw yet.
    assert_eq!(
        state.payout_owner(&auth, OWNER_A, 4500),
        Err(Error::CarNotReturned)
    );
}

#[test]
fn test_withdraw_admin_fees_successfully() {
    let (mut state, auth) = setup();
    state.add_car(&auth, OWNER_A, 1500, 1_000_000_000).unwrap();
    state.rental(&auth, RENTER_A, OWNER_A, 3, 4500).unwrap();
    assert_eq!(state.get_admin_fees_balance(), 1_000_000_000);
    let transfer = state.withdraw_admin_fees(&auth, 400_000_000).unwrap();
    assert_eq!(
        transfer,
        TokenTransfer::FromContract {
            to: ADMIN,
            amount: 400_000_000,
        }
    );
    assert_eq!(state.get_admin_fees_balance(), 600_000_000);
    assert_eq!(state.contract_balance, 600_004_500);
}

#[test]
fn test_withdraw_admin_fees_insufficient_balance_fails() {
    let (mut state, auth) = setup();
    state.add_car(&auth, OWNER_A, 1500, 1_000_000_000).unwrap();
    state.rental(&auth, RENTER_A, OWNER_A, 3, 4500).unwrap();
    assert_eq!(state.get_admin_fees_balance(), 1_000_000_000);
    let r = state.withdraw_admin_fees(&auth, 1_000_000_001);
    assert_eq!(r, Err(Error::InsufficientBalance));
    assert_eq!(state.get_admin_fees_balance(), 1_000_000_000);
    assert_eq!(state.contract_balance, 1_000_004_500);
    assert_eq!(
        state.withdraw_admin_fees(&auth, 0),
        Err(Error::InvalidAmount)
    );
}

#[test]
fn test_conservation_across_operations() {
    let (mut state, auth) = setup();
    let owners = [OWNER_A, OWNER_B];
    assert_conserved(&state, &owners);
    state.add_car(&auth, OWNER_A, 1500, 1_000_000_000).unwrap();
    assert_conserved(&state, &owners);
    state.add_car(&auth, OWNER_B, 900, 50).unwrap();
    assert_conserved(&state, &owners);
    state.rental(&auth, RENTER_A, OWNER_A, 3, 4500).unwrap();
    assert_conserved(&state, &owners);
    state.rental(&auth, RENTER_B, OWNER_B, 7, 6300).unwrap();
    assert_conserved(&state, &owners);
    state.return_car(&auth, RENTER_A, OWNER_A).unwrap();
    assert_conserved(&state, &owners);
    state.payout_owner(&auth, OWNER_A, 4500).unwrap();
    assert_conserved(&state, &owners);
    state.withdraw_admin_fees(&auth, 1_000_000_050).unwrap();
    assert_conserved(&state, &owners);
    assert_eq!(state.contract_balance, 6300);
}

#[test]
fn test_remove_car_with_balance_breaks_conservation() {
    let (mut state, auth) = setup();
    state.add_car(&auth, OWNER_A, 1500, 10).unwrap();
    state.rental(&auth, RENTER_A, OWNER_A, 3, 4500).unwrap();
    state.return_car(&auth, RENTER_A, OWNER_A).unwrap();
    // Deleting a listing that still carries 4500 of withdrawable balance
    // keeps the funds in escrow while dropping the liability: the
    // conservation equation is the known hazard of `remove_car`.
    state.remove_car(&auth, OWNER_A).unwrap();
    assert!(!state.has_car(&OWNER_A));
    assert_eq!(state.contract_balance, 4510);
    assert_eq!(state.get_admin_fees_balance(), 10);
    // 4500 of escrow is now owed to nobody.
    assert_eq!(state.contract_balance - state.get_admin_fees_balance(), 4500);
}

#[test]
fn test_remove_car_not_found_fails() {
    let (mut state, auth) = setup();
    assert_eq!(state.remove_car(&auth, OWNER_A), Err(Error::CarNotFound));
    state.add_car(&auth, OWNER_A, 1500, 10).unwrap();
    state.remove_car(&auth, OWNER_A).unwrap();
    assert!(!state.has_car(&OWNER_A));
}

#[test]
fn test_reads_are_idempotent() {
    let (mut state, auth) = setup();
    state.add_car(&auth, OWNER_A, 1500, 10).unwrap();
    state.rental(&auth, RENTER_A, OWNER_A, 3, 4500).unwrap();
    assert_eq!(
        state.get_car_status(&OWNER_A).unwrap(),
        state.get_car_status(&OWNER_A).unwrap()
    );
    assert_eq!(
        state.get_car_info(&OWNER_A).unwrap(),
        state.get_car_info(&OWNER_A).unwrap()
    );
    assert_eq!(state.get_admin_fee(), state.get_admin_fee());
    assert_eq!(
        state.get_admin_fees_balance(),
        state.get_admin_fees_balance()
    );
}

#[test]
fn test_rental_record_lifecycle() {
    let (mut state, auth) = setup();
    state.add_car(&auth, OWNER_A, 1500, 10).unwrap();
    assert!(!check_has_rental(&state, &RENTER_A, &OWNER_A));
    assert!(state.read_rental(&RENTER_A, &OWNER_A).is_none());
    state.rental(&auth, RENTER_A, OWNER_A, 3, 4500).unwrap();
    assert!(check_has_rental(&state, &RENTER_A, &OWNER_A));
    let rental = state.read_rental(&RENTER_A, &OWNER_A).unwrap();
    assert_eq!(rental.total_days_to_rent, 3);
    assert_eq!(rental.amount, 4500);
    state.return_car(&auth, RENTER_A, OWNER_A).unwrap();
    assert!(!check_has_rental(&state, &RENTER_A, &OWNER_A));
    assert!(state.read_rental(&RENTER_A, &OWNER_A).is_none());
}

#[test]
fn test_auth_context_grants() {
    let auth = AuthContext {
        approved: vec![ADMIN, OWNER_A],
    };
    assert!(auth.grants(&ADMIN));
    assert!(auth.grants(&OWNER_A));
    assert!(!auth.grants(&RENTER_A));
}
