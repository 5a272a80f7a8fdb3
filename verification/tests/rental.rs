use rent_a_car::state::RentACarContract;
use rent_a_car::types::Address;
use rent_a_car::types::AuthContext;
use rent_a_car::types::CarStatus;
use rent_a_car::types::TokenTransfer;

fn setup() -> (RentACarContract, AuthContext) {
    let mut state = RentACarContract::new();
    let admin = Address { id: 1 };
    let token = Address { id: 2 };
    state.initialize(admin, token).unwrap();
    let owner = Address { id: 10 };
    let renter1 = Address { id: 20 };
    let renter2 = Address { id: 21 };
    let auth = AuthContext {
        approved: vec![admin, owner, renter1, renter2],
    };
    (state, auth)
}

#[test]
pub fn test_rental_car_successfully() {
    let (mut state, auth) = setup();

    let owner = Address { id: 10 };
    let renter = Address { id: 20 };
    let price_per_day = 1500_i128;
    let total_days = 3;
    let amount = 4500_i128;

    let commission_amount = 1_000_000_000_i128;
    state
        .add_car(&auth, owner, price_per_day, commission_amount)
        .unwrap();

    let initial_contract_balance = state.contract_balance;
    assert_eq!(initial_contract_balance, 0);

    let transfer = state
        .rental(&auth, renter, owner, total_days, amount)
        .unwrap();

    // The escrow holds the deposit plus the fixed commission.
    let admin_fee = commission_amount;
    let total_balance = amount + admin_fee;
    let updated_contract_balance = state.contract_balance;
    assert_eq!(updated_contract_balance, total_balance);

    assert_eq!(state.get_car_status(&owner).unwrap(), CarStatus::Rented);
    let (_, available_to_withdraw) = state.get_car_info(&owner).unwrap();
    assert_eq!(available_to_withdraw, amount);

    let rental = state.read_rental(&renter, &owner).unwrap();
    assert_eq!(rental.total_days_to_rent, total_days);
    assert_eq!(rental.amount, amount);

    // The owed transfer debits the renter for deposit plus fee.
    let total_amount = amount + admin_fee;
    assert_eq!(
        transfer,
        TokenTransfer::ToContract {
            from: renter,
            amount: total_amount,
        }
    );
}

#[test]
#[should_panic]
pub fn test_rental_car_already_rented_fails() {
    let (mut state, auth) = setup();

    let owner = Address { id: 10 };
    let renter1 = Address { id: 20 };
    let renter2 = Address { id: 21 };
    let price_per_day = 1500_i128;
    let total_days = 3_u32;
    let amount = 4500_i128;

    let commission_amount = 10_i128;
    state
        .add_car(&auth, owner, price_per_day, commission_amount)
        .unwrap();

    // The first renter takes the car.
    state
        .rental(&auth, renter1, owner, total_days, amount)
        .unwrap();

    // A second rental of the same, already rented car must fail.
    state
        .rental(&auth, renter2, owner, total_days, amount)
        .unwrap();
}
