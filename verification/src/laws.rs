//! System-wide laws, stated over the spec-level state and proved once and
//! for all. Funds conservation itself — `contract_balance ==
//! admin_fees_balance + Σ available_to_withdraw` — is carried as the
//! `conserved()` preservation clause on every operation's contract (for
//! `remove_car`, under the proviso that the deleted listing carried no
//! balance); the lemmas here state the laws that relate several operations
//! or hold of every well-formed state.

use vstd::prelude::*;

use crate::model::car_index;
use crate::state::RentACarContract;
use crate::state::car_wf;
use crate::types::Address;
use crate::types::CarStatus;

verus! {

/// Mutual exclusion on a car. A rental is granted only while the car's
/// status is `Available`, and while a car is out (`Rented`) every further
/// rental request for it is refused. Since `rental`'s contract flips the
/// status to `Rented` on every success, of two rental calls against the
/// same car at most one can succeed, whatever their order.
pub proof fn lemma_rental_mutual_exclusion(
    s: RentACarContract,
    renter: Address,
    owner: Address,
    total_days_to_rent: u32,
    amount: i128,
)
    ensures
        s.rental_check(renter, owner, total_days_to_rent, amount) is None ==> s.spec_has_car(owner)
            && s.spec_car(owner).car_status == CarStatus::Available,
        s.spec_has_car(owner) && s.spec_car(owner).car_status == CarStatus::Rented
            ==> s.rental_check(renter, owner, total_days_to_rent, amount) is Some,
{
}

/// Monotonic non-negativity. In any well-formed state the escrow total, the
/// admin-fees pool, and every listed owner's withdrawable balance are
/// nonnegative; every operation's contract preserves well-formedness, so no
/// sequence of operations drives a balance below zero.
pub proof fn lemma_balances_nonnegative(s: RentACarContract, owner: Address)
    requires
        s.wf(),
    ensures
        s.contract_balance >= 0,
        s.admin_fees_balance >= 0,
        s.admin_fee >= 0,
        s.spec_has_car(owner) ==> s.spec_car(owner).available_to_withdraw >= 0,
{
    if s.spec_has_car(owner) {
        let i = car_index(s.cars@, owner);
        assert(0 <= i < s.cars@.len() && s.cars@[i].owner == owner);
        assert(car_wf(s.cars@[i].car));
    }
}

/// The system never owes more than it holds: in any well-formed state the
/// admin-fees pool fits inside the escrow total, and so does any single
/// owner's withdrawable balance.
pub proof fn lemma_escrow_covers_liabilities(s: RentACarContract, owner: Address)
    requires
        s.wf(),
    ensures
        s.admin_fees_balance <= s.contract_balance,
        s.spec_has_car(owner) ==> s.spec_car(owner).available_to_withdraw <= s.contract_balance,
{
    crate::model::lemma_sum_nonneg(s.cars@);
    if s.spec_has_car(owner) {
        let i = car_index(s.cars@, owner);
        assert(0 <= i < s.cars@.len() && s.cars@[i].owner == owner);
        crate::model::lemma_sum_entry_bound(s.cars@, i);
    }
}

} // verus!
