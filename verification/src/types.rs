use vstd::prelude::*;

verus! {

/// An account identity on the host ledger. The host's address values are
/// opaque; the core only compares them and uses them as keys, so each
/// principal is represented by a numeric identity chosen by the host
/// adapter.
#[derive(Clone, Copy, Debug, PartialEq, Eq, Structural)]
pub struct Address {
    pub id: u64,
}

/// Whether a listed car is free to rent or currently out with a renter.
#[derive(Clone, Copy, Debug, PartialEq, Eq, Structural)]
pub enum CarStatus {
    Available,
    Rented,
}

/// A car listing, stored one per owner address.
#[derive(Clone, Copy, Debug, PartialEq, Eq, Structural)]
pub struct Car {
    /// Advisory price, fixed at listing time; never used to compute charges.
    pub price_per_day: i128,
    pub car_status: CarStatus,
    /// Funds earned by the owner across rentals and not yet paid out.
    pub available_to_withdraw: i128,
    /// Fixed fee charged to the renter on every rental of this car,
    /// fixed at listing time and credited to the admin-fees pool.
    pub commission_amount: i128,
}

/// An active rental, keyed by the (renter, owner) pair.
#[derive(Clone, Copy, Debug, PartialEq, Eq, Structural)]
pub struct Rental {
    /// Informational day count; never used to compute charges.
    pub total_days_to_rent: u32,
    /// Principal deposited by the renter, excluding the commission.
    pub amount: i128,
}

/// Why an operation was rejected. Every failed call leaves the state
/// exactly as it was.
#[derive(Clone, Copy, Debug, PartialEq, Eq, Structural)]
pub enum Error {
    /// `initialize` was given the same address for admin and payment asset.
    AdminTokenConflict,
    /// `initialize` was called on an already-initialized state.
    AlreadyInitialized,
    /// An amount or fee was not positive where positivity is required.
    InvalidAmount,
    /// A commission was not positive at listing time.
    InvalidCommissionAmount,
    /// The owner already has a listing.
    CarAlreadyExists,
    /// No listing exists for the given owner.
    CarNotFound,
    /// A renter tried to rent their own car.
    SelfRentalNotAllowed,
    /// A rental was requested for zero days.
    RentalDurationZero,
    /// The car is already out with a renter.
    CarAlreadyRented,
    /// A return was requested for a car that is not currently rented.
    CarNotRented,
    /// No active rental exists for the given (renter, owner) pair.
    RentalNotFound,
    /// An owner tried to withdraw while the car is still out.
    CarNotReturned,
    /// A withdrawal asked for more than the balance it draws from.
    InsufficientBalance,
    /// A checked addition on a balance would exceed the 128-bit range.
    Overflow,
    /// A checked subtraction on a balance would fall below the 128-bit range.
    Underflow,
}

/// A movement of the payment asset that the host must perform when the
/// operation that returned it succeeds. The core never touches the asset
/// itself; it only decides which transfer is owed.
#[derive(Clone, Copy, Debug, PartialEq, Eq, Structural)]
pub enum TokenTransfer {
    /// Debit `from`, credit the escrow account the system holds.
    ToContract { from: Address, amount: i128 },
    /// Debit the escrow account the system holds, credit `to`.
    FromContract { to: Address, amount: i128 },
}

/// The principals that have authorized the current call, as established by
/// the host's signature verification. Operations require authorization as a
/// precondition: an unauthorized invocation is the host's pre-commit abort,
/// so it never reaches the core.
pub struct AuthContext {
    pub approved: Vec<Address>,
}

impl AuthContext {
    /// Whether `a` has authorized the current call.
    pub open spec fn authorizes(self, a: Address) -> bool {
        self.approved@.contains(a)
    }

    /// Exact membership test, for callers that must check authorization
    /// before entering an operation.
    pub fn grants(&self, a: &Address) -> (r: bool)
        ensures
            r == self.authorizes(*a),
    {
        let mut i: usize = 0;
        while i < self.approved.len()
            invariant
                i <= self.approved@.len(),
                forall|j: int| 0 <= j < i ==> self.approved@[j] != *a,
            decreases self.approved@.len() - i,
        {
            if self.approved[i] == *a {
                assert(self.approved@.contains(*a));
                return true;
            }
            i += 1;
        }
        false
    }
}

} // verus!
