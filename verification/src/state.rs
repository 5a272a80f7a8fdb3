//! The escrow state machine. One [`RentACarContract`] value holds the whole
//! persisted state of a deployment: the one-time admin and payment-asset
//! configuration, the two global counters, the car registry and the rental
//! ledger. Every public operation is a total, panic-free transition: it
//! either returns `Ok` and performs exactly the state change its contract
//! states, or returns the error its contract ties to the input and leaves
//! the state untouched.

use vstd::prelude::*;

use crate::model::CarEntry;
use crate::model::RentalEntry;
use crate::model::car_at;
use crate::model::has_car_seq;
use crate::model::has_rental_seq;
use crate::model::lemma_car_index_unique;
use crate::model::lemma_cars_push;
use crate::model::lemma_cars_remove;
use crate::model::lemma_cars_update;
use crate::model::lemma_rental_index_unique;
use crate::model::lemma_rentals_push;
use crate::model::lemma_rentals_remove;
use crate::model::lemma_rentals_update;
use crate::model::lemma_sum_entry_bound;
use crate::model::lemma_sum_nonneg;
use crate::model::lemma_sum_push;
use crate::model::lemma_sum_remove;
use crate::model::lemma_sum_update;
use crate::model::rental_at;
use crate::model::sum_available;
use crate::model::unique_owners;
use crate::model::unique_rentals;
use crate::types::Address;
use crate::types::AuthContext;
use crate::types::Car;
use crate::types::CarStatus;
use crate::types::Error;
use crate::types::Rental;
use crate::types::TokenTransfer;

verus! {

/// A car listing is well formed when its fixed parameters are positive and
/// its withdrawable balance has not gone negative.
pub open spec fn car_wf(c: Car) -> bool {
    &&& c.price_per_day > 0
    &&& c.commission_amount > 0
    &&& c.available_to_withdraw >= 0
}

/// A rental record is well formed when its day count and principal are
/// positive and nobody rents from themselves.
pub open spec fn rental_entry_wf(e: RentalEntry) -> bool {
    &&& e.rental.total_days_to_rent > 0
    &&& e.rental.amount > 0
    &&& e.renter != e.owner
}

/// The whole state of one deployment of the escrow core.
pub struct RentACarContract {
    /// The one administrator, set once at initialization.
    pub admin: Option<Address>,
    /// The payment-asset account, set once at initialization.
    pub token: Option<Address>,
    /// A legacy fee parameter: settable and readable, consumed by nothing.
    pub admin_fee: i128,
    /// Total funds the system holds in escrow.
    pub contract_balance: i128,
    /// The part of `contract_balance` owed to the admin from commissions.
    pub admin_fees_balance: i128,
    /// Car listings, at most one per owner.
    pub cars: Vec<CarEntry>,
    /// Active rentals, at most one per (renter, owner) pair.
    pub rentals: Vec<RentalEntry>,
}

impl RentACarContract {
    /// Admin and payment asset have been set.
    pub open spec fn is_initialized(self) -> bool {
        self.admin is Some
    }

    /// The configured administrator.
    pub open spec fn admin_address(self) -> Address {
        self.admin->0
    }

    /// The configured payment-asset account.
    pub open spec fn token_address(self) -> Address {
        self.token->0
    }

    /// A listing exists for this owner.
    pub open spec fn spec_has_car(self, owner: Address) -> bool {
        has_car_seq(self.cars@, owner)
    }

    /// The listing for this owner.
    pub open spec fn spec_car(self, owner: Address) -> Car {
        car_at(self.cars@, owner)
    }

    /// An active rental exists for this (renter, owner) pair.
    pub open spec fn spec_has_rental(self, renter: Address, owner: Address) -> bool {
        has_rental_seq(self.rentals@, renter, owner)
    }

    /// The active rental for this (renter, owner) pair.
    pub open spec fn spec_rental(self, renter: Address, owner: Address) -> Rental {
        rental_at(self.rentals@, renter, owner)
    }

    /// The total of all owners' withdrawable balances.
    pub open spec fn cars_total(self) -> int {
        sum_available(self.cars@)
    }

    /// Funds conservation: everything the system holds is owed either to the
    /// admin (collected commissions) or to some owner (escrowed principal).
    /// Every operation preserves it, except that `remove_car` deletes a
    /// listing together with the liability it carries (see `remove_car`).
    pub open spec fn conserved(self) -> bool {
        self.contract_balance == self.admin_fees_balance + self.cars_total()
    }

    /// Internal consistency, established by `new` and preserved by every
    /// operation: the configuration is set as a pair with distinct
    /// addresses, no balance is negative, the system never holds less than
    /// the commissions it owes plus the escrow it owes, and both registries
    /// have distinct keys and well-formed entries.
    pub open spec fn wf(self) -> bool {
        &&& (self.admin is Some <==> self.token is Some)
        &&& (self.admin is Some ==> self.admin->0 != self.token->0)
        &&& self.admin_fee >= 0
        &&& self.admin_fees_balance >= 0
        &&& self.contract_balance >= 0
        &&& self.contract_balance >= self.admin_fees_balance + self.cars_total()
        &&& unique_owners(self.cars@)
        &&& (forall|i: int| 0 <= i < self.cars@.len() ==> car_wf((#[trigger] self.cars@[i]).car))
        &&& unique_rentals(self.rentals@)
        &&& (forall|i: int|
            0 <= i < self.rentals@.len() ==> rental_entry_wf(#[trigger] self.rentals@[i]))
    }

    /// A fresh, uninitialized deployment: no configuration, zero balances,
    /// empty registries.
    pub fn new() -> (r: RentACarContract)
        ensures
            r.wf(),
            !r.is_initialized(),
            r.admin is None,
            r.token is None,
            r.admin_fee == 0,
            r.contract_balance == 0,
            r.admin_fees_balance == 0,
            r.cars@ =~= Seq::<CarEntry>::empty(),
            r.rentals@ =~= Seq::<RentalEntry>::empty(),
            r.conserved(),
    {
        let r = RentACarContract {
            admin: None,
            token: None,
            admin_fee: 0,
            contract_balance: 0,
            admin_fees_balance: 0,
            cars: Vec::new(),
            rentals: Vec::new(),
        };
        r
    }

    /// Which rejection, if any, `initialize` answers on this state and input.
    pub open spec fn initialize_check(self, admin: Address, token: Address) -> Option<Error> {
        if admin == token {
            Some(Error::AdminTokenConflict)
        } else if self.is_initialized() {
            Some(Error::AlreadyInitialized)
        } else {
            None
        }
    }

    /// One-shot construction: records the admin and the payment asset.
    /// Rejects an admin that equals the asset account, and rejects a second
    /// initialization rather than ignoring it.
    pub fn initialize(&mut self, admin: Address, token: Address) -> (r: Result<(), Error>)
        requires
            old(self).wf(),
        ensures
            final(self).wf(),
            match r {
                Result::Ok(()) => {
                    &&& old(self).initialize_check(admin, token) is None
                    &&& *final(self) == (RentACarContract {
                        admin: Some(admin),
                        token: Some(token),
                        ..*old(self)
                    })
                },
                Result::Err(e) => {
                    &&& old(self).initialize_check(admin, token) == Some(e)
                    &&& *final(self) == *old(self)
                },
            },
            old(self).conserved() ==> final(self).conserved(),
    {
        if admin == token {
            return Err(Error::AdminTokenConflict);
        }
        if self.admin.is_some() {
            return Err(Error::AlreadyInitialized);
        }
        self.admin = Some(admin);
        self.token = Some(token);
        Ok(())
    }

    /// The configured administrator; defined only once initialized (reading
    /// it earlier is the host's abort, which never reaches the core).
    pub fn get_admin(&self) -> (r: Address)
        requires
            self.is_initialized(),
        ensures
            r == self.admin_address(),
    {
        self.admin.unwrap()
    }

    /// Which rejection, if any, `set_admin_fee` answers on this input.
    pub open spec fn set_admin_fee_check(self, fee: i128) -> Option<Error> {
        if fee < 0 {
            Some(Error::InvalidAmount)
        } else {
            None
        }
    }

    /// Overwrites the legacy fee parameter. Admin-only; a negative fee is
    /// rejected, zero is allowed. No accounting consults the stored value.
    #[allow(unused_variables)]
    pub fn set_admin_fee(&mut self, auth: &AuthContext, fee: i128) -> (r: Result<(), Error>)
        requires
            old(self).wf(),
            old(self).is_initialized(),
            auth.authorizes(old(self).admin_address()),
        ensures
            final(self).wf(),
            match r {
                Result::Ok(()) => {
                    &&& old(self).set_admin_fee_check(fee) is None
                    &&& *final(self) == (RentACarContract { admin_fee: fee, ..*old(self) })
                },
                Result::Err(e) => {
                    &&& old(self).set_admin_fee_check(fee) == Some(e)
                    &&& *final(self) == *old(self)
                },
            },
            old(self).conserved() ==> final(self).conserved(),
    {
        if fee < 0 {
            return Err(Error::InvalidAmount);
        }
        self.admin_fee = fee;
        Ok(())
    }

    /// The stored legacy fee parameter. Pure read, no authorization.
    pub fn get_admin_fee(&self) -> (r: i128)
        ensures
            r == self.admin_fee,
    {
        self.admin_fee
    }

    /// The commissions collected and not yet withdrawn. Pure read, no
    /// authorization.
    pub fn get_admin_fees_balance(&self) -> (r: i128)
        ensures
            r == self.admin_fees_balance,
    {
        self.admin_fees_balance
    }

    /// Where this owner's listing sits in the registry vector.
    fn find_car_index(&self, owner: &Address) -> (r: Option<usize>)
        ensures
            match r {
                Some(i) => i < self.cars@.len() && self.cars@[i as int].owner == *owner,
                None => !self.spec_has_car(*owner),
            },
    {
        let mut i: usize = 0;
        while i < self.cars.len()
            invariant
                i <= self.cars@.len(),
                forall|j: int| 0 <= j < i ==> self.cars@[j].owner != *owner,
            decreases self.cars@.len() - i,
        {
            if self.cars[i].owner == *owner {
                return Some(i);
            }
            i += 1;
        }
        None
    }

    /// A listing exists for this owner. Pure read.
    pub fn has_car(&self, owner: &Address) -> (r: bool)
        ensures
            r == self.spec_has_car(*owner),
    {
        match self.find_car_index(owner) {
            Some(i) => {
                proof {
                    assert(self.spec_has_car(*owner));
                }
                true
            },
            None => false,
        }
    }

    /// Which rejection, if any, `get_car_status` answers on this input.
    pub open spec fn car_lookup_check(self, owner: Address) -> Option<Error> {
        if !self.spec_has_car(owner) {
            Some(Error::CarNotFound)
        } else {
            None
        }
    }

    /// The status of this owner's car. Pure read, no authorization; the one
    /// failure is a missing listing.
    pub fn get_car_status(&self, owner: &Address) -> (r: Result<CarStatus, Error>)
        requires
            self.wf(),
        ensures
            match r {
                Result::Ok(st) => self.spec_has_car(*owner) && st == self.spec_car(
                    *owner,
                ).car_status,
                Result::Err(e) => {
                    &&& self.car_lookup_check(*owner) == Some(e)
                    &&& e == Error::CarNotFound
                },
            },
    {
        match self.find_car_index(owner) {
            Some(i) => {
                proof {
                    lemma_car_index_unique(self.cars@, i as int);
                }
                Ok(self.cars[i].car.car_status)
            },
            None => Err(Error::CarNotFound),
        }
    }

    /// This owner's advisory price and withdrawable balance, as a pair. Pure
    /// read, no authorization; the one failure is a missing listing.
    pub fn get_car_info(&self, owner: &Address) -> (r: Result<(i128, i128), Error>)
        requires
            self.wf(),
        ensures
            match r {
                Result::Ok(info) => {
                    &&& self.spec_has_car(*owner)
                    &&& info.0 == self.spec_car(*owner).price_per_day
                    &&& info.1 == self.spec_car(*owner).available_to_withdraw
                },
                Result::Err(e) => {
                    &&& self.car_lookup_check(*owner) == Some(e)
                    &&& e == Error::CarNotFound
                },
            },
    {
        match self.find_car_index(owner) {
            Some(i) => {
                proof {
                    lemma_car_index_unique(self.cars@, i as int);
                }
                Ok((self.cars[i].car.price_per_day, self.cars[i].car.available_to_withdraw))
            },
            None => Err(Error::CarNotFound),
        }
    }

    /// Which rejection, if any, `add_car` answers on this state and input.
    pub open spec fn add_car_check(
        self,
        owner: Address,
        price_per_day: i128,
        commission_amount: i128,
    ) -> Option<Error> {
        if price_per_day <= 0 {
            Some(Error::InvalidAmount)
        } else if commission_amount <= 0 {
            Some(Error::InvalidCommissionAmount)
        } else if self.spec_has_car(owner) {
            Some(Error::CarAlreadyExists)
        } else {
            None
        }
    }

    /// Lists a car for `owner`: status `Available`, nothing to withdraw yet,
    /// the given advisory price and the fixed commission. Admin-only; one
    /// listing per owner.
    #[allow(unused_variables)]
    pub fn add_car(
        &mut self,
        auth: &AuthContext,
        owner: Address,
        price_per_day: i128,
        commission_amount: i128,
    ) -> (r: Result<(), Error>)
        requires
            old(self).wf(),
            old(self).is_initialized(),
            auth.authorizes(old(self).admin_address()),
        ensures
            final(self).wf(),
            match r {
                Result::Ok(()) => {
                    &&& old(self).add_car_check(owner, price_per_day, commission_amount) is None
                    &&& final(self).spec_has_car(owner)
                    &&& final(self).spec_car(owner) == (Car {
                        price_per_day: price_per_day,
                        car_status: CarStatus::Available,
                        available_to_withdraw: 0,
                        commission_amount: commission_amount,
                    })
                    &&& forall|o: Address|
                        o != owner ==> final(self).spec_has_car(o) == old(self).spec_has_car(o)
                    &&& forall|o: Address|
                        o != owner && old(self).spec_has_car(o) ==> final(self).spec_car(o) == old(
                            self,
                        ).spec_car(o)
                    &&& final(self).rentals@ == old(self).rentals@
                    &&& final(self).admin == old(self).admin
                    &&& final(self).token == old(self).token
                    &&& final(self).admin_fee == old(self).admin_fee
                    &&& final(self).contract_balance == old(self).contract_balance
                    &&& final(self).admin_fees_balance == old(self).admin_fees_balance
                    &&& final(self).cars_total() == old(self).cars_total()
                },
                Result::Err(e) => {
                    &&& old(self).add_car_check(owner, price_per_day, commission_amount) == Some(e)
                    &&& *final(self) == *old(self)
                },
            },
            old(self).conserved() ==> final(self).conserved(),
    {
        if price_per_day <= 0 {
            return Err(Error::InvalidAmount);
        }
        if commission_amount <= 0 {
            return Err(Error::InvalidCommissionAmount);
        }
        match self.find_car_index(&owner) {
            Some(i) => {
                proof {
                    assert(self.spec_has_car(owner));
                }
                return Err(Error::CarAlreadyExists);
            },
            None => {},
        }
        let entry = CarEntry {
            owner: owner,
            car: Car {
                price_per_day: price_per_day,
                car_status: CarStatus::Available,
                available_to_withdraw: 0,
                commission_amount: commission_amount,
            },
        };
        proof {
            lemma_cars_push(self.cars@, entry);
            lemma_sum_push(self.cars@, entry);
        }
        self.cars.push(entry);
        Ok(())
    }

    /// Deletes this owner's listing. Admin-only. The deletion is
    /// unconditional: a listing still `Rented`, or one with a
    /// positive withdrawable balance, is deleted all the same, and in the
    /// latter case the liability vanishes while the funds stay in escrow —
    /// after that the system holds strictly more than it owes, and the
    /// conservation equation is lost. The contract states that hazard
    /// exactly rather than hiding it.
    #[allow(unused_variables)]
    pub fn remove_car(&mut self, auth: &AuthContext, owner: Address) -> (r: Result<(), Error>)
        requires
            old(self).wf(),
            old(self).is_initialized(),
            auth.authorizes(old(self).admin_address()),
        ensures
            final(self).wf(),
            match r {
                Result::Ok(()) => {
                    &&& old(self).car_lookup_check(owner) is None
                    &&& !final(self).spec_has_car(owner)
                    &&& forall|o: Address|
                        o != owner ==> final(self).spec_has_car(o) == old(self).spec_has_car(o)
                    &&& forall|o: Address|
                        o != owner && old(self).spec_has_car(o) ==> final(self).spec_car(o) == old(
                            self,
                        ).spec_car(o)
                    &&& final(self).rentals@ == old(self).rentals@
                    &&& final(self).admin == old(self).admin
                    &&& final(self).token == old(self).token
                    &&& final(self).admin_fee == old(self).admin_fee
                    &&& final(self).contract_balance == old(self).contract_balance
                    &&& final(self).admin_fees_balance == old(self).admin_fees_balance
                    &&& final(self).cars_total() == old(self).cars_total() - old(self).spec_car(
                        owner,
                    ).available_to_withdraw
                },
                Result::Err(e) => {
                    &&& old(self).car_lookup_check(owner) == Some(e)
                    &&& *final(self) == *old(self)
                },
            },
            old(self).conserved() && old(self).spec_has_car(owner) && old(self).spec_car(
                owner,
            ).available_to_withdraw == 0 ==> final(self).conserved(),
    {
        let i = match self.find_car_index(&owner) {
            Some(i) => i,
            None => {
                return Err(Error::CarNotFound);
            },
        };
        proof {
            lemma_car_index_unique(self.cars@, i as int);
            lemma_cars_remove(self.cars@, i as int);
            lemma_sum_remove(self.cars@, i as int);
        }
        self.cars.remove(i);
        Ok(())
    }

    /// Where this (renter, owner) pair's record sits in the rental ledger.
    fn find_rental_index(&self, renter: &Address, owner: &Address) -> (r: Option<usize>)
        ensures
            match r {
                Some(i) => i < self.rentals@.len() && self.rentals@[i as int].renter == *renter
                    && self.rentals@[i as int].owner == *owner,
                None => !self.spec_has_rental(*renter, *owner),
            },
    {
        let mut i: usize = 0;
        while i < self.rentals.len()
            invariant
                i <= self.rentals@.len(),
                forall|j: int|
                    0 <= j < i ==> !(self.rentals@[j].renter == *renter && self.rentals@[j].owner
                        == *owner),
            decreases self.rentals@.len() - i,
        {
            if self.rentals[i].renter == *renter && self.rentals[i].owner == *owner {
                return Some(i);
            }
            i += 1;
        }
        None
    }

    /// An active rental exists for this (renter, owner) pair. Pure read.
    pub fn has_rental(&self, renter: &Address, owner: &Address) -> (r: bool)
        ensures
            r == self.spec_has_rental(*renter, *owner),
    {
        match self.find_rental_index(renter, owner) {
            Some(i) => {
                proof {
                    assert(self.spec_has_rental(*renter, *owner));
                }
                true
            },
            None => false,
        }
    }

    /// The active rental recorded for this (renter, owner) pair, if any.
    /// Pure read.
    pub fn read_rental(&self, renter: &Address, owner: &Address) -> (r: Option<Rental>)
        requires
            self.wf(),
        ensures
            match r {
                Some(rent) => self.spec_has_rental(*renter, *owner) && rent == self.spec_rental(
                    *renter,
                    *owner,
                ),
                None => !self.spec_has_rental(*renter, *owner),
            },
    {
        match self.find_rental_index(renter, owner) {
            Some(i) => {
                proof {
                    lemma_rental_index_unique(self.rentals@, i as int);
                }
                Some(self.rentals[i].rental)
            },
            None => None,
        }
    }

    /// Which rejection, if any, `rental` answers on this state and input.
    /// All four checked additions answer the same `Overflow`, so their order
    /// does not matter.
    pub open spec fn rental_check(
        self,
        renter: Address,
        owner: Address,
        total_days_to_rent: u32,
        amount: i128,
    ) -> Option<Error> {
        if amount <= 0 {
            Some(Error::InvalidAmount)
        } else if total_days_to_rent == 0 {
            Some(Error::RentalDurationZero)
        } else if renter == owner {
            Some(Error::SelfRentalNotAllowed)
        } else if !self.spec_has_car(owner) {
            Some(Error::CarNotFound)
        } else if self.spec_car(owner).car_status != CarStatus::Available {
            Some(Error::CarAlreadyRented)
        } else if amount + self.spec_car(owner).commission_amount > i128::MAX || self.spec_car(
            owner,
        ).available_to_withdraw + amount > i128::MAX || self.contract_balance + amount
            + self.spec_car(owner).commission_amount > i128::MAX || self.admin_fees_balance
            + self.spec_car(owner).commission_amount > i128::MAX {
            Some(Error::Overflow)
        } else {
            None
        }
    }

    /// Rents the owner's car to `renter`. The renter deposits the principal
    /// plus the car's fixed commission: the principal is credited to the
    /// owner's withdrawable balance, the commission to the admin-fees pool,
    /// and both land in escrow, so the returned transfer debits the renter
    /// for the sum. The car goes `Rented` and the (renter, owner) rental
    /// record is created (or overwritten). Requires the renter's
    /// authorization.
    #[allow(unused_variables)]
    pub fn rental(
        &mut self,
        auth: &AuthContext,
        renter: Address,
        owner: Address,
        total_days_to_rent: u32,
        amount: i128,
    ) -> (r: Result<TokenTransfer, Error>)
        requires
            old(self).wf(),
            auth.authorizes(renter),
        ensures
            final(self).wf(),
            match r {
                Result::Ok(t) => {
                    &&& old(self).rental_check(renter, owner, total_days_to_rent, amount) is None
                    &&& t == (TokenTransfer::ToContract {
                        from: renter,
                        amount: (amount + old(self).spec_car(owner).commission_amount) as i128,
                    })
                    &&& final(self).spec_has_car(owner)
                    &&& final(self).spec_car(owner) == (Car {
                        car_status: CarStatus::Rented,
                        available_to_withdraw: (old(self).spec_car(owner).available_to_withdraw
                            + amount) as i128,
                        ..old(self).spec_car(owner)
                    })
                    &&& forall|o: Address|
                        o != owner ==> final(self).spec_has_car(o) == old(self).spec_has_car(o)
                    &&& forall|o: Address|
                        o != owner && old(self).spec_has_car(o) ==> final(self).spec_car(o) == old(
                            self,
                        ).spec_car(o)
                    &&& final(self).spec_has_rental(renter, owner)
                    &&& final(self).spec_rental(renter, owner) == (Rental {
                        total_days_to_rent: total_days_to_rent,
                        amount: amount,
                    })
                    &&& forall|r2: Address, o2: Address|
                        !(r2 == renter && o2 == owner) ==> final(self).spec_has_rental(r2, o2)
                            == old(self).spec_has_rental(r2, o2)
                    &&& forall|r2: Address, o2: Address|
                        !(r2 == renter && o2 == owner) && old(self).spec_has_rental(r2, o2)
                            ==> final(self).spec_rental(r2, o2) == old(self).spec_rental(r2, o2)
                    &&& final(self).contract_balance == old(self).contract_balance + amount + old(
                        self,
                    ).spec_car(owner).commission_amount
                    &&& final(self).admin_fees_balance == old(self).admin_fees_balance + old(
                        self,
                    ).spec_car(owner).commission_amount
                    &&& final(self).cars_total() == old(self).cars_total() + amount
                    &&& final(self).admin == old(self).admin
                    &&& final(self).token == old(self).token
                    &&& final(self).admin_fee == old(self).admin_fee
                },
                Result::Err(e) => {
                    &&& old(self).rental_check(renter, owner, total_days_to_rent, amount) == Some(
                        e,
                    )
                    &&& *final(self) == *old(self)
                },
            },
            old(self).conserved() ==> final(self).conserved(),
    {
        if amount <= 0 {
            return Err(Error::InvalidAmount);
        }
        if total_days_to_rent == 0 {
            return Err(Error::RentalDurationZero);
        }
        if renter == owner {
            return Err(Error::SelfRentalNotAllowed);
        }
        let i = match self.find_car_index(&owner) {
            Some(i) => i,
            None => {
                return Err(Error::CarNotFound);
            },
        };
        proof {
            lemma_car_index_unique(self.cars@, i as int);
        }
        let car = self.cars[i].car;
        if car.car_status != CarStatus::Available {
            return Err(Error::CarAlreadyRented);
        }
        let fee = car.commission_amount;
        let total = match amount.checked_add(fee) {
            Some(t) => t,
            None => {
                return Err(Error::Overflow);
            },
        };
        let new_avail = match car.available_to_withdraw.checked_add(amount) {
            Some(v) => v,
            None => {
                return Err(Error::Overflow);
            },
        };
        let new_cb = match self.contract_balance.checked_add(total) {
            Some(v) => v,
            None => {
                return Err(Error::Overflow);
            },
        };
        let new_afb = match self.admin_fees_balance.checked_add(fee) {
            Some(v) => v,
            None => {
                return Err(Error::Overflow);
            },
        };
        let new_entry = CarEntry {
            owner: owner,
            car: Car {
                price_per_day: car.price_per_day,
                car_status: CarStatus::Rented,
                available_to_withdraw: new_avail,
                commission_amount: fee,
            },
        };
        proof {
            lemma_cars_update(self.cars@, i as int, new_entry);
            lemma_sum_update(self.cars@, i as int, new_entry);
        }
        self.cars[i] = new_entry;
        let rentry = RentalEntry {
            renter: renter,
            owner: owner,
            rental: Rental { total_days_to_rent: total_days_to_rent, amount: amount },
        };
        match self.find_rental_index(&renter, &owner) {
            Some(j) => {
                proof {
                    lemma_rental_index_unique(self.rentals@, j as int);
                    lemma_rentals_update(self.rentals@, j as int, rentry);
                }
                self.rentals[j] = rentry;
            },
            None => {
                proof {
                    lemma_rentals_push(self.rentals@, rentry);
                }
                self.rentals.push(rentry);
            },
        }
        self.contract_balance = new_cb;
        self.admin_fees_balance = new_afb;
        Ok(TokenTransfer::ToContract { from: renter, amount: total })
    }

    /// Which rejection, if any, `return_car` answers on this state and input.
    pub open spec fn return_car_check(self, renter: Address, owner: Address) -> Option<Error> {
        if !self.spec_has_car(owner) {
            Some(Error::CarNotFound)
        } else if self.spec_car(owner).car_status != CarStatus::Rented {
            Some(Error::CarNotRented)
        } else if !self.spec_has_rental(renter, owner) {
            Some(Error::RentalNotFound)
        } else {
            None
        }
    }

    /// Ends the (renter, owner) rental: the car goes back to `Available` and
    /// the rental record is cleared. No balance moves — the principal was
    /// credited to the owner at rental time. The renter, as the party that
    /// placed the deposit, is the principal whose authorization is required.
    #[allow(unused_variables)]
    pub fn return_car(&mut self, auth: &AuthContext, renter: Address, owner: Address) -> (r:
        Result<(), Error>)
        requires
            old(self).wf(),
            auth.authorizes(renter),
        ensures
            final(self).wf(),
            match r {
                Result::Ok(()) => {
                    &&& old(self).return_car_check(renter, owner) is None
                    &&& final(self).spec_has_car(owner)
                    &&& final(self).spec_car(owner) == (Car {
                        car_status: CarStatus::Available,
                        ..old(self).spec_car(owner)
                    })
                    &&& forall|o: Address|
                        o != owner ==> final(self).spec_has_car(o) == old(self).spec_has_car(o)
                    &&& forall|o: Address|
                        o != owner && old(self).spec_has_car(o) ==> final(self).spec_car(o) == old(
                            self,
                        ).spec_car(o)
                    &&& !final(self).spec_has_rental(renter, owner)
                    &&& forall|r2: Address, o2: Address|
                        !(r2 == renter && o2 == owner) ==> final(self).spec_has_rental(r2, o2)
                            == old(self).spec_has_rental(r2, o2)
                    &&& forall|r2: Address, o2: Address|
                        !(r2 == renter && o2 == owner) && old(self).spec_has_rental(r2, o2)
                            ==> final(self).spec_rental(r2, o2) == old(self).spec_rental(r2, o2)
                    &&& final(self).contract_balance == old(self).contract_balance
                    &&& final(self).admin_fees_balance == old(self).admin_fees_balance
                    &&& final(self).cars_total() == old(self).cars_total()
                    &&& final(self).admin == old(self).admin
                    &&& final(self).token == old(self).token
                    &&& final(self).admin_fee == old(self).admin_fee
                },
                Result::Err(e) => {
                    &&& old(self).return_car_check(renter, owner) == Some(e)
                    &&& *final(self) == *old(self)
                },
            },
            old(self).conserved() ==> final(self).conserved(),
    {
        let i = match self.find_car_index(&owner) {
            Some(i) => i,
            None => {
                return Err(Error::CarNotFound);
            },
        };
        proof {
            lemma_car_index_unique(self.cars@, i as int);
        }
        let car = self.cars[i].car;
        if car.car_status != CarStatus::Rented {
            return Err(Error::CarNotRented);
        }
        let j = match self.find_rental_index(&renter, &owner) {
            Some(j) => j,
            None => {
                return Err(Error::RentalNotFound);
            },
        };
        let new_entry = CarEntry {
            owner: owner,
            car: Car {
                price_per_day: car.price_per_day,
                car_status: CarStatus::Available,
                available_to_withdraw: car.available_to_withdraw,
                commission_amount: car.commission_amount,
            },
        };
        proof {
            lemma_cars_update(self.cars@, i as int, new_entry);
            lemma_sum_update(self.cars@, i as int, new_entry);
        }
        self.cars[i] = new_entry;
        proof {
            lemma_rental_index_unique(self.rentals@, j as int);
            lemma_rentals_remove(self.rentals@, j as int);
        }
        self.rentals.remove(j);
        Ok(())
    }

    /// Which rejection, if any, `payout_owner` answers on this state and
    /// input. Well-formed states rule the checked subtractions' `Underflow`
    /// out: the balance paid from is never negative and never exceeds what
    /// the system holds.
    pub open spec fn payout_owner_check(self, owner: Address, amount: i128) -> Option<Error> {
        if amount <= 0 {
            Some(Error::InvalidAmount)
        } else if !self.spec_has_car(owner) {
            Some(Error::CarNotFound)
        } else if self.spec_car(owner).car_status != CarStatus::Available {
            Some(Error::CarNotReturned)
        } else if amount > self.spec_car(owner).available_to_withdraw {
            Some(Error::InsufficientBalance)
        } else {
            None
        }
    }

    /// Pays `amount` of the owner's withdrawable balance out of escrow: the
    /// owner's balance and the escrow total both drop by `amount`, and the
    /// returned transfer credits the owner. Requires the owner's
    /// authorization, and that the car is back (`Available`).
    #[allow(unused_variables)]
    pub fn payout_owner(&mut self, auth: &AuthContext, owner: Address, amount: i128) -> (r: Result<
        TokenTransfer,
        Error,
    >)
        requires
            old(self).wf(),
            auth.authorizes(owner),
        ensures
            final(self).wf(),
            match r {
                Result::Ok(t) => {
                    &&& old(self).payout_owner_check(owner, amount) is None
                    &&& t == (TokenTransfer::FromContract { to: owner, amount: amount })
                    &&& final(self).spec_has_car(owner)
                    &&& final(self).spec_car(owner) == (Car {
                        available_to_withdraw: (old(self).spec_car(owner).available_to_withdraw
                            - amount) as i128,
                        ..old(self).spec_car(owner)
                    })
                    &&& forall|o: Address|
                        o != owner ==> final(self).spec_has_car(o) == old(self).spec_has_car(o)
                    &&& forall|o: Address|
                        o != owner && old(self).spec_has_car(o) ==> final(self).spec_car(o) == old(
                            self,
                        ).spec_car(o)
                    &&& final(self).rentals@ == old(self).rentals@
                    &&& final(self).contract_balance == old(self).contract_balance - amount
                    &&& final(self).admin_fees_balance == old(self).admin_fees_balance
                    &&& final(self).cars_total() == old(self).cars_total() - amount
                    &&& final(self).admin == old(self).admin
                    &&& final(self).token == old(self).token
                    &&& final(self).admin_fee == old(self).admin_fee
                },
                Result::Err(e) => {
                    &&& old(self).payout_owner_check(owner, amount) == Some(e)
                    &&& *final(self) == *old(self)
                },
            },
            old(self).conserved() ==> final(self).conserved(),
    {
        if amount <= 0 {
            return Err(Error::InvalidAmount);
        }
        let i = match self.find_car_index(&owner) {
            Some(i) => i,
            None => {
                return Err(Error::CarNotFound);
            },
        };
        proof {
            lemma_car_index_unique(self.cars@, i as int);
        }
        let car = self.cars[i].car;
        if car.car_status != CarStatus::Available {
            return Err(Error::CarNotReturned);
        }
        if amount > car.available_to_withdraw {
            return Err(Error::InsufficientBalance);
        }
        proof {
            lemma_sum_entry_bound(self.cars@, i as int);
        }
        let new_avail = match car.available_to_withdraw.checked_sub(amount) {
            Some(v) => v,
            None => {
                return Err(Error::Underflow);
            },
        };
        let new_cb = match self.contract_balance.checked_sub(amount) {
            Some(v) => v,
            None => {
                return Err(Error::Underflow);
            },
        };
        let new_entry = CarEntry {
            owner: owner,
            car: Car {
                price_per_day: car.price_per_day,
                car_status: CarStatus::Available,
                available_to_withdraw: new_avail,
                commission_amount: car.commission_amount,
            },
        };
        proof {
            lemma_cars_update(self.cars@, i as int, new_entry);
            lemma_sum_update(self.cars@, i as int, new_entry);
        }
        self.cars[i] = new_entry;
        self.contract_balance = new_cb;
        Ok(TokenTransfer::FromContract { to: owner, amount: amount })
    }

    /// Which rejection, if any, `withdraw_admin_fees` answers on this state
    /// and input. As in `payout_owner`, well-formed states rule `Underflow`
    /// out.
    pub open spec fn withdraw_admin_fees_check(self, amount: i128) -> Option<Error> {
        if amount <= 0 {
            Some(Error::InvalidAmount)
        } else if amount > self.admin_fees_balance {
            Some(Error::InsufficientBalance)
        } else {
            None
        }
    }

    /// Pays `amount` of the collected commissions out of escrow to the
    /// admin: the admin-fees pool and the escrow total both drop by
    /// `amount`, and the returned transfer credits the admin. Admin-only.
    #[allow(unused_variables)]
    pub fn withdraw_admin_fees(&mut self, auth: &AuthContext, amount: i128) -> (r: Result<
        TokenTransfer,
        Error,
    >)
        requires
            old(self).wf(),
            old(self).is_initialized(),
            auth.authorizes(old(self).admin_address()),
        ensures
            final(self).wf(),
            match r {
                Result::Ok(t) => {
                    &&& old(self).withdraw_admin_fees_check(amount) is None
                    &&& t == (TokenTransfer::FromContract {
                        to: old(self).admin_address(),
                        amount: amount,
                    })
                    &&& final(self).contract_balance == old(self).contract_balance - amount
                    &&& final(self).admin_fees_balance == old(self).admin_fees_balance - amount
                    &&& final(self).cars@ == old(self).cars@
                    &&& final(self).rentals@ == old(self).rentals@
                    &&& final(self).admin == old(self).admin
                    &&& final(self).token == old(self).token
                    &&& final(self).admin_fee == old(self).admin_fee
                },
                Result::Err(e) => {
                    &&& old(self).withdraw_admin_fees_check(amount) == Some(e)
                    &&& *final(self) == *old(self)
                },
            },
            old(self).conserved() ==> final(self).conserved(),
    {
        if amount <= 0 {
            return Err(Error::InvalidAmount);
        }
        if amount > self.admin_fees_balance {
            return Err(Error::InsufficientBalance);
        }
        proof {
            lemma_sum_nonneg(self.cars@);
        }
        let new_afb = match self.admin_fees_balance.checked_sub(amount) {
            Some(v) => v,
            None => {
                return Err(Error::Underflow);
            },
        };
        let new_cb = match self.contract_balance.checked_sub(amount) {
            Some(v) => v,
            None => {
                return Err(Error::Underflow);
            },
        };
        self.admin_fees_balance = new_afb;
        self.contract_balance = new_cb;
        Ok(TokenTransfer::FromContract { to: self.get_admin(), amount: amount })
    }
}

/// An active rental exists for this (renter, owner) pair. Pure read, no
/// authorization.
pub fn check_has_rental(state: &RentACarContract, renter: &Address, owner: &Address) -> (r: bool)
    ensures
        r == state.spec_has_rental(*renter, *owner),
{
    state.has_rental(renter, owner)
}

} // verus!
