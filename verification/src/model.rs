//! Mathematical model of the two registries: car listings keyed by owner and
//! active rentals keyed by (renter, owner). Both are held as vectors of
//! entries with distinct keys; the spec functions here read them as keyed
//! finite maps, and the lemmas relate a vector edit (push, in-place update,
//! removal) to the map it denotes and to the total of the per-owner balances.

use vstd::prelude::*;

use crate::types::Address;
use crate::types::Car;
use crate::types::Rental;

verus! {

/// One car listing together with the owner that keys it.
#[derive(Clone, Copy, Debug, PartialEq, Eq, Structural)]
pub struct CarEntry {
    pub owner: Address,
    pub car: Car,
}

/// One active rental together with the (renter, owner) pair that keys it.
#[derive(Clone, Copy, Debug, PartialEq, Eq, Structural)]
pub struct RentalEntry {
    pub renter: Address,
    pub owner: Address,
    pub rental: Rental,
}

/// No two entries list the same owner.
pub open spec fn unique_owners(s: Seq<CarEntry>) -> bool {
    forall|i: int, j: int| 0 <= i < j < s.len() ==> s[i].owner != s[j].owner
}

/// Some entry lists this owner.
pub open spec fn has_car_seq(s: Seq<CarEntry>, owner: Address) -> bool {
    exists|i: int| 0 <= i < s.len() && s[i].owner == owner
}

/// The index of the entry that lists this owner (unique when `unique_owners`
/// holds and `has_car_seq` is true).
pub open spec fn car_index(s: Seq<CarEntry>, owner: Address) -> int {
    choose|i: int| 0 <= i < s.len() && s[i].owner == owner
}

/// The car listed for this owner.
pub open spec fn car_at(s: Seq<CarEntry>, owner: Address) -> Car {
    s[car_index(s, owner)].car
}

/// The total of the per-owner withdrawable balances across all listings.
pub open spec fn sum_available(s: Seq<CarEntry>) -> int
    decreases s.len(),
{
    if s.len() == 0 {
        0
    } else {
        s[0].car.available_to_withdraw + sum_available(s.subrange(1, s.len() as int))
    }
}

/// No two entries carry the same (renter, owner) pair.
pub open spec fn unique_rentals(s: Seq<RentalEntry>) -> bool {
    forall|i: int, j: int|
        0 <= i < j < s.len() ==> !(s[i].renter == s[j].renter && s[i].owner == s[j].owner)
}

/// Some entry carries this (renter, owner) pair.
pub open spec fn has_rental_seq(s: Seq<RentalEntry>, renter: Address, owner: Address) -> bool {
    exists|i: int| 0 <= i < s.len() && s[i].renter == renter && s[i].owner == owner
}

/// The index of the entry for this (renter, owner) pair.
pub open spec fn rental_index(s: Seq<RentalEntry>, renter: Address, owner: Address) -> int {
    choose|i: int| 0 <= i < s.len() && s[i].renter == renter && s[i].owner == owner
}

/// The rental recorded for this (renter, owner) pair.
pub open spec fn rental_at(s: Seq<RentalEntry>, renter: Address, owner: Address) -> Rental {
    s[rental_index(s, renter, owner)].rental
}

/// With distinct owners, the chosen index for the owner of the entry at `i`
/// is `i` itself, so that entry is what the map view reads.
pub proof fn lemma_car_index_unique(s: Seq<CarEntry>, i: int)
    requires
        unique_owners(s),
        0 <= i < s.len(),
    ensures
        has_car_seq(s, s[i].owner),
        car_index(s, s[i].owner) == i,
        car_at(s, s[i].owner) == s[i].car,
{
    assert(has_car_seq(s, s[i].owner));
    let j = car_index(s, s[i].owner);
    assert(0 <= j < s.len() && s[j].owner == s[i].owner);
    assert(j == i);
}

/// With distinct pairs, the chosen index for the pair of the entry at `i`
/// is `i` itself, so that entry is what the map view reads.
pub proof fn lemma_rental_index_unique(s: Seq<RentalEntry>, i: int)
    requires
        unique_rentals(s),
        0 <= i < s.len(),
    ensures
        has_rental_seq(s, s[i].renter, s[i].owner),
        rental_index(s, s[i].renter, s[i].owner) == i,
        rental_at(s, s[i].renter, s[i].owner) == s[i].rental,
{
    assert(has_rental_seq(s, s[i].renter, s[i].owner));
    let j = rental_index(s, s[i].renter, s[i].owner);
    assert(0 <= j < s.len() && s[j].renter == s[i].renter && s[j].owner == s[i].owner);
    assert(j == i);
}

pub proof fn lemma_sum_push(s: Seq<CarEntry>, e: CarEntry)
    ensures
        sum_available(s.push(e)) == sum_available(s) + e.car.available_to_withdraw,
    decreases s.len(),
{
    if s.len() == 0 {
        assert(s.push(e)[0] == e);
        assert(s.push(e).subrange(1, 1) =~= Seq::<CarEntry>::empty());
        assert(sum_available(s.push(e).subrange(1, 1)) == 0);
    } else {
        lemma_sum_push(s.subrange(1, s.len() as int), e);
        assert(s.push(e)[0] == s[0]);
        assert(s.push(e).subrange(1, s.len() as int + 1) =~= s.subrange(1, s.len() as int).push(
            e,
        ));
    }
}

pub proof fn lemma_sum_update(s: Seq<CarEntry>, i: int, e: CarEntry)
    requires
        0 <= i < s.len(),
    ensures
        sum_available(s.update(i, e)) == sum_available(s) - s[i].car.available_to_withdraw
            + e.car.available_to_withdraw,
    decreases s.len(),
{
    if i == 0 {
        assert(s.update(0, e).subrange(1, s.len() as int) =~= s.subrange(1, s.len() as int));
    } else {
        lemma_sum_update(s.subrange(1, s.len() as int), i - 1, e);
        assert(s.update(i, e).subrange(1, s.len() as int) =~= s.subrange(
            1,
            s.len() as int,
        ).update(i - 1, e));
    }
}

pub proof fn lemma_sum_remove(s: Seq<CarEntry>, i: int)
    requires
        0 <= i < s.len(),
    ensures
        sum_available(s.remove(i)) == sum_available(s) - s[i].car.available_to_withdraw,
    decreases s.len(),
{
    if i == 0 {
        assert(s.remove(0) =~= s.subrange(1, s.len() as int));
    } else {
        lemma_sum_remove(s.subrange(1, s.len() as int), i - 1);
        assert(s.remove(i).subrange(1, s.len() - 1) =~= s.subrange(1, s.len() as int).remove(
            i - 1,
        ));
        assert(s.remove(i)[0] == s[0]);
    }
}

pub proof fn lemma_sum_nonneg(s: Seq<CarEntry>)
    requires
        forall|i: int| 0 <= i < s.len() ==> s[i].car.available_to_withdraw >= 0,
    ensures
        sum_available(s) >= 0,
    decreases s.len(),
{
    if s.len() > 0 {
        lemma_sum_nonneg(s.subrange(1, s.len() as int));
    }
}

/// With every balance nonnegative, one entry's balance never exceeds the total.
pub proof fn lemma_sum_entry_bound(s: Seq<CarEntry>, i: int)
    requires
        0 <= i < s.len(),
        forall|j: int| 0 <= j < s.len() ==> s[j].car.available_to_withdraw >= 0,
    ensures
        s[i].car.available_to_withdraw <= sum_available(s),
    decreases s.len(),
{
    if i == 0 {
        lemma_sum_nonneg(s.subrange(1, s.len() as int));
    } else {
        lemma_sum_entry_bound(s.subrange(1, s.len() as int), i - 1);
    }
}

/// Updating the entry at `i` without changing its owner keeps the keys
/// distinct, rebinds that owner to the new car, and leaves every other
/// owner's listing as it was.
pub proof fn lemma_cars_update(s: Seq<CarEntry>, i: int, e: CarEntry)
    requires
        unique_owners(s),
        0 <= i < s.len(),
        e.owner == s[i].owner,
    ensures
        unique_owners(s.update(i, e)),
        has_car_seq(s.update(i, e), e.owner),
        car_at(s.update(i, e), e.owner) == e.car,
        forall|o: Address| o != e.owner ==> has_car_seq(s.update(i, e), o) == has_car_seq(s, o),
        forall|o: Address|
            o != e.owner && has_car_seq(s, o) ==> car_at(s.update(i, e), o) == car_at(s, o),
{
    let t = s.update(i, e);
    assert(t[i].owner == e.owner);
    assert forall|o: Address| o != e.owner && has_car_seq(s, o) implies has_car_seq(t, o)
        && car_at(t, o) == car_at(s, o) by {
        let j = car_index(s, o);
        assert(0 <= j < s.len() && s[j].owner == o);
        assert(j != i);
        assert(t[j].owner == o);
        assert(has_car_seq(t, o));
        let k = car_index(t, o);
        assert(0 <= k < t.len() && t[k].owner == o);
        assert(k != i);
        assert(s[k].owner == o);
        assert(k == j);
    };
    assert forall|o: Address| o != e.owner && has_car_seq(t, o) implies has_car_seq(s, o) by {
        let j = car_index(t, o);
        assert(j != i);
        assert(s[j].owner == o);
    };
    let k = car_index(t, e.owner);
    assert(0 <= k < t.len() && t[k].owner == e.owner);
    assert(k == i);
}

/// Appending a listing for a new owner keeps the keys distinct, binds that
/// owner to the new car, and leaves every other owner's listing as it was.
pub proof fn lemma_cars_push(s: Seq<CarEntry>, e: CarEntry)
    requires
        unique_owners(s),
        !has_car_seq(s, e.owner),
    ensures
        unique_owners(s.push(e)),
        has_car_seq(s.push(e), e.owner),
        car_at(s.push(e), e.owner) == e.car,
        forall|o: Address| o != e.owner ==> has_car_seq(s.push(e), o) == has_car_seq(s, o),
        forall|o: Address|
            o != e.owner && has_car_seq(s, o) ==> car_at(s.push(e), o) == car_at(s, o),
{
    let t = s.push(e);
    assert(t[s.len() as int].owner == e.owner);
    assert forall|i: int, j: int| 0 <= i < j < t.len() implies t[i].owner != t[j].owner by {
        if j < s.len() {
        } else {
            assert(t[j] == e);
            assert(t[i] == s[i]);
            assert(s[i].owner != e.owner);
        }
    };
    assert(has_car_seq(t, e.owner));
    let k = car_index(t, e.owner);
    assert(0 <= k < t.len() && t[k].owner == e.owner);
    if k < s.len() {
        assert(s[k].owner == e.owner);
        assert(false);
    }
    assert(car_at(t, e.owner) == e.car);
    assert forall|o: Address| o != e.owner && has_car_seq(s, o) implies has_car_seq(t, o)
        && car_at(t, o) == car_at(s, o) by {
        let j = car_index(s, o);
        assert(t[j].owner == o);
        assert(has_car_seq(t, o));
        let m = car_index(t, o);
        assert(0 <= m < t.len() && t[m].owner == o);
        assert(m != s.len() as int);
        assert(s[m].owner == o);
        assert(m == j);
    };
    assert forall|o: Address| o != e.owner && has_car_seq(t, o) implies has_car_seq(s, o) by {
        let j = car_index(t, o);
        assert(j != s.len() as int);
        assert(s[j].owner == o);
    };
}

/// Removing the entry at `i` keeps the keys distinct, drops that owner's
/// listing, and leaves every other owner's listing as it was.
pub proof fn lemma_cars_remove(s: Seq<CarEntry>, i: int)
    requires
        unique_owners(s),
        0 <= i < s.len(),
    ensures
        unique_owners(s.remove(i)),
        !has_car_seq(s.remove(i), s[i].owner),
        forall|o: Address| o != s[i].owner ==> has_car_seq(s.remove(i), o) == has_car_seq(s, o),
        forall|o: Address|
            o != s[i].owner && has_car_seq(s, o) ==> car_at(s.remove(i), o) == car_at(s, o),
{
    let t = s.remove(i);
    assert forall|p: int, q: int| 0 <= p < q < t.len() implies t[p].owner != t[q].owner by {
        let p0 = if p < i { p } else { p + 1 };
        let q0 = if q < i { q } else { q + 1 };
        assert(t[p] == s[p0] && t[q] == s[q0]);
    };
    assert forall|j: int| 0 <= j < t.len() implies t[j].owner != s[i].owner by {
        let j0 = if j < i { j } else { j + 1 };
        assert(t[j] == s[j0]);
        assert(j0 != i);
    };
    assert forall|o: Address| o != s[i].owner && has_car_seq(s, o) implies has_car_seq(t, o)
        && car_at(t, o) == car_at(s, o) by {
        let j = car_index(s, o);
        assert(j != i);
        let j1 = if j < i { j } else { j - 1 };
        assert(t[j1] == s[j]);
        assert(has_car_seq(t, o));
        let m = car_index(t, o);
        assert(t[m].owner == o);
        let m0 = if m < i { m } else { m + 1 };
        assert(t[m] == s[m0]);
        assert(s[m0].owner == o);
        assert(m0 == j);
    };
    assert forall|o: Address| o != s[i].owner && has_car_seq(t, o) implies has_car_seq(s, o) by {
        let j = car_index(t, o);
        let j0 = if j < i { j } else { j + 1 };
        assert(t[j] == s[j0]);
        assert(s[j0].owner == o);
    };
}

/// Updating the entry at `i` without changing its key pair keeps the pairs
/// distinct, rebinds that pair to the new rental, and leaves every other
/// pair's record as it was.
pub proof fn lemma_rentals_update(s: Seq<RentalEntry>, i: int, e: RentalEntry)
    requires
        unique_rentals(s),
        0 <= i < s.len(),
        e.renter == s[i].renter,
        e.owner == s[i].owner,
    ensures
        unique_rentals(s.update(i, e)),
        has_rental_seq(s.update(i, e), e.renter, e.owner),
        rental_at(s.update(i, e), e.renter, e.owner) == e.rental,
        forall|r: Address, o: Address|
            !(r == e.renter && o == e.owner) ==> has_rental_seq(s.update(i, e), r, o)
                == has_rental_seq(s, r, o),
        forall|r: Address, o: Address|
            !(r == e.renter && o == e.owner) && has_rental_seq(s, r, o) ==> rental_at(
                s.update(i, e),
                r,
                o,
            ) == rental_at(s, r, o),
{
    let t = s.update(i, e);
    assert(t[i].renter == e.renter && t[i].owner == e.owner);
    assert forall|r: Address, o: Address|
        !(r == e.renter && o == e.owner) && has_rental_seq(s, r, o) implies has_rental_seq(t, r, o)
        && rental_at(t, r, o) == rental_at(s, r, o) by {
        let j = rental_index(s, r, o);
        assert(j != i);
        assert(t[j].renter == r && t[j].owner == o);
        assert(has_rental_seq(t, r, o));
        let k = rental_index(t, r, o);
        assert(k != i);
        assert(s[k].renter == r && s[k].owner == o);
        assert(k == j);
    };
    assert forall|r: Address, o: Address|
        !(r == e.renter && o == e.owner) && has_rental_seq(t, r, o) implies has_rental_seq(
        s,
        r,
        o,
    ) by {
        let j = rental_index(t, r, o);
        assert(j != i);
        assert(s[j].renter == r && s[j].owner == o);
    };
    let k = rental_index(t, e.renter, e.owner);
    assert(0 <= k < t.len() && t[k].renter == e.renter && t[k].owner == e.owner);
    assert(k == i);
}

/// Appending a record for a fresh pair keeps the pairs distinct, binds that
/// pair to the new rental, and leaves every other pair's record as it was.
pub proof fn lemma_rentals_push(s: Seq<RentalEntry>, e: RentalEntry)
    requires
        unique_rentals(s),
        !has_rental_seq(s, e.renter, e.owner),
    ensures
        unique_rentals(s.push(e)),
        has_rental_seq(s.push(e), e.renter, e.owner),
        rental_at(s.push(e), e.renter, e.owner) == e.rental,
        forall|r: Address, o: Address|
            !(r == e.renter && o == e.owner) ==> has_rental_seq(s.push(e), r, o)
                == has_rental_seq(s, r, o),
        forall|r: Address, o: Address|
            !(r == e.renter && o == e.owner) && has_rental_seq(s, r, o) ==> rental_at(
                s.push(e),
                r,
                o,
            ) == rental_at(s, r, o),
{
    let t = s.push(e);
    let n = s.len() as int;
    assert(t[n].renter == e.renter && t[n].owner == e.owner);
    assert forall|i: int, j: int| 0 <= i < j < t.len() implies !(t[i].renter == t[j].renter
        && t[i].owner == t[j].owner) by {
        if j < n {
        } else {
            assert(t[j] == e);
            assert(t[i] == s[i]);
            assert(!(s[i].renter == e.renter && s[i].owner == e.owner));
        }
    };
    assert(has_rental_seq(t, e.renter, e.owner));
    let k = rental_index(t, e.renter, e.owner);
    assert(0 <= k < t.len() && t[k].renter == e.renter && t[k].owner == e.owner);
    if k < n {
        assert(s[k].renter == e.renter && s[k].owner == e.owner);
        assert(false);
    }
    assert(rental_at(t, e.renter, e.owner) == e.rental);
    assert forall|r: Address, o: Address|
        !(r == e.renter && o == e.owner) && has_rental_seq(s, r, o) implies has_rental_seq(t, r, o)
        && rental_at(t, r, o) == rental_at(s, r, o) by {
        let j = rental_index(s, r, o);
        assert(t[j].renter == r && t[j].owner == o);
        assert(has_rental_seq(t, r, o));
        let m = rental_index(t, r, o);
        assert(m != n);
        assert(s[m].renter == r && s[m].owner == o);
        assert(m == j);
    };
    assert forall|r: Address, o: Address|
        !(r == e.renter && o == e.owner) && has_rental_seq(t, r, o) implies has_rental_seq(
        s,
        r,
        o,
    ) by {
        let j = rental_index(t, r, o);
        assert(j != n);
        assert(s[j].renter == r && s[j].owner == o);
    };
}

/// Removing the entry at `i` keeps the pairs distinct, drops that pair's
/// record, and leaves every other pair's record as it was.
pub proof fn lemma_rentals_remove(s: Seq<RentalEntry>, i: int)
    requires
        unique_rentals(s),
        0 <= i < s.len(),
    ensures
        unique_rentals(s.remove(i)),
        !has_rental_seq(s.remove(i), s[i].renter, s[i].owner),
        forall|r: Address, o: Address|
            !(r == s[i].renter && o == s[i].owner) ==> has_rental_seq(s.remove(i), r, o)
                == has_rental_seq(s, r, o),
        forall|r: Address, o: Address|
            !(r == s[i].renter && o == s[i].owner) && has_rental_seq(s, r, o) ==> rental_at(
                s.remove(i),
                r,
                o,
            ) == rental_at(s, r, o),
{
    let t = s.remove(i);
    assert forall|p: int, q: int| 0 <= p < q < t.len() implies !(t[p].renter == t[q].renter
        && t[p].owner == t[q].owner) by {
        let p0 = if p < i { p } else { p + 1 };
        let q0 = if q < i { q } else { q + 1 };
        assert(t[p] == s[p0] && t[q] == s[q0]);
    };
    assert forall|j: int| 0 <= j < t.len() implies !(t[j].renter == s[i].renter && t[j].owner
        == s[i].owner) by {
        let j0 = if j < i { j } else { j + 1 };
        assert(t[j] == s[j0]);
        assert(j0 != i);
    };
    assert forall|r: Address, o: Address|
        !(r == s[i].renter && o == s[i].owner) && has_rental_seq(s, r, o) implies has_rental_seq(
        t,
        r,
        o,
    ) && rental_at(t, r, o) == rental_at(s, r, o) by {
        let j = rental_index(s, r, o);
        assert(j != i);
        let j1 = if j < i { j } else { j - 1 };
        assert(t[j1] == s[j]);
        assert(has_rental_seq(t, r, o));
        let m = rental_index(t, r, o);
        assert(0 <= m < t.len() && t[m].renter == r && t[m].owner == o);
        let m0 = if m < i { m } else { m + 1 };
        assert(t[m] == s[m0]);
        assert(s[m0].renter == r && s[m0].owner == o);
        assert(m0 == j);
    };
    assert forall|r: Address, o: Address|
        !(r == s[i].renter && o == s[i].owner) && has_rental_seq(t, r, o) implies has_rental_seq(
        s,
        r,
        o,
    ) by {
        let j = rental_index(t, r, o);
        let j0 = if j < i { j } else { j + 1 };
        assert(t[j] == s[j0]);
        assert(s[j0].renter == r && s[j0].owner == o);
    };
}

} // verus!
