//! What holds of the reads and the updates: that a deleted row is not seen, and
//! that an update leaves alone what it may not change.

use vstd::prelude::*;
use crate::datetime::NaiveDateTime;
use crate::decimal::Decimal;
use crate::error::{ApiError, StorageError};
use crate::models::customer::{Customer, CustomerView};
use crate::models::drink::{Drink, DrinkView};
use crate::models::employee::{Employee, EmployeeView};
use crate::operations::customers::customer_update;
use crate::operations::drinks::drink_update;
use crate::operations::{active, first_visible, is_first_visible, visible_as};
use crate::operations::{listing, lookup, Record};
use crate::text::is_blank;

verus! {

/// The position that is first visible is the one that `first_visible` names.
pub proof fn lemma_first_visible_is<R: Record>(rows: Seq<R::V>, id: Seq<char>, i: int)
    requires
        is_first_visible::<R>(rows, id, i),
    ensures
        first_visible::<R>(rows, id) == Some(i),
{
    let k = choose|k: int| is_first_visible::<R>(rows, id, k);
    assert(k == i);
}

/// Where a lookup may see no row, `first_visible` names none.
pub proof fn lemma_first_visible_none<R: Record>(rows: Seq<R::V>, id: Seq<char>)
    requires
        forall|j: int| 0 <= j < rows.len() ==> !visible_as::<R>(#[trigger] rows[j], id),
    ensures
        first_visible::<R>(rows, id) is None,
{
    assert forall|k: int| !is_first_visible::<R>(rows, id, k) by {
        if 0 <= k < rows.len() {
            assert(!visible_as::<R>(rows[k], id));
        }
    }
}

/// Where a lookup may see a row, there is a first one.
proof fn lemma_first_visible_exists<R: Record>(rows: Seq<R::V>, id: Seq<char>, i: int) -> (k: int)
    requires
        0 <= i < rows.len(),
        visible_as::<R>(rows[i], id),
    ensures
        0 <= k <= i,
        is_first_visible::<R>(rows, id, k),
    decreases i,
{
    if exists|j: int| 0 <= j < i && visible_as::<R>(#[trigger] rows[j], id) {
        let j = choose|j: int| 0 <= j < i && visible_as::<R>(#[trigger] rows[j], id);
        lemma_first_visible_exists::<R>(rows, id, j)
    } else {
        i
    }
}

/// A row that was deleted counts as absent: the listing and every lookup give
/// what they would give if the row were not among the rows at all.
pub proof fn lemma_deleted_row_counts_as_absent<R: Record>(rows: Seq<R::V>, i: int, id: Seq<char>)
    requires
        0 <= i < rows.len(),
        R::deleted(rows[i]),
    ensures
        listing::<R>(Ok(rows)) == listing::<R>(Ok(rows.remove(i))),
        lookup::<R>(id, Ok(rows)) == lookup::<R>(id, Ok(rows.remove(i))),
{
    let rest = rows.remove(i);
    let pred = |row: R::V| !R::deleted(row);
    // The listing.
    let head = rows.subrange(0, i);
    let tail = rows.subrange(i + 1, rows.len() as int);
    let one = seq![rows[i]];
    assert(rows == head + one + tail);
    assert(rest == head + tail);
    Seq::filter_distributes_over_add(head + one, tail, pred);
    Seq::filter_distributes_over_add(head, one, pred);
    Seq::filter_distributes_over_add(head, tail, pred);
    assert(one.filter(pred) == Seq::<R::V>::empty()) by {
        reveal(Seq::filter);
        assert(one.drop_last().filter(pred) =~= Seq::<R::V>::empty());
    }
    assert(head.filter(pred) + Seq::<R::V>::empty() == head.filter(pred));
    assert(active::<R>(rows) == active::<R>(rest));
    // The lookup.
    if exists|k: int| is_first_visible::<R>(rows, id, k) {
        let k = choose|k: int| is_first_visible::<R>(rows, id, k);
        assert(k != i);
        let m = if k < i {
            k
        } else {
            k - 1
        };
        assert(rest[m] == rows[k]);
        assert forall|j: int| 0 <= j < m implies !visible_as::<R>(#[trigger] rest[j], id) by {
            if j < i {
                assert(rest[j] == rows[j]);
            } else {
                assert(rest[j] == rows[j + 1]);
            }
        }
        assert(is_first_visible::<R>(rest, id, m));
        lemma_first_visible_is::<R>(rest, id, m);
    } else {
        assert forall|j: int| 0 <= j < rest.len() implies !visible_as::<R>(
            #[trigger] rest[j],
            id,
        ) by {
            let source = if j < i {
                j
            } else {
                j + 1
            };
            assert(rest[j] == rows[source]);
            if visible_as::<R>(rows[source], id) {
                let k = lemma_first_visible_exists::<R>(rows, id, source);
            }
        }
        lemma_first_visible_none::<R>(rest, id);
    }
}

/// The listing holds no deleted row, and a lookup gives none: what it gives has
/// the identifier that was asked for and was not deleted.
pub proof fn lemma_reads_give_no_deleted_row<R: Record>(rows: Seq<R::V>, id: Seq<char>)
    ensures
        forall|k: int|
            0 <= k < active::<R>(rows).len() ==> !R::deleted(#[trigger] active::<R>(rows)[k]),
        lookup::<R>(id, Ok(rows)) matches Ok(row) ==> !R::deleted(row) && R::key(row) == id
            && rows.contains(row),
{
    let pred = |row: R::V| !R::deleted(row);
    assert forall|k: int| 0 <= k < active::<R>(rows).len() implies !R::deleted(
        #[trigger] active::<R>(rows)[k],
    ) by {
        rows.lemma_filter_pred(pred, k);
    }
    if lookup::<R>(id, Ok(rows)) is Ok {
        let k = choose|k: int| is_first_visible::<R>(rows, id, k);
        assert(rows[k] == lookup::<R>(id, Ok(rows))->Ok_0);
    }
}

/// Once a customer is marked as deleted, it counts as absent: the listing
/// leaves it out and a lookup of its identifier does not find it.
pub proof fn lemma_deleted_customer_is_invisible(
    rows: Seq<CustomerView>,
    i: int,
    now: NaiveDateTime,
    id: Seq<char>,
)
    requires
        0 <= i < rows.len(),
    ensures
        listing::<Customer>(Ok(rows.update(i, rows[i].deleted(now)))) == listing::<Customer>(
            Ok(rows.remove(i)),
        ),
        lookup::<Customer>(id, Ok(rows.update(i, rows[i].deleted(now)))) == lookup::<Customer>(
            id,
            Ok(rows.remove(i)),
        ),
{
    let after = rows.update(i, rows[i].deleted(now));
    assert(after.remove(i) == rows.remove(i));
    lemma_deleted_row_counts_as_absent::<Customer>(after, i, id);
}

/// Once a drink is marked as deleted, it counts as absent: the listing leaves
/// it out and a lookup of its identifier does not find it.
pub proof fn lemma_deleted_drink_is_invisible(
    rows: Seq<DrinkView>,
    i: int,
    now: NaiveDateTime,
    id: Seq<char>,
)
    requires
        0 <= i < rows.len(),
    ensures
        listing::<Drink>(Ok(rows.update(i, rows[i].deleted(now)))) == listing::<Drink>(
            Ok(rows.remove(i)),
        ),
        lookup::<Drink>(id, Ok(rows.update(i, rows[i].deleted(now)))) == lookup::<Drink>(
            id,
            Ok(rows.remove(i)),
        ),
{
    let after = rows.update(i, rows[i].deleted(now));
    assert(after.remove(i) == rows.remove(i));
    lemma_deleted_row_counts_as_absent::<Drink>(after, i, id);
}

/// Once an employee is marked as deleted, it counts as absent: the listing
/// leaves it out and a lookup of its identifier does not find it.
pub proof fn lemma_deleted_employee_is_invisible(
    rows: Seq<EmployeeView>,
    i: int,
    now: NaiveDateTime,
    id: Seq<char>,
)
    requires
        0 <= i < rows.len(),
    ensures
        listing::<Employee>(Ok(rows.update(i, rows[i].deleted(now)))) == listing::<Employee>(
            Ok(rows.remove(i)),
        ),
        lookup::<Employee>(id, Ok(rows.update(i, rows[i].deleted(now)))) == lookup::<Employee>(
            id,
            Ok(rows.remove(i)),
        ),
{
    let after = rows.update(i, rows[i].deleted(now));
    assert(after.remove(i) == rows.remove(i));
    lemma_deleted_row_counts_as_absent::<Employee>(after, i, id);
}

/// A row that was inserted is seen: where its identifier is not blank and no
/// row had it before, a lookup of the identifier gives the row, and the listing
/// ends with it.
pub proof fn lemma_inserted_row_is_seen<R: Record>(rows: Seq<R::V>, row: R::V)
    requires
        !is_blank(R::key(row)),
        !R::deleted(row),
        forall|j: int| 0 <= j < rows.len() ==> R::key(#[trigger] rows[j]) != R::key(row),
    ensures
        lookup::<R>(R::key(row), Ok(rows.push(row))) == Ok::<R::V, ApiError>(row),
        listing::<R>(Ok(rows.push(row))) == Ok::<Seq<R::V>, ApiError>(active::<R>(rows).push(row)),
{
    let after = rows.push(row);
    let pred = |r: R::V| !R::deleted(r);
    assert(is_first_visible::<R>(after, R::key(row), rows.len() as int));
    lemma_first_visible_is::<R>(after, R::key(row), rows.len() as int);
    assert(after.filter(pred) == rows.filter(pred).push(row)) by {
        reveal(Seq::filter);
        assert(after.drop_last() == rows);
    }
}

/// Where every row that has the identifier was deleted, a lookup of the
/// identifier is `NotFound`, as it is where no row has it.
pub proof fn lemma_lookup_of_deleted_is_not_found<R: Record>(rows: Seq<R::V>, id: Seq<char>)
    requires
        !is_blank(id),
        forall|j: int|
            0 <= j < rows.len() && R::key(#[trigger] rows[j]) == id ==> R::deleted(rows[j]),
    ensures
        lookup::<R>(id, Ok(rows)) == Err::<R::V, ApiError>(ApiError::NotFound),
{
    lemma_first_visible_none::<R>(rows, id);
}

/// An update of a drink changes its price and the time of its last update and
/// nothing else: not the name, not the time of creation, not the identifier,
/// whatever the input.
pub proof fn lemma_drink_update_keeps_name_and_creation(
    drink_id: Seq<char>,
    base_price: Decimal,
    loaded: Result<Seq<DrinkView>, StorageError>,
    now: NaiveDateTime,
)
    ensures
        drink_update(drink_id, base_price, loaded, now) matches Ok(row) ==> {
            &&& lookup::<Drink>(drink_id, loaded) matches Ok(found)
            &&& row.name == found.name
            &&& row.created_at == found.created_at
            &&& row.id == found.id
            &&& row.deleted_at == found.deleted_at
            &&& row.base_price == base_price
            &&& row.updated_at == now
        },
{
}

/// An update of a customer changes name, email and the time of the last update
/// and nothing else: not the time of creation, not the identifier, whatever the
/// input.
pub proof fn lemma_customer_update_keeps_creation(
    customer_id: Seq<char>,
    name: Seq<char>,
    email: Seq<char>,
    loaded: Result<Seq<CustomerView>, StorageError>,
    now: NaiveDateTime,
)
    ensures
        customer_update(customer_id, name, email, loaded, now) matches Ok(row) ==> {
            &&& lookup::<Customer>(customer_id, loaded) matches Ok(found)
            &&& row.created_at == found.created_at
            &&& row.id == found.id
            &&& row.deleted_at == found.deleted_at
            &&& row.name == name
            &&& row.email == email
            &&& row.updated_at == now
        },
{
}

} // verus!
