//! The operations on the store: listing the rows of a kind, looking one up by
//! its identifier, creating one and changing one.
//!
//! The library does not talk to the storage engine. A caller loads rows and
//! hands them in, or takes a row and writes it, and tells the library how that
//! went; what is shown, what is refused and which error is reported is decided
//! here. Rows that were marked as deleted are never shown.

use vstd::prelude::*;
use crate::error::{ApiError, StorageError};
use crate::text::{is_blank, str_eq, str_is_blank};

pub mod customers;
pub mod drinks;
pub mod lemmas;
pub mod records;

verus! {

/// A kind of row that is listed and looked up by identifier. A row and the
/// form in which callers see it have one view.
pub trait Record: View + Sized {
    /// The form in which callers see a row.
    type Api;

    /// What a row in the callers' form is.
    spec fn api_view(api: &Self::Api) -> Self::V;

    /// The identifier of a row.
    spec fn key(row: Self::V) -> Seq<char>;

    /// Whether a row was marked as deleted. Always false for a kind of row that
    /// cannot be.
    spec fn deleted(row: Self::V) -> bool;

    fn row_id(&self) -> (id: &str)
        ensures
            id@ == Self::key(self@),
    ;

    fn row_deleted(&self) -> (b: bool)
        ensures
            b == Self::deleted(self@),
    ;

    fn row_api_model(&self) -> (api: Self::Api)
        ensures
            Self::api_view(&api) == self@,
    ;
}

/// What the rows are, one by one.
pub open spec fn row_views<R: Record>(rows: Seq<R>) -> Seq<R::V> {
    rows.map_values(|row: R| row@)
}

/// What the rows in the callers' form are, one by one.
pub open spec fn api_views<R: Record>(rows: Seq<R::Api>) -> Seq<R::V> {
    rows.map_values(|api: R::Api| R::api_view(&api))
}

/// The rows that were not deleted, in the order in which they stand.
pub open spec fn active<R: Record>(rows: Seq<R::V>) -> Seq<R::V> {
    rows.filter(|row: R::V| !R::deleted(row))
}

/// Whether a lookup of `id` may see `row`: it has the identifier and was not
/// deleted.
pub open spec fn visible_as<R: Record>(row: R::V, id: Seq<char>) -> bool {
    R::key(row) == id && !R::deleted(row)
}

/// Whether `i` is the first position in `rows` that a lookup of `id` may see.
pub open spec fn is_first_visible<R: Record>(rows: Seq<R::V>, id: Seq<char>, i: int) -> bool {
    &&& 0 <= i < rows.len()
    &&& visible_as::<R>(rows[i], id)
    &&& forall|j: int| 0 <= j < i ==> !visible_as::<R>(#[trigger] rows[j], id)
}

/// The first position in `rows` that a lookup of `id` may see, if there is one.
pub open spec fn first_visible<R: Record>(rows: Seq<R::V>, id: Seq<char>) -> Option<int> {
    if exists|i: int| is_first_visible::<R>(rows, id, i) {
        Some(choose|i: int| is_first_visible::<R>(rows, id, i))
    } else {
        None
    }
}

/// The position that `first_visible` names, found by a walk over the rows.
pub fn find_visible<R: Record>(rows: &Vec<R>, id: &str) -> (found: Option<usize>)
    ensures
        match found {
            Some(i) => first_visible::<R>(row_views(rows@), id@) == Some(i as int),
            None => first_visible::<R>(row_views(rows@), id@) is None,
        },
        found is Some ==> found->Some_0 < rows@.len(),
{
    let ghost views = row_views(rows@);
    let mut i: usize = 0;
    while i < rows.len()
        invariant
            i <= rows@.len(),
            views == row_views(rows@),
            forall|j: int| 0 <= j < i ==> !visible_as::<R>(#[trigger] views[j], id@),
        decreases rows@.len() - i,
    {
        let row = &rows[i];
        if !row.row_deleted() && str_eq(row.row_id(), id) {
            proof {
                assert(views[i as int] == rows@[i as int]@);
                assert(is_first_visible::<R>(views, id@, i as int));
                let k = choose|k: int| is_first_visible::<R>(views, id@, k);
                assert(k == i);
            }
            return Some(i);
        }
        assert(views[i as int] == rows@[i as int]@);
        i += 1;
    }
    proof {
        assert forall|k: int| !is_first_visible::<R>(views, id@, k) by {
            if 0 <= k < views.len() {
                assert(!visible_as::<R>(views[k], id@));
            }
        }
    }
    None
}

/// What a load of rows is, the rows taken by their views.
pub open spec fn loaded_views<R: Record>(loaded: Result<Vec<R>, StorageError>) -> Result<
    Seq<R::V>,
    StorageError,
> {
    match loaded {
        Ok(rows) => Ok(row_views(rows@)),
        Err(e) => Err(e),
    }
}

/// What `list_active` owes for a load: the rows that were not deleted, or
/// `InternalError` where the load failed.
pub open spec fn listing<R: Record>(loaded: Result<Seq<R::V>, StorageError>) -> Result<
    Seq<R::V>,
    ApiError,
> {
    match loaded {
        Ok(rows) => Ok(active::<R>(rows)),
        Err(_) => Err(ApiError::InternalError),
    }
}

/// What `get_by_id` owes for an identifier and a load: `InvalidInput` for a
/// blank identifier, else the error of a failed load, else the first row that
/// has the identifier and was not deleted, else `NotFound`.
pub open spec fn lookup<R: Record>(
    id: Seq<char>,
    loaded: Result<Seq<R::V>, StorageError>,
) -> Result<R::V, ApiError> {
    if is_blank(id) {
        Err(ApiError::InvalidInput)
    } else {
        match loaded {
            Err(e) => Err(e.read_error_spec()),
            Ok(rows) => match first_visible::<R>(rows, id) {
                Some(i) => Ok(rows[i]),
                None => Err(ApiError::NotFound),
            },
        }
    }
}

/// What `conclude_write` owes for a row and the outcome of writing it.
pub open spec fn write_result<R: Record>(row: R::V, outcome: Result<(), StorageError>) -> Result<
    R::V,
    ApiError,
> {
    match outcome {
        Ok(_) => Ok(row),
        Err(e) => Err(e.write_error_spec()),
    }
}

proof fn lemma_filter_push<A>(s: Seq<A>, x: A, pred: spec_fn(A) -> bool)
    ensures
        s.push(x).filter(pred) == if pred(x) {
            s.filter(pred).push(x)
        } else {
            s.filter(pred)
        },
{
    reveal(Seq::filter);
    assert(s.push(x).drop_last() == s);
}

/// `InvalidInput` for a blank identifier.
pub fn check_id(id: &str) -> (r: Result<(), ApiError>)
    ensures
        r == if is_blank(id@) {
            Err::<(), ApiError>(ApiError::InvalidInput)
        } else {
            Ok(())
        },
{
    if str_is_blank(id) {
        Err(ApiError::InvalidInput)
    } else {
        Ok(())
    }
}

/// The rows of a load that were not deleted, in the callers' form and in the
/// order in which the store gave them.
pub fn list_active<R: Record>(loaded: Result<Vec<R>, StorageError>) -> (r: Result<
    Vec<R::Api>,
    ApiError,
>)
    ensures
        match r {
            Ok(listed) => listing::<R>(loaded_views(loaded)) == Ok::<Seq<R::V>, ApiError>(
                api_views::<R>(listed@),
            ),
            Err(e) => listing::<R>(loaded_views(loaded)) == Err::<Seq<R::V>, ApiError>(e),
        },
{
    match loaded {
        Err(_) => Err(ApiError::InternalError),
        Ok(rows) => {
            let ghost views = row_views(rows@);
            let ghost pred = |row: R::V| !R::deleted(row);
            let mut listed: Vec<R::Api> = Vec::new();
            let mut i: usize = 0;
            proof {
                reveal(Seq::filter);
                assert(views.subrange(0, 0).filter(pred) =~= api_views::<R>(listed@));
            }
            while i < rows.len()
                invariant
                    i <= rows@.len(),
                    views == row_views(rows@),
                    pred == (|row: R::V| !R::deleted(row)),
                    api_views::<R>(listed@) == views.subrange(0, i as int).filter(pred),
                decreases rows@.len() - i,
            {
                let row = &rows[i];
                let ghost before = api_views::<R>(listed@);
                proof {
                    assert(views[i as int] == rows@[i as int]@);
                    assert(views.subrange(0, i + 1) == views.subrange(0, i as int).push(
                        views[i as int],
                    ));
                    lemma_filter_push(views.subrange(0, i as int), views[i as int], pred);
                }
                if !row.row_deleted() {
                    let api = row.row_api_model();
                    listed.push(api);
                    assert(api_views::<R>(listed@) =~= before.push(views[i as int]));
                }
                i += 1;
            }
            assert(views.subrange(0, i as int) == views);
            Ok(listed)
        },
    }
}

/// The row with the identifier `id` in the callers' form.
pub fn get_by_id<R: Record>(id: &str, loaded: Result<Vec<R>, StorageError>) -> (r: Result<
    R::Api,
    ApiError,
>)
    ensures
        match r {
            Ok(api) => lookup::<R>(id@, loaded_views(loaded)) == Ok::<R::V, ApiError>(
                R::api_view(&api),
            ),
            Err(e) => lookup::<R>(id@, loaded_views(loaded)) == Err::<R::V, ApiError>(e),
        },
{
    if str_is_blank(id) {
        return Err(ApiError::InvalidInput);
    }
    match loaded {
        Err(e) => Err(e.read_error()),
        Ok(rows) => match find_visible(&rows, id) {
            Some(i) => Ok(rows[i].row_api_model()),
            None => Err(ApiError::NotFound),
        },
    }
}

/// The row with the identifier `id` itself, for a change to be made to it.
pub fn take_by_id<R: Record>(id: &str, loaded: Result<Vec<R>, StorageError>) -> (r: Result<
    R,
    ApiError,
>)
    ensures
        match r {
            Ok(row) => lookup::<R>(id@, loaded_views(loaded)) == Ok::<R::V, ApiError>(row@),
            Err(e) => lookup::<R>(id@, loaded_views(loaded)) == Err::<R::V, ApiError>(e),
        },
{
    if str_is_blank(id) {
        return Err(ApiError::InvalidInput);
    }
    match loaded {
        Err(e) => Err(e.read_error()),
        Ok(rows) => match find_visible(&rows, id) {
            Some(i) => {
                let mut rows = rows;
                let ghost before = rows@;
                let row = rows.swap_remove(i);
                assert(row_views(before)[i as int] == before[i as int]@);
                Ok(row)
            },
            None => Err(ApiError::NotFound),
        },
    }
}

/// What the caller gets once the store has answered a write of `row`: the row
/// in the callers' form, `Conflict` where the write broke a uniqueness
/// constraint, `InternalError` where it failed otherwise.
pub fn conclude_write<R: Record>(row: R, outcome: Result<(), StorageError>) -> (r: Result<
    R::Api,
    ApiError,
>)
    ensures
        match r {
            Ok(api) => write_result::<R>(row@, outcome) == Ok::<R::V, ApiError>(R::api_view(&api)),
            Err(e) => write_result::<R>(row@, outcome) == Err::<R::V, ApiError>(e),
        },
{
    match outcome {
        Ok(_) => Ok(row.row_api_model()),
        Err(e) => Err(e.write_error()),
    }
}

} // verus!
