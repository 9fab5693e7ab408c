//! The operations on drinks.

use vstd::prelude::*;
use crate::datetime::NaiveDateTime;
use crate::decimal::Decimal;
use crate::error::{ApiError, StorageError};
use crate::ids::{is_hyphenated_id, new_id};
use crate::models::drink::{Drink, DrinkApiModel, DrinkView, NewDrink, UpdateDrink};
use crate::operations::{conclude_write, get_by_id, list_active, take_by_id};
use crate::operations::{api_views, listing, loaded_views, lookup, write_result, Record};
use crate::text::{is_blank, str_is_blank};

verus! {

impl Record for Drink {
    type Api = DrinkApiModel;

    open spec fn api_view(api: &DrinkApiModel) -> DrinkView {
        api@
    }

    open spec fn key(row: DrinkView) -> Seq<char> {
        row.id
    }

    open spec fn deleted(row: DrinkView) -> bool {
        row.deleted_at is Some
    }

    fn row_id(&self) -> (id: &str) {
        self.id.as_str()
    }

    fn row_deleted(&self) -> (b: bool) {
        self.is_deleted()
    }

    fn row_api_model(&self) -> (api: DrinkApiModel) {
        self.to_api_model()
    }
}

/// What a check of the fields of a new drink owes: `InvalidInput` unless the
/// name is not blank and the price is greater than zero.
pub open spec fn new_drink_check(name: Seq<char>, base_price: Decimal) -> Result<(), ApiError> {
    if is_blank(name) || !base_price.is_greater_than_zero() {
        Err(ApiError::InvalidInput)
    } else {
        Ok(())
    }
}

/// What a check of an identifier and a new price owes: `InvalidInput` unless
/// the identifier is not blank and the price is greater than zero.
pub open spec fn drink_update_check(drink_id: Seq<char>, base_price: Decimal) -> Result<
    (),
    ApiError,
> {
    if is_blank(drink_id) || !base_price.is_greater_than_zero() {
        Err(ApiError::InvalidInput)
    } else {
        Ok(())
    }
}

/// `InvalidInput` unless the name is not blank and the price is greater than
/// zero.
pub fn check_new_drink(new_drink: &NewDrink) -> (r: Result<(), ApiError>)
    ensures
        r == new_drink_check(new_drink.name@, new_drink.base_price),
{
    if str_is_blank(new_drink.name.as_str()) {
        return Err(ApiError::InvalidInput);
    }
    if !new_drink.base_price.is_positive() {
        return Err(ApiError::InvalidInput);
    }
    Ok(())
}

/// `InvalidInput` unless the identifier is not blank and the price is greater
/// than zero.
pub fn check_drink_update(drink_id: &str, update_data: &UpdateDrink) -> (r: Result<(), ApiError>)
    ensures
        r == drink_update_check(drink_id@, update_data.base_price),
{
    if str_is_blank(drink_id) {
        return Err(ApiError::InvalidInput);
    }
    if !update_data.base_price.is_positive() {
        return Err(ApiError::InvalidInput);
    }
    Ok(())
}

/// The drinks of a load that were not deleted, in the order in which the store
/// gave them; `InternalError` where the load failed.
pub fn get_drinks(loaded: Result<Vec<Drink>, StorageError>) -> (r: Result<
    Vec<DrinkApiModel>,
    ApiError,
>)
    ensures
        match r {
            Ok(listed) => listing::<Drink>(loaded_views(loaded)) == Ok::<Seq<DrinkView>, ApiError>(
                api_views::<Drink>(listed@),
            ),
            Err(e) => listing::<Drink>(loaded_views(loaded)) == Err::<Seq<DrinkView>, ApiError>(e),
        },
{
    list_active::<Drink>(loaded)
}

/// The drink with the identifier `drink_id` among the rows that the store gave
/// for it: `InvalidInput` for a blank identifier, `NotFound` where no row has it
/// or the row that has it was deleted.
pub fn get_drink(drink_id: &str, loaded: Result<Vec<Drink>, StorageError>) -> (r: Result<
    DrinkApiModel,
    ApiError,
>)
    ensures
        match r {
            Ok(api) => lookup::<Drink>(drink_id@, loaded_views(loaded)) == Ok::<
                DrinkView,
                ApiError,
            >(api@),
            Err(e) => lookup::<Drink>(drink_id@, loaded_views(loaded)) == Err::<
                DrinkView,
                ApiError,
            >(e),
        },
{
    get_by_id::<Drink>(drink_id, loaded)
}

/// The row to insert for a new drink: the fields as they were given, a fresh
/// identifier, and the present moment as the time of creation and of the last
/// update. `InvalidInput`, and no row, where the name is blank or the price is
/// not greater than zero.
pub fn create_drink(new_drink: NewDrink) -> (r: Result<Drink, ApiError>)
    ensures
        match r {
            Ok(row) => {
                &&& new_drink_check(new_drink.name@, new_drink.base_price) is Ok
                &&& is_hyphenated_id(row@.id)
                &&& row@ == DrinkView::created(
                    new_drink.name@,
                    new_drink.base_price,
                    row@.id,
                    row@.created_at,
                )
            },
            Err(e) => new_drink_check(new_drink.name@, new_drink.base_price) == Err::<
                (),
                ApiError,
            >(e),
        },
{
    match check_new_drink(&new_drink) {
        Err(e) => Err(e),
        Ok(_) => Ok(Drink::from_new(new_drink, new_id())),
    }
}

/// What an update of the drink `drink_id` owes, given the rows that the store
/// holds for the identifier and the moment of the update.
pub open spec fn drink_update(
    drink_id: Seq<char>,
    base_price: Decimal,
    loaded: Result<Seq<DrinkView>, StorageError>,
    now: NaiveDateTime,
) -> Result<DrinkView, ApiError> {
    if drink_update_check(drink_id, base_price) is Err {
        Err(ApiError::InvalidInput)
    } else {
        match lookup::<Drink>(drink_id, loaded) {
            Ok(found) => Ok(found.updated(base_price, now)),
            Err(e) => Err(e),
        }
    }
}

/// The row to persist for an update of the drink `drink_id`: the row that the
/// store holds, with the price replaced and the present moment as the time of
/// the last update. The input is checked before the rows are looked at.
pub fn update_drink(
    drink_id: &str,
    update_data: UpdateDrink,
    loaded: Result<Vec<Drink>, StorageError>,
) -> (r: Result<Drink, ApiError>)
    ensures
        match r {
            Ok(row) => drink_update(
                drink_id@,
                update_data.base_price,
                loaded_views(loaded),
                row@.updated_at,
            ) == Ok::<DrinkView, ApiError>(row@),
            Err(e) => forall|now: NaiveDateTime|
                #![auto]
                drink_update(drink_id@, update_data.base_price, loaded_views(loaded), now) == Err::<
                    DrinkView,
                    ApiError,
                >(e),
        },
{
    match check_drink_update(drink_id, &update_data) {
        Err(e) => Err(e),
        Ok(_) => match take_by_id::<Drink>(drink_id, loaded) {
            Err(e) => Err(e),
            Ok(row) => {
                let mut row = row;
                row.update_from_input(update_data);
                Ok(row)
            },
        },
    }
}

/// What the caller gets once the store has answered the insert or the update
/// of `row`.
pub fn drink_written(row: Drink, outcome: Result<(), StorageError>) -> (r: Result<
    DrinkApiModel,
    ApiError,
>)
    ensures
        match r {
            Ok(api) => write_result::<Drink>(row@, outcome) == Ok::<DrinkView, ApiError>(api@),
            Err(e) => write_result::<Drink>(row@, outcome) == Err::<DrinkView, ApiError>(e),
        },
{
    conclude_write::<Drink>(row, outcome)
}

} // verus!
