//! The operations on customers.

use vstd::prelude::*;
use crate::datetime::NaiveDateTime;
use crate::error::{ApiError, StorageError};
use crate::ids::{is_hyphenated_id, new_id};
use crate::models::customer::{Customer, CustomerApiModel, CustomerView};
use crate::models::customer::{NewCustomer, UpdateCustomer};
use crate::operations::{conclude_write, get_by_id, list_active, take_by_id};
use crate::operations::{api_views, listing, loaded_views, lookup, write_result, Record};
use crate::text::{is_blank, str_contains_char, str_is_blank};

verus! {

impl Record for Customer {
    type Api = CustomerApiModel;

    open spec fn api_view(api: &CustomerApiModel) -> CustomerView {
        api@
    }

    open spec fn key(row: CustomerView) -> Seq<char> {
        row.id
    }

    open spec fn deleted(row: CustomerView) -> bool {
        row.deleted_at is Some
    }

    fn row_id(&self) -> (id: &str) {
        self.id.as_str()
    }

    fn row_deleted(&self) -> (b: bool) {
        self.is_deleted()
    }

    fn row_api_model(&self) -> (api: CustomerApiModel) {
        self.to_api_model()
    }
}

/// Whether a customer may have this name and this email: neither is blank, and
/// the email holds an `@`.
pub open spec fn valid_customer_fields(name: Seq<char>, email: Seq<char>) -> bool {
    !is_blank(name) && !is_blank(email) && email.contains('@')
}

/// What a check of the fields of a new customer owes: `InvalidInput` unless
/// name and email are such as a customer may have.
pub open spec fn new_customer_check(name: Seq<char>, email: Seq<char>) -> Result<(), ApiError> {
    if valid_customer_fields(name, email) {
        Ok(())
    } else {
        Err(ApiError::InvalidInput)
    }
}

/// What a check of an identifier and of the fields of an update owes:
/// `InvalidInput` unless the identifier is not blank and name and email are such
/// as a customer may have.
pub open spec fn customer_update_check(
    customer_id: Seq<char>,
    name: Seq<char>,
    email: Seq<char>,
) -> Result<(), ApiError> {
    if !is_blank(customer_id) && valid_customer_fields(name, email) {
        Ok(())
    } else {
        Err(ApiError::InvalidInput)
    }
}

fn check_customer_fields(name: &str, email: &str) -> (r: Result<(), ApiError>)
    ensures
        r == new_customer_check(name@, email@),
{
    if str_is_blank(name) {
        return Err(ApiError::InvalidInput);
    }
    if str_is_blank(email) {
        return Err(ApiError::InvalidInput);
    }
    if !str_contains_char(email, '@') {
        return Err(ApiError::InvalidInput);
    }
    Ok(())
}

/// `InvalidInput` unless name and email are such as a customer may have.
pub fn check_new_customer(new_customer: &NewCustomer) -> (r: Result<(), ApiError>)
    ensures
        r == new_customer_check(new_customer.name@, new_customer.email@),
{
    check_customer_fields(new_customer.name.as_str(), new_customer.email.as_str())
}

/// `InvalidInput` where the identifier is blank, or name and email are not
/// such as a customer may have.
pub fn check_customer_update(customer_id: &str, update_data: &UpdateCustomer) -> (r: Result<
    (),
    ApiError,
>)
    ensures
        r == customer_update_check(customer_id@, update_data.name@, update_data.email@),
{
    if str_is_blank(customer_id) {
        return Err(ApiError::InvalidInput);
    }
    check_customer_fields(update_data.name.as_str(), update_data.email.as_str())
}

/// The customers of a load that were not deleted, in the order in which the
/// store gave them; `InternalError` where the load failed.
pub fn get_customers(loaded: Result<Vec<Customer>, StorageError>) -> (r: Result<
    Vec<CustomerApiModel>,
    ApiError,
>)
    ensures
        match r {
            Ok(listed) => listing::<Customer>(loaded_views(loaded)) == Ok::<
                Seq<CustomerView>,
                ApiError,
            >(api_views::<Customer>(listed@)),
            Err(e) => listing::<Customer>(loaded_views(loaded)) == Err::<
                Seq<CustomerView>,
                ApiError,
            >(e),
        },
{
    list_active::<Customer>(loaded)
}

/// The customer with the identifier `customer_id` among the rows that the
/// store gave for it: `InvalidInput` for a blank identifier, `NotFound` where no
/// row has it or the row that has it was deleted.
pub fn get_customer(customer_id: &str, loaded: Result<Vec<Customer>, StorageError>) -> (r: Result<
    CustomerApiModel,
    ApiError,
>)
    ensures
        match r {
            Ok(api) => lookup::<Customer>(customer_id@, loaded_views(loaded)) == Ok::<
                CustomerView,
                ApiError,
            >(api@),
            Err(e) => lookup::<Customer>(customer_id@, loaded_views(loaded)) == Err::<
                CustomerView,
                ApiError,
            >(e),
        },
{
    get_by_id::<Customer>(customer_id, loaded)
}

/// The row to insert for a new customer: the fields as they were given, a
/// fresh identifier, and the present moment as the time of creation and of the
/// last update. `InvalidInput`, and no row, where the fields are not such as a
/// customer may have.
pub fn create_customer(new_customer: NewCustomer) -> (r: Result<Customer, ApiError>)
    ensures
        match r {
            Ok(row) => {
                &&& new_customer_check(new_customer.name@, new_customer.email@) is Ok
                &&& is_hyphenated_id(row@.id)
                &&& row@ == CustomerView::created(
                    new_customer.name@,
                    new_customer.email@,
                    row@.id,
                    row@.created_at,
                )
            },
            Err(e) => new_customer_check(new_customer.name@, new_customer.email@) == Err::<
                (),
                ApiError,
            >(e),
        },
{
    match check_new_customer(&new_customer) {
        Err(e) => Err(e),
        Ok(_) => Ok(Customer::from_new(new_customer, new_id())),
    }
}

/// What an update of the customer `customer_id` owes, given the rows that the
/// store holds for the identifier and the moment of the update.
pub open spec fn customer_update(
    customer_id: Seq<char>,
    name: Seq<char>,
    email: Seq<char>,
    loaded: Result<Seq<CustomerView>, StorageError>,
    now: NaiveDateTime,
) -> Result<CustomerView, ApiError> {
    if customer_update_check(customer_id, name, email) is Err {
        Err(ApiError::InvalidInput)
    } else {
        match lookup::<Customer>(customer_id, loaded) {
            Ok(found) => Ok(found.updated(name, email, now)),
            Err(e) => Err(e),
        }
    }
}

/// The row to persist for an update of the customer `customer_id`: the row
/// that the store holds, with name and email replaced and the present moment
/// as the time of the last update. The input is checked before the rows are
/// looked at.
pub fn update_customer(
    customer_id: &str,
    update_data: UpdateCustomer,
    loaded: Result<Vec<Customer>, StorageError>,
) -> (r: Result<Customer, ApiError>)
    ensures
        match r {
            Ok(row) => customer_update(
                customer_id@,
                update_data.name@,
                update_data.email@,
                loaded_views(loaded),
                row@.updated_at,
            ) == Ok::<CustomerView, ApiError>(row@),
            Err(e) => forall|now: NaiveDateTime|
                #![auto]
                customer_update(
                    customer_id@,
                    update_data.name@,
                    update_data.email@,
                    loaded_views(loaded),
                    now,
                ) == Err::<CustomerView, ApiError>(e),
        },
{
    match check_customer_update(customer_id, &update_data) {
        Err(e) => Err(e),
        Ok(_) => match take_by_id::<Customer>(customer_id, loaded) {
            Err(e) => Err(e),
            Ok(row) => {
                let mut row = row;
                row.update_from_input(update_data);
                Ok(row)
            },
        },
    }
}

/// What the caller gets once the store has answered the insert or the update
/// of `row`.
pub fn customer_written(row: Customer, outcome: Result<(), StorageError>) -> (r: Result<
    CustomerApiModel,
    ApiError,
>)
    ensures
        match r {
            Ok(api) => write_result::<Customer>(row@, outcome) == Ok::<CustomerView, ApiError>(
                api@,
            ),
            Err(e) => write_result::<Customer>(row@, outcome) == Err::<CustomerView, ApiError>(e),
        },
{
    conclude_write::<Customer>(row, outcome)
}

} // verus!
