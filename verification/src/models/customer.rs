//! Customers.

use vstd::prelude::*;
use vstd::std_specs::convert::FromSpecImpl;
use crate::datetime::NaiveDateTime;
use crate::models::infra::sqlite_types::SqliteDateTime;
use crate::text::str_eq;

verus! {

/// A customer as the store holds it.
#[derive(Clone, Debug, PartialEq, Eq)]
pub struct Customer {
    pub id: String,
    pub name: String,
    pub email: String,
    pub created_at: SqliteDateTime,
    pub updated_at: SqliteDateTime,
    pub deleted_at: Option<SqliteDateTime>,
}

/// A customer as callers see it.
#[derive(Clone, Debug, PartialEq, Eq)]
pub struct CustomerApiModel {
    pub id: String,
    pub name: String,
    pub email: String,
    pub created_at: NaiveDateTime,
    pub updated_at: NaiveDateTime,
    pub deleted_at: Option<NaiveDateTime>,
}

/// What a caller gives to have a customer created.
#[derive(Clone, Debug, PartialEq, Eq)]
pub struct NewCustomer {
    pub name: String,
    pub email: String,
}

/// What a caller gives to have a customer changed: the fields that may change,
/// and no others.
#[derive(Clone, Debug, PartialEq, Eq)]
pub struct UpdateCustomer {
    pub name: String,
    pub email: String,
}

/// What a customer is, whichever of its two forms holds it.
pub struct CustomerView {
    pub id: Seq<char>,
    pub name: Seq<char>,
    pub email: Seq<char>,
    pub created_at: NaiveDateTime,
    pub updated_at: NaiveDateTime,
    pub deleted_at: Option<NaiveDateTime>,
}

impl View for Customer {
    type V = CustomerView;

    open spec fn view(&self) -> CustomerView {
        CustomerView {
            id: self.id@,
            name: self.name@,
            email: self.email@,
            created_at: self.created_at.0,
            updated_at: self.updated_at.0,
            deleted_at: match self.deleted_at {
                Some(t) => Some(t.0),
                None => None,
            },
        }
    }
}

impl View for CustomerApiModel {
    type V = CustomerView;

    open spec fn view(&self) -> CustomerView {
        CustomerView {
            id: self.id@,
            name: self.name@,
            email: self.email@,
            created_at: self.created_at,
            updated_at: self.updated_at,
            deleted_at: self.deleted_at,
        }
    }
}

impl CustomerView {
    /// The customer that `from_new` makes at the moment `now`.
    pub open spec fn created(
        name: Seq<char>,
        email: Seq<char>,
        id: Seq<char>,
        now: NaiveDateTime,
    ) -> CustomerView {
        CustomerView { id, name, email, created_at: now, updated_at: now, deleted_at: None }
    }

    /// This customer after an update at the moment `now`: name and email are
    /// replaced and `updated_at` is `now`; nothing else changes.
    pub open spec fn updated(
        self,
        name: Seq<char>,
        email: Seq<char>,
        now: NaiveDateTime,
    ) -> CustomerView {
        CustomerView { name, email, updated_at: now, ..self }
    }

    /// This customer after it was marked as deleted at the moment `now`.
    pub open spec fn deleted(self, now: NaiveDateTime) -> CustomerView {
        CustomerView { updated_at: now, deleted_at: Some(now), ..self }
    }
}

impl UpdateCustomer {
    /// Whether an update of a customer may carry a field of this name.
    pub open spec fn accepts(field: Seq<char>) -> bool {
        field == "name"@ || field == "email"@
    }

    /// Whether an update of a customer may carry a field of this name: `name`
    /// and `email` may change, and nothing else. A caller that reads updates
    /// from loose text turns away one that carries any other field.
    pub fn accepts_field(field: &str) -> (b: bool)
        ensures
            b == Self::accepts(field@),
    {
        str_eq(field, "name") || str_eq(field, "email")
    }
}

impl Customer {
    /// The customer in the form that callers see.
    pub fn to_api_model(&self) -> (api: CustomerApiModel)
        ensures
            api@ == self@,
    {
        CustomerApiModel {
            id: self.id.clone(),
            name: self.name.clone(),
            email: self.email.clone(),
            created_at: self.created_at.into_naive_date_time(),
            updated_at: self.updated_at.into_naive_date_time(),
            deleted_at: match self.deleted_at {
                Some(t) => Some(t.into_naive_date_time()),
                None => None,
            },
        }
    }

    /// A new customer with the identifier `id`, created and last updated at
    /// the moment `now`, and not deleted.
    pub fn from_new_at(new: NewCustomer, id: String, now: NaiveDateTime) -> (customer: Customer)
        ensures
            customer@ == CustomerView::created(new.name@, new.email@, id@, now),
    {
        Customer {
            id,
            name: new.name,
            email: new.email,
            created_at: SqliteDateTime::from(now),
            updated_at: SqliteDateTime::from(now),
            deleted_at: None,
        }
    }

    /// A new customer with the identifier `id`, created and last updated now,
    /// and not deleted. The fields of `new` are taken as they are.
    pub fn from_new(new: NewCustomer, id: String) -> (customer: Customer)
        ensures
            customer@ == CustomerView::created(new.name@, new.email@, id@, customer@.created_at),
    {
        Self::from_new_at(new, id, NaiveDateTime::now())
    }

    /// Replaces name and email and sets `updated_at` to `now`.
    pub fn update_from_input_at(&mut self, update_data: UpdateCustomer, now: NaiveDateTime)
        ensures
            final(self)@ == old(self)@.updated(update_data.name@, update_data.email@, now),
    {
        self.name = update_data.name;
        self.email = update_data.email;
        self.updated_at = SqliteDateTime::from(now);
    }

    /// Replaces name and email and sets `updated_at` to the present moment.
    /// Identifier, `created_at` and `deleted_at` stay as they are.
    pub fn update_from_input(&mut self, update_data: UpdateCustomer)
        ensures
            final(self)@ == old(self)@.updated(
                update_data.name@,
                update_data.email@,
                final(self)@.updated_at,
            ),
    {
        self.update_from_input_at(update_data, NaiveDateTime::now())
    }

    /// Marks the customer as deleted at the moment `now`.
    pub fn soft_delete_at(&mut self, now: NaiveDateTime)
        ensures
            final(self)@ == old(self)@.deleted(now),
    {
        self.updated_at = SqliteDateTime::from(now);
        self.deleted_at = Some(SqliteDateTime::from(now));
    }

    /// Marks the customer as deleted at the present moment.
    pub fn soft_delete(&mut self)
        ensures
            final(self)@ == old(self)@.deleted(final(self)@.updated_at),
    {
        self.soft_delete_at(NaiveDateTime::now())
    }

    /// Whether the customer was marked as deleted.
    pub fn is_deleted(&self) -> (b: bool)
        ensures
            b == (self@.deleted_at is Some),
    {
        self.deleted_at.is_some()
    }
}

impl From<Customer> for CustomerApiModel {
    fn from(customer: Customer) -> (api: Self) {
        CustomerApiModel {
            id: customer.id,
            name: customer.name,
            email: customer.email,
            created_at: customer.created_at.0,
            updated_at: customer.updated_at.0,
            deleted_at: match customer.deleted_at {
                Some(t) => Some(t.0),
                None => None,
            },
        }
    }
}

impl FromSpecImpl<Customer> for CustomerApiModel {
    open spec fn obeys_from_spec() -> bool {
        true
    }

    open spec fn from_spec(customer: Customer) -> Self {
        CustomerApiModel {
            id: customer.id,
            name: customer.name,
            email: customer.email,
            created_at: customer.created_at.0,
            updated_at: customer.updated_at.0,
            deleted_at: match customer.deleted_at {
                Some(t) => Some(t.0),
                None => None,
            },
        }
    }
}

} // verus!
