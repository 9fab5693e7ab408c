//! The drinks of the catalogue.

use vstd::prelude::*;
use vstd::std_specs::convert::FromSpecImpl;
use crate::datetime::NaiveDateTime;
use crate::decimal::Decimal;
use crate::models::infra::sqlite_types::{SqliteDateTime, SqliteDecimal};
use crate::text::str_eq;

verus! {

/// A drink of the catalogue as the store holds it.
#[derive(Clone, Debug, PartialEq, Eq)]
pub struct Drink {
    pub id: String,
    pub name: String,
    pub base_price: SqliteDecimal,
    pub created_at: SqliteDateTime,
    pub updated_at: SqliteDateTime,
    pub deleted_at: Option<SqliteDateTime>,
}

/// A drink as callers see it.
#[derive(Clone, Debug, PartialEq, Eq)]
pub struct DrinkApiModel {
    pub id: String,
    pub name: String,
    pub base_price: Decimal,
    pub created_at: NaiveDateTime,
    pub updated_at: NaiveDateTime,
    pub deleted_at: Option<NaiveDateTime>,
}

/// What a caller gives to have a drink created.
#[derive(Clone, Debug, PartialEq, Eq)]
pub struct NewDrink {
    pub name: String,
    pub base_price: Decimal,
}

/// What a caller gives to have a drink changed: the price, and nothing else.
#[derive(Clone, Debug, PartialEq, Eq)]
pub struct UpdateDrink {
    pub base_price: Decimal,
}

/// What a drink is, whichever of its two forms holds it.
pub struct DrinkView {
    pub id: Seq<char>,
    pub name: Seq<char>,
    pub base_price: Decimal,
    pub created_at: NaiveDateTime,
    pub updated_at: NaiveDateTime,
    pub deleted_at: Option<NaiveDateTime>,
}

impl View for Drink {
    type V = DrinkView;

    open spec fn view(&self) -> DrinkView {
        DrinkView {
            id: self.id@,
            name: self.name@,
            base_price: self.base_price.0,
            created_at: self.created_at.0,
            updated_at: self.updated_at.0,
            deleted_at: match self.deleted_at {
                Some(t) => Some(t.0),
                None => None,
            },
        }
    }
}

impl View for DrinkApiModel {
    type V = DrinkView;

    open spec fn view(&self) -> DrinkView {
        DrinkView {
            id: self.id@,
            name: self.name@,
            base_price: self.base_price,
            created_at: self.created_at,
            updated_at: self.updated_at,
            deleted_at: self.deleted_at,
        }
    }
}

impl DrinkView {
    /// The drink that `from_new` makes at the moment `now`.
    pub open spec fn created(
        name: Seq<char>,
        base_price: Decimal,
        id: Seq<char>,
        now: NaiveDateTime,
    ) -> DrinkView {
        DrinkView { id, name, base_price, created_at: now, updated_at: now, deleted_at: None }
    }

    /// This drink after an update at the moment `now`: the price is replaced
    /// and `updated_at` is `now`; nothing else changes.
    pub open spec fn updated(self, base_price: Decimal, now: NaiveDateTime) -> DrinkView {
        DrinkView { base_price, updated_at: now, ..self }
    }

    /// This drink after it was marked as deleted at the moment `now`.
    pub open spec fn deleted(self, now: NaiveDateTime) -> DrinkView {
        DrinkView { updated_at: now, deleted_at: Some(now), ..self }
    }
}

impl UpdateDrink {
    /// Whether an update of a drink may carry a field of this name.
    pub open spec fn accepts(field: Seq<char>) -> bool {
        field == "base_price"@
    }

    /// Whether an update of a drink may carry a field of this name: the price
    /// may change, and nothing else, the name least of all. A caller that reads
    /// updates from loose text turns away one that carries any other field.
    pub fn accepts_field(field: &str) -> (b: bool)
        ensures
            b == Self::accepts(field@),
    {
        str_eq(field, "base_price")
    }
}

impl Drink {
    /// The drink in the form that callers see.
    pub fn to_api_model(&self) -> (api: DrinkApiModel)
        ensures
            api@ == self@,
    {
        DrinkApiModel {
            id: self.id.clone(),
            name: self.name.clone(),
            base_price: self.base_price.into_decimal(),
            created_at: self.created_at.into_naive_date_time(),
            updated_at: self.updated_at.into_naive_date_time(),
            deleted_at: match self.deleted_at {
                Some(t) => Some(t.into_naive_date_time()),
                None => None,
            },
        }
    }

    /// A new drink with the identifier `id`, created and last updated at the
    /// moment `now`, and not deleted.
    pub fn from_new_at(new: NewDrink, id: String, now: NaiveDateTime) -> (drink: Drink)
        ensures
            drink@ == DrinkView::created(new.name@, new.base_price, id@, now),
    {
        Drink {
            id,
            name: new.name,
            base_price: SqliteDecimal::from(new.base_price),
            created_at: SqliteDateTime::from(now),
            updated_at: SqliteDateTime::from(now),
            deleted_at: None,
        }
    }

    /// A new drink with the identifier `id`, created and last updated now, and
    /// not deleted. The fields of `new` are taken as they are.
    pub fn from_new(new: NewDrink, id: String) -> (drink: Drink)
        ensures
            drink@ == DrinkView::created(new.name@, new.base_price, id@, drink@.created_at),
    {
        Self::from_new_at(new, id, NaiveDateTime::now())
    }

    /// Replaces the price and sets `updated_at` to `now`.
    pub fn update_from_input_at(&mut self, update_data: UpdateDrink, now: NaiveDateTime)
        ensures
            final(self)@ == old(self)@.updated(update_data.base_price, now),
    {
        self.base_price = SqliteDecimal::from(update_data.base_price);
        self.updated_at = SqliteDateTime::from(now);
    }

    /// Replaces the price and sets `updated_at` to the present moment.
    /// Identifier, name, `created_at` and `deleted_at` stay as they are.
    pub fn update_from_input(&mut self, update_data: UpdateDrink)
        ensures
            final(self)@ == old(self)@.updated(update_data.base_price, final(self)@.updated_at),
    {
        self.update_from_input_at(update_data, NaiveDateTime::now())
    }

    /// Marks the drink as deleted at the moment `now`.
    pub fn soft_delete_at(&mut self, now: NaiveDateTime)
        ensures
            final(self)@ == old(self)@.deleted(now),
    {
        self.updated_at = SqliteDateTime::from(now);
        self.deleted_at = Some(SqliteDateTime::from(now));
    }

    /// Marks the drink as deleted at the present moment.
    pub fn soft_delete(&mut self)
        ensures
            final(self)@ == old(self)@.deleted(final(self)@.updated_at),
    {
        self.soft_delete_at(NaiveDateTime::now())
    }

    /// Whether the drink was marked as deleted.
    pub fn is_deleted(&self) -> (b: bool)
        ensures
            b == (self@.deleted_at is Some),
    {
        self.deleted_at.is_some()
    }
}

impl From<Drink> for DrinkApiModel {
    fn from(drink: Drink) -> (api: Self) {
        DrinkApiModel {
            id: drink.id,
            name: drink.name,
            base_price: drink.base_price.0,
            created_at: drink.created_at.0,
            updated_at: drink.updated_at.0,
            deleted_at: match drink.deleted_at {
                Some(t) => Some(t.0),
                None => None,
            },
        }
    }
}

impl FromSpecImpl<Drink> for DrinkApiModel {
    open spec fn obeys_from_spec() -> bool {
        true
    }

    open spec fn from_spec(drink: Drink) -> Self {
        DrinkApiModel {
            id: drink.id,
            name: drink.name,
            base_price: drink.base_price.0,
            created_at: drink.created_at.0,
            updated_at: drink.updated_at.0,
            deleted_at: match drink.deleted_at {
                Some(t) => Some(t.0),
                None => None,
            },
        }
    }
}

} // verus!
