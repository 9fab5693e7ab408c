//! The extras that can be added to a drink.

use vstd::prelude::*;
use vstd::std_specs::convert::FromSpecImpl;
use crate::decimal::Decimal;
use crate::models::infra::sqlite_types::SqliteDecimal;

verus! {

/// An extra that can be added to a drink, as the store holds it.
#[derive(Clone, Debug, PartialEq, Eq)]
pub struct Extra {
    pub id: String,
    pub name: String,
    pub extra_price: SqliteDecimal,
    pub is_available: bool,
}

/// An extra as callers see it.
#[derive(Clone, Debug, PartialEq, Eq)]
pub struct ExtraApiModel {
    pub id: String,
    pub name: String,
    pub extra_price: Decimal,
    pub is_available: bool,
}

/// What a caller gives to have an extra created. An extra is available unless
/// the caller says otherwise.
#[derive(Clone, Debug, PartialEq, Eq)]
pub struct NewExtra {
    pub name: String,
    pub extra_price: Decimal,
    pub is_available: Option<bool>,
}

/// What an extra is, whichever of its two forms holds it.
pub struct ExtraView {
    pub id: Seq<char>,
    pub name: Seq<char>,
    pub extra_price: Decimal,
    pub is_available: bool,
}

impl View for Extra {
    type V = ExtraView;

    open spec fn view(&self) -> ExtraView {
        ExtraView {
            id: self.id@,
            name: self.name@,
            extra_price: self.extra_price.0,
            is_available: self.is_available,
        }
    }
}

impl View for ExtraApiModel {
    type V = ExtraView;

    open spec fn view(&self) -> ExtraView {
        ExtraView {
            id: self.id@,
            name: self.name@,
            extra_price: self.extra_price,
            is_available: self.is_available,
        }
    }
}

impl ExtraView {
    /// The extra that `from_new` makes.
    pub open spec fn created(
        name: Seq<char>,
        extra_price: Decimal,
        is_available: Option<bool>,
        id: Seq<char>,
    ) -> ExtraView {
        ExtraView {
            id,
            name,
            extra_price,
            is_available: match is_available {
                Some(available) => available,
                None => true,
            },
        }
    }
}

impl Extra {
    /// The extra in the form that callers see.
    pub fn to_api_model(&self) -> (api: ExtraApiModel)
        ensures
            api@ == self@,
    {
        ExtraApiModel {
            id: self.id.clone(),
            name: self.name.clone(),
            extra_price: self.extra_price.into_decimal(),
            is_available: self.is_available,
        }
    }

    /// A new extra with the identifier `id`; available where `new` does not
    /// say. The other fields of `new` are taken as they are.
    pub fn from_new(new: NewExtra, id: String) -> (extra: Extra)
        ensures
            extra@ == ExtraView::created(new.name@, new.extra_price, new.is_available, id@),
    {
        Extra {
            id,
            name: new.name,
            extra_price: SqliteDecimal::from(new.extra_price),
            is_available: match new.is_available {
                Some(available) => available,
                None => true,
            },
        }
    }
}

impl Extra {
    /// Says whether the extra can be had. Nothing else of an extra changes
    /// once it is created.
    pub fn set_available(&mut self, available: bool)
        ensures
            final(self)@ == (ExtraView { is_available: available, ..old(self)@ }),
    {
        self.is_available = available;
    }
}

impl From<Extra> for ExtraApiModel {
    fn from(extra: Extra) -> (api: Self) {
        ExtraApiModel {
            id: extra.id,
            name: extra.name,
            extra_price: extra.extra_price.0,
            is_available: extra.is_available,
        }
    }
}

impl FromSpecImpl<Extra> for ExtraApiModel {
    open spec fn obeys_from_spec() -> bool {
        true
    }

    open spec fn from_spec(extra: Extra) -> Self {
        ExtraApiModel {
            id: extra.id,
            name: extra.name,
            extra_price: extra.extra_price.0,
            is_available: extra.is_available,
        }
    }
}

} // verus!
