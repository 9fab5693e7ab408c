//! The items of an order: one drink each.

use vstd::prelude::*;
use vstd::std_specs::convert::FromSpecImpl;
use crate::decimal::Decimal;
use crate::models::drink_size::DrinkSize;
use crate::models::infra::sqlite_types::{SqliteDecimal, SqliteDrinkSize};

verus! {

/// One drink of an order, as the store holds it. The price is the one that
/// the caller worked out; nothing here works it out again.
#[derive(Clone, Debug, PartialEq, Eq)]
pub struct OrderItem {
    pub id: String,
    pub order_id: String,
    pub drink_id: String,
    pub size: SqliteDrinkSize,
    pub total_price: SqliteDecimal,
}

/// One drink of an order, as callers see it.
#[derive(Clone, Debug, PartialEq, Eq)]
pub struct OrderItemApiModel {
    pub id: String,
    pub order_id: String,
    pub drink_id: String,
    pub size: DrinkSize,
    pub total_price: Decimal,
}

/// What it takes to add a drink to an order.
#[derive(Clone, Debug, PartialEq, Eq)]
pub struct NewOrderItem {
    pub order_id: String,
    pub drink_id: String,
    pub size: DrinkSize,
    pub total_price: Decimal,
}

/// What an item of an order is, whichever of its two forms holds it.
pub struct OrderItemView {
    pub id: Seq<char>,
    pub order_id: Seq<char>,
    pub drink_id: Seq<char>,
    pub size: DrinkSize,
    pub total_price: Decimal,
}

impl View for OrderItem {
    type V = OrderItemView;

    open spec fn view(&self) -> OrderItemView {
        OrderItemView {
            id: self.id@,
            order_id: self.order_id@,
            drink_id: self.drink_id@,
            size: self.size.0,
            total_price: self.total_price.0,
        }
    }
}

impl View for OrderItemApiModel {
    type V = OrderItemView;

    open spec fn view(&self) -> OrderItemView {
        OrderItemView {
            id: self.id@,
            order_id: self.order_id@,
            drink_id: self.drink_id@,
            size: self.size,
            total_price: self.total_price,
        }
    }
}

impl OrderItem {
    /// The item in the form that callers see.
    pub fn to_api_model(&self) -> (api: OrderItemApiModel)
        ensures
            api@ == self@,
    {
        OrderItemApiModel {
            id: self.id.clone(),
            order_id: self.order_id.clone(),
            drink_id: self.drink_id.clone(),
            size: self.size.into_drink_size(),
            total_price: self.total_price.into_decimal(),
        }
    }

    /// A new item with the identifier `id`. The fields of `new` are taken as
    /// they are.
    pub fn from_new(new: NewOrderItem, id: String) -> (item: OrderItem)
        ensures
            item@ == (OrderItemView {
                id: id@,
                order_id: new.order_id@,
                drink_id: new.drink_id@,
                size: new.size,
                total_price: new.total_price,
            }),
    {
        OrderItem {
            id,
            order_id: new.order_id,
            drink_id: new.drink_id,
            size: SqliteDrinkSize::from(new.size),
            total_price: SqliteDecimal::from(new.total_price),
        }
    }
}

impl From<OrderItem> for OrderItemApiModel {
    fn from(item: OrderItem) -> (api: Self) {
        OrderItemApiModel {
            id: item.id,
            order_id: item.order_id,
            drink_id: item.drink_id,
            size: item.size.0,
            total_price: item.total_price.0,
        }
    }
}

impl FromSpecImpl<OrderItem> for OrderItemApiModel {
    open spec fn obeys_from_spec() -> bool {
        true
    }

    open spec fn from_spec(item: OrderItem) -> Self {
        OrderItemApiModel {
            id: item.id,
            order_id: item.order_id,
            drink_id: item.drink_id,
            size: item.size.0,
            total_price: item.total_price.0,
        }
    }
}

} // verus!
