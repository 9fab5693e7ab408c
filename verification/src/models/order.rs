//! Orders, and the orders that come in with all that belongs to them.

use vstd::prelude::*;
use vstd::std_specs::convert::FromSpecImpl;
use crate::datetime::NaiveDateTime;
use crate::decimal::Decimal;
use crate::models::drink_size::DrinkSize;
use crate::models::infra::sqlite_types::{SqliteDateTime, SqliteOrderStatus};
use crate::models::order_status::OrderStatus;

verus! {

/// An order as the store holds it.
#[derive(Clone, Debug, PartialEq, Eq)]
pub struct Order {
    pub id: String,
    pub customer_id: String,
    pub employee_id: String,
    pub status: SqliteOrderStatus,
    pub created_at: SqliteDateTime,
    pub updated_at: SqliteDateTime,
}

/// An order as callers see it.
#[derive(Clone, Debug, PartialEq, Eq)]
pub struct OrderApiModel {
    pub id: String,
    pub customer_id: String,
    pub employee_id: String,
    pub status: OrderStatus,
    pub created_at: NaiveDateTime,
    pub updated_at: NaiveDateTime,
}

/// What it takes to create an order without items.
#[derive(Clone, Debug, PartialEq, Eq)]
pub struct NewOrder {
    pub customer_id: String,
    pub employee_id: String,
    pub status: OrderStatus,
}

/// What a caller gives to have an order created with all that belongs to it.
#[derive(Clone, Debug, PartialEq, Eq)]
pub struct IncomingOrder {
    pub customer_id: String,
    pub employee_id: String,
    pub status: OrderStatus,
    pub items: Vec<IncomingOrderItem>,
}

/// One drink of an incoming order, with the identifiers of its extras.
#[derive(Clone, Debug, PartialEq, Eq)]
pub struct IncomingOrderItem {
    pub drink_id: String,
    pub size: DrinkSize,
    pub total_price: Decimal,
    pub extras: Vec<String>,
}

/// What an order is, whichever of its two forms holds it.
pub struct OrderView {
    pub id: Seq<char>,
    pub customer_id: Seq<char>,
    pub employee_id: Seq<char>,
    pub status: OrderStatus,
    pub created_at: NaiveDateTime,
    pub updated_at: NaiveDateTime,
}

/// What one drink of an incoming order is.
pub struct IncomingOrderItemView {
    pub drink_id: Seq<char>,
    pub size: DrinkSize,
    pub total_price: Decimal,
    pub extras: Seq<Seq<char>>,
}

/// What an incoming order is.
pub struct IncomingOrderView {
    pub customer_id: Seq<char>,
    pub employee_id: Seq<char>,
    pub status: OrderStatus,
    pub items: Seq<IncomingOrderItemView>,
}

impl View for Order {
    type V = OrderView;

    open spec fn view(&self) -> OrderView {
        OrderView {
            id: self.id@,
            customer_id: self.customer_id@,
            employee_id: self.employee_id@,
            status: self.status.0,
            created_at: self.created_at.0,
            updated_at: self.updated_at.0,
        }
    }
}

impl View for OrderApiModel {
    type V = OrderView;

    open spec fn view(&self) -> OrderView {
        OrderView {
            id: self.id@,
            customer_id: self.customer_id@,
            employee_id: self.employee_id@,
            status: self.status,
            created_at: self.created_at,
            updated_at: self.updated_at,
        }
    }
}

impl View for IncomingOrderItem {
    type V = IncomingOrderItemView;

    open spec fn view(&self) -> IncomingOrderItemView {
        IncomingOrderItemView {
            drink_id: self.drink_id@,
            size: self.size,
            total_price: self.total_price,
            extras: self.extras@.map_values(|extra_id: String| extra_id@),
        }
    }
}

impl View for IncomingOrder {
    type V = IncomingOrderView;

    open spec fn view(&self) -> IncomingOrderView {
        IncomingOrderView {
            customer_id: self.customer_id@,
            employee_id: self.employee_id@,
            status: self.status,
            items: self.items@.map_values(|item: IncomingOrderItem| item@),
        }
    }
}

impl OrderView {
    /// The order that `from_new` makes at the moment `now`.
    pub open spec fn created(
        customer_id: Seq<char>,
        employee_id: Seq<char>,
        status: OrderStatus,
        id: Seq<char>,
        now: NaiveDateTime,
    ) -> OrderView {
        OrderView { id, customer_id, employee_id, status, created_at: now, updated_at: now }
    }
}

impl Order {
    /// The order in the form that callers see.
    pub fn to_api_model(&self) -> (api: OrderApiModel)
        ensures
            api@ == self@,
    {
        OrderApiModel {
            id: self.id.clone(),
            customer_id: self.customer_id.clone(),
            employee_id: self.employee_id.clone(),
            status: self.status.into_order_status(),
            created_at: self.created_at.into_naive_date_time(),
            updated_at: self.updated_at.into_naive_date_time(),
        }
    }

    /// A new order with the identifier `id`, created and last updated at the
    /// moment `now`.
    pub fn from_new_at(new: NewOrder, id: String, now: NaiveDateTime) -> (order: Order)
        ensures
            order@ == OrderView::created(new.customer_id@, new.employee_id@, new.status, id@, now),
    {
        Order {
            id,
            customer_id: new.customer_id,
            employee_id: new.employee_id,
            status: SqliteOrderStatus::from(new.status),
            created_at: SqliteDateTime::from(now),
            updated_at: SqliteDateTime::from(now),
        }
    }

    /// A new order with the identifier `id`, created and last updated now. The
    /// fields of `new` are taken as they are.
    pub fn from_new(new: NewOrder, id: String) -> (order: Order)
        ensures
            order@ == OrderView::created(
                new.customer_id@,
                new.employee_id@,
                new.status,
                id@,
                order@.created_at,
            ),
    {
        Self::from_new_at(new, id, NaiveDateTime::now())
    }
}

impl From<Order> for OrderApiModel {
    fn from(order: Order) -> (api: Self) {
        OrderApiModel {
            id: order.id,
            customer_id: order.customer_id,
            employee_id: order.employee_id,
            status: order.status.0,
            created_at: order.created_at.0,
            updated_at: order.updated_at.0,
        }
    }
}

impl FromSpecImpl<Order> for OrderApiModel {
    open spec fn obeys_from_spec() -> bool {
        true
    }

    open spec fn from_spec(order: Order) -> Self {
        OrderApiModel {
            id: order.id,
            customer_id: order.customer_id,
            employee_id: order.employee_id,
            status: order.status.0,
            created_at: order.created_at.0,
            updated_at: order.updated_at.0,
        }
    }
}

} // verus!
