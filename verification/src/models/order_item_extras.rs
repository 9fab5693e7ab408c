//! The links between the items of an order and their extras.

use vstd::prelude::*;
use vstd::std_specs::convert::FromSpecImpl;

verus! {

/// The link between an item of an order and an extra, as the store holds it.
#[derive(Clone, Debug, PartialEq, Eq)]
pub struct OrderItemExtra {
    pub id: String,
    pub order_item_id: String,
    pub extra_id: String,
}

/// The link between an item of an order and an extra, as callers see it.
#[derive(Clone, Debug, PartialEq, Eq)]
pub struct OrderItemExtraApiModel {
    pub id: String,
    pub order_item_id: String,
    pub extra_id: String,
}

/// What it takes to link an item of an order to an extra.
#[derive(Clone, Debug, PartialEq, Eq)]
pub struct NewOrderItemExtra {
    pub order_item_id: String,
    pub extra_id: String,
}

/// What such a link is, whichever of its two forms holds it.
pub struct OrderItemExtraView {
    pub id: Seq<char>,
    pub order_item_id: Seq<char>,
    pub extra_id: Seq<char>,
}

impl View for OrderItemExtra {
    type V = OrderItemExtraView;

    open spec fn view(&self) -> OrderItemExtraView {
        OrderItemExtraView {
            id: self.id@,
            order_item_id: self.order_item_id@,
            extra_id: self.extra_id@,
        }
    }
}

impl View for OrderItemExtraApiModel {
    type V = OrderItemExtraView;

    open spec fn view(&self) -> OrderItemExtraView {
        OrderItemExtraView {
            id: self.id@,
            order_item_id: self.order_item_id@,
            extra_id: self.extra_id@,
        }
    }
}

impl OrderItemExtra {
    /// The link in the form that callers see.
    pub fn to_api_model(&self) -> (api: OrderItemExtraApiModel)
        ensures
            api@ == self@,
    {
        OrderItemExtraApiModel {
            id: self.id.clone(),
            order_item_id: self.order_item_id.clone(),
            extra_id: self.extra_id.clone(),
        }
    }

    /// A new link with the identifier `id`.
    pub fn from_new(new: NewOrderItemExtra, id: String) -> (link: OrderItemExtra)
        ensures
            link@ == (OrderItemExtraView {
                id: id@,
                order_item_id: new.order_item_id@,
                extra_id: new.extra_id@,
            }),
    {
        OrderItemExtra { id, order_item_id: new.order_item_id, extra_id: new.extra_id }
    }
}

impl From<OrderItemExtra> for OrderItemExtraApiModel {
    fn from(link: OrderItemExtra) -> (api: Self) {
        OrderItemExtraApiModel {
            id: link.id,
            order_item_id: link.order_item_id,
            extra_id: link.extra_id,
        }
    }
}

impl FromSpecImpl<OrderItemExtra> for OrderItemExtraApiModel {
    open spec fn obeys_from_spec() -> bool {
        true
    }

    open spec fn from_spec(link: OrderItemExtra) -> Self {
        OrderItemExtraApiModel {
            id: link.id,
            order_item_id: link.order_item_id,
            extra_id: link.extra_id,
        }
    }
}

} // verus!
