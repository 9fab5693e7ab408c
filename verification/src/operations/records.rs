//! The kinds of row that are listed and looked up as they are, without
//! operations of their own.

use vstd::prelude::*;
use crate::models::employee::{Employee, EmployeeApiModel, EmployeeView};
use crate::models::extra::{Extra, ExtraApiModel, ExtraView};
use crate::models::order::{Order, OrderApiModel, OrderView};
use crate::models::order_item_extras::{OrderItemExtra, OrderItemExtraApiModel, OrderItemExtraView};
use crate::models::order_items::{OrderItem, OrderItemApiModel, OrderItemView};
use crate::operations::Record;

verus! {

impl Record for Employee {
    type Api = EmployeeApiModel;

    open spec fn api_view(api: &EmployeeApiModel) -> EmployeeView {
        api@
    }

    open spec fn key(row: EmployeeView) -> Seq<char> {
        row.id
    }

    open spec fn deleted(row: EmployeeView) -> bool {
        row.deleted_at is Some
    }

    fn row_id(&self) -> (id: &str) {
        self.id.as_str()
    }

    fn row_deleted(&self) -> (b: bool) {
        self.is_deleted()
    }

    fn row_api_model(&self) -> (api: EmployeeApiModel) {
        self.to_api_model()
    }
}

impl Record for Extra {
    type Api = ExtraApiModel;

    open spec fn api_view(api: &ExtraApiModel) -> ExtraView {
        api@
    }

    open spec fn key(row: ExtraView) -> Seq<char> {
        row.id
    }

    open spec fn deleted(row: ExtraView) -> bool {
        false
    }

    fn row_id(&self) -> (id: &str) {
        self.id.as_str()
    }

    fn row_deleted(&self) -> (b: bool) {
        false
    }

    fn row_api_model(&self) -> (api: ExtraApiModel) {
        self.to_api_model()
    }
}

impl Record for Order {
    type Api = OrderApiModel;

    open spec fn api_view(api: &OrderApiModel) -> OrderView {
        api@
    }

    open spec fn key(row: OrderView) -> Seq<char> {
        row.id
    }

    open spec fn deleted(row: OrderView) -> bool {
        false
    }

    fn row_id(&self) -> (id: &str) {
        self.id.as_str()
    }

    fn row_deleted(&self) -> (b: bool) {
        false
    }

    fn row_api_model(&self) -> (api: OrderApiModel) {
        self.to_api_model()
    }
}

impl Record for OrderItem {
    type Api = OrderItemApiModel;

    open spec fn api_view(api: &OrderItemApiModel) -> OrderItemView {
        api@
    }

    open spec fn key(row: OrderItemView) -> Seq<char> {
        row.id
    }

    open spec fn deleted(row: OrderItemView) -> bool {
        false
    }

    fn row_id(&self) -> (id: &str) {
        self.id.as_str()
    }

    fn row_deleted(&self) -> (b: bool) {
        false
    }

    fn row_api_model(&self) -> (api: OrderItemApiModel) {
        self.to_api_model()
    }
}

impl Record for OrderItemExtra {
    type Api = OrderItemExtraApiModel;

    open spec fn api_view(api: &OrderItemExtraApiModel) -> OrderItemExtraView {
        api@
    }

    open spec fn key(row: OrderItemExtraView) -> Seq<char> {
        row.id
    }

    open spec fn deleted(row: OrderItemExtraView) -> bool {
        false
    }

    fn row_id(&self) -> (id: &str) {
        self.id.as_str()
    }

    fn row_deleted(&self) -> (b: bool) {
        false
    }

    fn row_api_model(&self) -> (api: OrderItemExtraApiModel) {
        self.to_api_model()
    }
}

} // verus!
