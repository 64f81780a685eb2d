//! Orders and the event that announces a created order.

use vstd::prelude::*;

use crate::clock::Timestamp;
use crate::ids::{OrderId, ProductId};
use crate::value_objects::{Quantity, ShippingFee, Subtotal, TaxAmount, TotalPrice};

verus! {

/// Where an order stands; a new order is pending.
#[derive(Clone, Copy, Debug, PartialEq, Eq, Structural)]
pub enum OrderStatus {
    Pending,
}

impl OrderStatus {
    /// The status of a new order.
    pub fn pending() -> (s: OrderStatus)
        ensures
            s == OrderStatus::Pending,
    {
        OrderStatus::Pending
    }

    /// The status as it is stored.
    pub fn as_str(&self) -> (s: &'static str)
        ensures
            s@ == "pending"@,
    {
        match self {
            OrderStatus::Pending => "pending",
        }
    }
}

/// An order of some items of one product.
#[derive(Clone, Copy, Debug, PartialEq, Eq, Structural)]
pub struct Order {
    pub id: OrderId,
    pub product_id: ProductId,
    pub quantity: Quantity,
    pub subtotal: Subtotal,
    pub tax_amount: TaxAmount,
    pub shipping_fee: ShippingFee,
    pub total_price: TotalPrice,
    pub status: OrderStatus,
    pub created_at: Timestamp,
}

/// The broker subject on which created orders are announced.
pub fn order_created_subject() -> (s: &'static str)
    ensures
        s@ == "orders.created"@,
{
    "orders.created"
}

/// The message published when an order has been created.
#[derive(Clone, Copy, Debug, PartialEq, Eq, Structural)]
pub struct OrderEvent {
    pub order_id: OrderId,
    pub product_id: ProductId,
    pub quantity: Quantity,
    pub subtotal: Subtotal,
    pub tax_amount: TaxAmount,
    pub shipping_fee: ShippingFee,
    pub total_price: TotalPrice,
    pub created_at: Timestamp,
}

} // verus!
