//! Creating an order, as a state machine. Each step takes the reply to
//! the action that the previous step asked for and gives the next state
//! and the next action; the caller performs the actions (reads of master
//! data and products, the tax arithmetic, writes, cache and broker calls)
//! and feeds the replies back until the action is `Finish`.

use vstd::prelude::*;

use crate::clock::{now, Timestamp};
use crate::error::{AppError, Failure};
use crate::master_data::MasterDataKey;
use crate::ids::{is_random_uuid, OrderId, ProductId};
use crate::order::{Order, OrderEvent, OrderStatus};
use crate::product::Product;
use crate::text::{parse_i32, parse_i64, parsed_integer};
use crate::value_objects::{
    total_fits, Price, Quantity, ShippingFee, Subtotal, TaxAmount, TotalPrice,
};

verus! {

/// What was asked for: the product and quantity, and the identifier and
/// creation time that the new order gets.
#[derive(Clone, Copy, Debug, PartialEq, Eq, Structural)]
pub struct OrderRequest {
    pub product_id: ProductId,
    pub quantity: Quantity,
    pub order_id: OrderId,
    pub created_at: Timestamp,
}

/// The facts checked before an order is priced: the configured maximum
/// quantity and the product's price and stock.
#[derive(Clone, Copy, Debug, PartialEq, Eq, Structural)]
pub struct Admission {
    pub max_quantity: i32,
    pub price: Price,
    pub stock: Quantity,
}

/// The answer of the tax rate check: the text is a valid rate, it is no
/// number, or the rate was refused with a message.
#[derive(Debug)]
pub enum TaxRateCheck {
    Accepted,
    Unparsable,
    Rejected(String),
}

/// A reply to the action that the flow asked for.
#[derive(Debug)]
pub enum OrderReply {
    /// Answer to `ReadMasterData`: the entry's text, if it is set.
    MasterData(Result<Option<String>, AppError>),
    /// Answer to `LoadProduct`.
    Product(Result<Option<Product>, AppError>),
    /// Answer to `CheckTaxRate`.
    TaxRate(TaxRateCheck),
    /// Answer to `ComputeTax`.
    Tax(TaxAmount),
    /// Answer to `StoreOrder`: the order as stored.
    Stored(Result<Order, AppError>),
    /// Answer to `AdjustStock`.
    StockAdjusted(Result<(), AppError>),
    /// Answer to `InvalidateProductCache`.
    CacheInvalidated(Result<(), AppError>),
    /// Answer to `PublishOrderCreated`.
    Published(Result<(), AppError>),
}

/// What the flow asks the caller to do next.
#[derive(Debug)]
pub enum OrderAction {
    /// Read a master data entry.
    ReadMasterData(MasterDataKey),
    /// Load a product by identifier.
    LoadProduct(ProductId),
    /// Check that a tax rate text is a valid rate.
    CheckTaxRate(String),
    /// Compute the tax on a subtotal at a (checked) tax rate.
    ComputeTax { subtotal: Subtotal, rate: String },
    /// Store a new order.
    StoreOrder(Order),
    /// Change a product's stock by `delta`.
    AdjustStock { product_id: ProductId, delta: i32 },
    /// Drop the cached product data.
    InvalidateProductCache,
    /// Announce a created order.
    PublishOrderCreated(OrderEvent),
    /// The flow is over, with this outcome.
    Finish(Result<Order, Failure>),
}

/// Where the creation of an order stands.
#[derive(Debug)]
pub enum OrderFlow {
    AwaitingMaxQuantity { request: OrderRequest },
    AwaitingProduct { request: OrderRequest, max_quantity: i32 },
    AwaitingTaxRate { request: OrderRequest, admission: Admission },
    CheckingTaxRate { request: OrderRequest, admission: Admission, rate: String },
    AwaitingShippingFee { request: OrderRequest, admission: Admission, rate: String },
    ComputingTax {
        request: OrderRequest,
        admission: Admission,
        subtotal: Subtotal,
        shipping_fee: ShippingFee,
    },
    Storing { request: OrderRequest, admission: Admission, order: Order },
    AdjustingStock { request: OrderRequest, admission: Admission, order: Order, created: Order },
    InvalidatingCache { request: OrderRequest, admission: Admission, order: Order, created: Order },
    Publishing { created: Order },
    Done,
}

/// The end of the flow with a failure.
pub open spec fn failed(f: Failure) -> (OrderFlow, OrderAction) {
    (OrderFlow::Done, OrderAction::Finish(Err(f)))
}

/// The order that a request gets, priced with these amounts.
pub open spec fn priced_order(
    request: OrderRequest,
    subtotal: Subtotal,
    tax: TaxAmount,
    shipping_fee: ShippingFee,
) -> Order {
    Order {
        id: request.order_id,
        product_id: request.product_id,
        quantity: request.quantity,
        subtotal: subtotal,
        tax_amount: tax,
        shipping_fee: shipping_fee,
        total_price: TotalPrice((subtotal.0 + tax.0 + shipping_fee.0) as i64),
        status: OrderStatus::Pending,
        created_at: request.created_at,
    }
}

/// The event that announces `created`, with the amounts it was priced with.
pub open spec fn created_event(order: Order, created: Order) -> OrderEvent {
    OrderEvent {
        order_id: created.id,
        product_id: order.product_id,
        quantity: order.quantity,
        subtotal: order.subtotal,
        tax_amount: order.tax_amount,
        shipping_fee: order.shipping_fee,
        total_price: order.total_price,
        created_at: order.created_at,
    }
}

/// The value of a master data text read as an `i32`.
pub open spec fn as_i32(t: String) -> Option<int> {
    parsed_integer(t@, true, i32::MIN as int, i32::MAX as int)
}

/// The value of a master data text read as an `i64`.
pub open spec fn as_i64(t: String) -> Option<int> {
    parsed_integer(t@, true, i64::MIN as int, i64::MAX as int)
}

/// One step of order creation: the next state and action, given the reply
/// to the last action.
pub open spec fn next(flow: OrderFlow, reply: OrderReply) -> (OrderFlow, OrderAction) {
    match flow {
        OrderFlow::AwaitingMaxQuantity { request } => match reply {
            OrderReply::MasterData(Err(e)) => failed(Failure::Upstream(e)),
            OrderReply::MasterData(Ok(None)) => failed(
                Failure::MasterDataMissing(MasterDataKey::MaxOrderQuantity),
            ),
            OrderReply::MasterData(Ok(Some(t))) => match as_i32(t) {
                None => failed(Failure::MasterDataInvalid(MasterDataKey::MaxOrderQuantity)),
                Some(max) => if request.quantity.0 > max {
                    failed(
                        Failure::QuantityAboveMaximum {
                            max: max as i32,
                            requested: request.quantity.0,
                        },
                    )
                } else {
                    (
                        OrderFlow::AwaitingProduct { request, max_quantity: max as i32 },
                        OrderAction::LoadProduct(request.product_id),
                    )
                },
            },
            _ => failed(Failure::UnexpectedReply),
        },
        OrderFlow::AwaitingProduct { request, max_quantity } => match reply {
            OrderReply::Product(Err(e)) => failed(Failure::Upstream(e)),
            OrderReply::Product(Ok(None)) => failed(Failure::ProductNotFound(request.product_id)),
            OrderReply::Product(Ok(Some(p))) => if p.stock.0 < request.quantity.0 {
                failed(
                    Failure::InsufficientStock {
                        available: p.stock.0,
                        requested: request.quantity.0,
                    },
                )
            } else {
                (
                    OrderFlow::AwaitingTaxRate {
                        request,
                        admission: Admission { max_quantity, price: p.price, stock: p.stock },
                    },
                    OrderAction::ReadMasterData(MasterDataKey::TaxRate),
                )
            },
            _ => failed(Failure::UnexpectedReply),
        },
        OrderFlow::AwaitingTaxRate { request, admission } => match reply {
            OrderReply::MasterData(Err(e)) => failed(Failure::Upstream(e)),
            OrderReply::MasterData(Ok(None)) => failed(
                Failure::MasterDataMissing(MasterDataKey::TaxRate),
            ),
            OrderReply::MasterData(Ok(Some(t))) => (
                OrderFlow::CheckingTaxRate { request, admission, rate: t },
                OrderAction::CheckTaxRate(t),
            ),
            _ => failed(Failure::UnexpectedReply),
        },
        OrderFlow::CheckingTaxRate { request, admission, rate } => match reply {
            OrderReply::TaxRate(TaxRateCheck::Accepted) => (
                OrderFlow::AwaitingShippingFee { request, admission, rate },
                OrderAction::ReadMasterData(MasterDataKey::ShippingFee),
            ),
            OrderReply::TaxRate(TaxRateCheck::Unparsable) => failed(
                Failure::MasterDataInvalid(MasterDataKey::TaxRate),
            ),
            OrderReply::TaxRate(TaxRateCheck::Rejected(m)) => failed(Failure::TaxRateRejected(m)),
            _ => failed(Failure::UnexpectedReply),
        },
        OrderFlow::AwaitingShippingFee { request, admission, rate } => match reply {
            OrderReply::MasterData(Err(e)) => failed(Failure::Upstream(e)),
            OrderReply::MasterData(Ok(None)) => failed(
                Failure::MasterDataMissing(MasterDataKey::ShippingFee),
            ),
            OrderReply::MasterData(Ok(Some(t))) => match as_i64(t) {
                None => failed(Failure::MasterDataInvalid(MasterDataKey::ShippingFee)),
                Some(fee) => if fee < 0 {
                    failed(Failure::ShippingFeeNegative)
                } else {
                    let subtotal = Subtotal((admission.price.0 * request.quantity.0) as i64);
                    (
                        OrderFlow::ComputingTax {
                            request,
                            admission,
                            subtotal,
                            shipping_fee: ShippingFee(fee as i64),
                        },
                        OrderAction::ComputeTax { subtotal, rate },
                    )
                },
            },
            _ => failed(Failure::UnexpectedReply),
        },
        OrderFlow::ComputingTax { request, admission, subtotal, shipping_fee } => match reply {
            OrderReply::Tax(tax) => if total_fits(subtotal, tax, shipping_fee) {
                let order = priced_order(request, subtotal, tax, shipping_fee);
                (OrderFlow::Storing { request, admission, order }, OrderAction::StoreOrder(order))
            } else {
                failed(Failure::TotalOverflow)
            },
            _ => failed(Failure::UnexpectedReply),
        },
        OrderFlow::Storing { request, admission, order } => match reply {
            OrderReply::Stored(Err(e)) => failed(Failure::Upstream(e)),
            OrderReply::Stored(Ok(created)) => (
                OrderFlow::AdjustingStock { request, admission, order, created },
                OrderAction::AdjustStock {
                    product_id: request.product_id,
                    delta: (-request.quantity.0) as i32,
                },
            ),
            _ => failed(Failure::UnexpectedReply),
        },
        OrderFlow::AdjustingStock { request, admission, order, created } => match reply {
            OrderReply::StockAdjusted(Err(e)) => failed(Failure::Upstream(e)),
            OrderReply::StockAdjusted(Ok(())) => (
                OrderFlow::InvalidatingCache { request, admission, order, created },
                OrderAction::InvalidateProductCache,
            ),
            _ => failed(Failure::UnexpectedReply),
        },
        OrderFlow::InvalidatingCache { request, admission, order, created } => match reply {
            OrderReply::CacheInvalidated(_) => (
                OrderFlow::Publishing { created },
                OrderAction::PublishOrderCreated(created_event(order, created)),
            ),
            _ => failed(Failure::UnexpectedReply),
        },
        OrderFlow::Publishing { created } => match reply {
            OrderReply::Published(_) => (OrderFlow::Done, OrderAction::Finish(Ok(created))),
            _ => failed(Failure::UnexpectedReply),
        },
        OrderFlow::Done => failed(Failure::UnexpectedReply),
    }
}

/// Whether a step stays within the machine's integers: pricing multiplies
/// price and quantity, and adjusting the stock negates the quantity.
pub open spec fn step_in_range(flow: OrderFlow, reply: OrderReply) -> bool {
    match flow {
        OrderFlow::AwaitingShippingFee { request, admission, .. } => match reply {
            OrderReply::MasterData(Ok(Some(t))) => match as_i64(t) {
                Some(fee) => fee >= 0 ==> i64::MIN <= admission.price.0 * request.quantity.0
                    <= i64::MAX,
                None => true,
            },
            _ => true,
        },
        OrderFlow::Storing { request, .. } => match reply {
            OrderReply::Stored(Ok(_)) => request.quantity.0 != i32::MIN,
            _ => true,
        },
        _ => true,
    }
}

/// The first state and action for a request.
pub open spec fn opening(request: OrderRequest) -> (OrderFlow, OrderAction) {
    (
        OrderFlow::AwaitingMaxQuantity { request },
        OrderAction::ReadMasterData(MasterDataKey::MaxOrderQuantity),
    )
}

/// Starts creating an order of `quantity` items of a product, with a fresh
/// order identifier and the present time.
pub fn begin(product_id: ProductId, quantity: Quantity) -> (res: (OrderFlow, OrderAction))
    ensures
        exists|request: OrderRequest|
            {
                &&& request.product_id == product_id
                &&& request.quantity == quantity
                &&& is_random_uuid(request.order_id.0)
                &&& request.created_at.secs >= 0
                &&& request.created_at.nanos < 1_000_000_000
                &&& res == opening(request)
            },
{
    let request = OrderRequest {
        product_id,
        quantity,
        order_id: OrderId::new(),
        created_at: now(),
    };
    begin_with(request)
}

/// Starts creating the order that `request` describes.
pub fn begin_with(request: OrderRequest) -> (res: (OrderFlow, OrderAction))
    ensures
        res == opening(request),
{
    (
        OrderFlow::AwaitingMaxQuantity { request },
        OrderAction::ReadMasterData(MasterDataKey::MaxOrderQuantity),
    )
}

impl OrderFlow {
    /// Whether `step` can take `reply` without overflowing; where it cannot,
    /// the arithmetic of the order would overflow.
    pub fn can_take(&self, reply: &OrderReply) -> (ok: bool)
        ensures
            ok == step_in_range(*self, *reply),
    {
        match self {
            OrderFlow::AwaitingShippingFee { request, admission, .. } => match reply {
                OrderReply::MasterData(Ok(Some(t))) => match parse_i64(t.as_str()) {
                    Some(fee) => {
                        if fee < 0 {
                            true
                        } else {
                            let a = admission.price.0 as i128;
                            let b = request.quantity.0 as i128;
                            assert(-0x8000_0000_0000_0000_0000_0000i128 <= a * b
                                <= 0x8000_0000_0000_0000_0000_0000i128) by (nonlinear_arith)
                                requires
                                    -0x8000_0000_0000_0000 <= a <= 0x8000_0000_0000_0000,
                                    -0x8000_0000 <= b <= 0x8000_0000,
                            ;
                            let product = a * b;
                            i64::MIN as i128 <= product && product <= i64::MAX as i128
                        }
                    },
                    None => true,
                },
                _ => true,
            },
            OrderFlow::Storing { request, .. } => match reply {
                OrderReply::Stored(Ok(_)) => request.quantity.0 != i32::MIN,
                _ => true,
            },
            _ => true,
        }
    }

    /// Takes the reply to the last action and gives the next state and
    /// action.
    pub fn step(self, reply: OrderReply) -> (res: (OrderFlow, OrderAction))
        requires
            step_in_range(self, reply),
        ensures
            res == next(self, reply),
    {
        match self {
            OrderFlow::AwaitingMaxQuantity { request } => match reply {
                OrderReply::MasterData(Err(e)) => fail(Failure::Upstream(e)),
                OrderReply::MasterData(Ok(None)) => fail(
                    Failure::MasterDataMissing(MasterDataKey::MaxOrderQuantity),
                ),
                OrderReply::MasterData(Ok(Some(t))) => match parse_i32(t.as_str()) {
                    None => fail(Failure::MasterDataInvalid(MasterDataKey::MaxOrderQuantity)),
                    Some(max) => {
                        if request.quantity.0 > max {
                            fail(
                                Failure::QuantityAboveMaximum {
                                    max,
                                    requested: request.quantity.0,
                                },
                            )
                        } else {
                            (
                                OrderFlow::AwaitingProduct { request, max_quantity: max },
                                OrderAction::LoadProduct(request.product_id),
                            )
                        }
                    },
                },
                _ => fail(Failure::UnexpectedReply),
            },
            OrderFlow::AwaitingProduct { request, max_quantity } => match reply {
                OrderReply::Product(Err(e)) => fail(Failure::Upstream(e)),
                OrderReply::Product(Ok(None)) => fail(Failure::ProductNotFound(request.product_id)),
                OrderReply::Product(Ok(Some(p))) => {
                    if p.stock.0 < request.quantity.0 {
                        fail(
                            Failure::InsufficientStock {
                                available: p.stock.0,
                                requested: request.quantity.0,
                            },
                        )
                    } else {
                        (
                            OrderFlow::AwaitingTaxRate {
                                request,
                                admission: Admission {
                                    max_quantity,
                                    price: p.price,
                                    stock: p.stock,
                                },
                            },
                            OrderAction::ReadMasterData(MasterDataKey::TaxRate),
                        )
                    }
                },
                _ => fail(Failure::UnexpectedReply),
            },
            OrderFlow::AwaitingTaxRate { request, admission } => match reply {
                OrderReply::MasterData(Err(e)) => fail(Failure::Upstream(e)),
                OrderReply::MasterData(Ok(None)) => fail(
                    Failure::MasterDataMissing(MasterDataKey::TaxRate),
                ),
                OrderReply::MasterData(Ok(Some(t))) => {
                    let asked = t.clone();
                    (
                        OrderFlow::CheckingTaxRate { request, admission, rate: t },
                        OrderAction::CheckTaxRate(asked),
                    )
                },
                _ => fail(Failure::UnexpectedReply),
            },
            OrderFlow::CheckingTaxRate { request, admission, rate } => match reply {
                OrderReply::TaxRate(TaxRateCheck::Accepted) => (
                    OrderFlow::AwaitingShippingFee { request, admission, rate },
                    OrderAction::ReadMasterData(MasterDataKey::ShippingFee),
                ),
                OrderReply::TaxRate(TaxRateCheck::Unparsable) => fail(
                    Failure::MasterDataInvalid(MasterDataKey::TaxRate),
                ),
                OrderReply::TaxRate(TaxRateCheck::Rejected(m)) => fail(Failure::TaxRateRejected(m)),
                _ => fail(Failure::UnexpectedReply),
            },
            OrderFlow::AwaitingShippingFee { request, admission, rate } => match reply {
                OrderReply::MasterData(Err(e)) => fail(Failure::Upstream(e)),
                OrderReply::MasterData(Ok(None)) => fail(
                    Failure::MasterDataMissing(MasterDataKey::ShippingFee),
                ),
                OrderReply::MasterData(Ok(Some(t))) => match parse_i64(t.as_str()) {
                    None => fail(Failure::MasterDataInvalid(MasterDataKey::ShippingFee)),
                    Some(fee) => {
                        if fee < 0 {
                            fail(Failure::ShippingFeeNegative)
                        } else {
                            let subtotal = admission.price.mul(request.quantity);
                            (
                                OrderFlow::ComputingTax {
                                    request,
                                    admission,
                                    subtotal,
                                    shipping_fee: ShippingFee(fee),
                                },
                                OrderAction::ComputeTax { subtotal, rate },
                            )
                        }
                    },
                },
                _ => fail(Failure::UnexpectedReply),
            },
            OrderFlow::ComputingTax { request, admission, subtotal, shipping_fee } => match reply {
                OrderReply::Tax(tax) => match TotalPrice::calculate(subtotal, tax, shipping_fee) {
                    Ok(total_price) => {
                        let order = Order {
                            id: request.order_id,
                            product_id: request.product_id,
                            quantity: request.quantity,
                            subtotal,
                            tax_amount: tax,
                            shipping_fee,
                            total_price,
                            status: OrderStatus::pending(),
                            created_at: request.created_at,
                        };
                        (
                            OrderFlow::Storing { request, admission, order },
                            OrderAction::StoreOrder(order),
                        )
                    },
                    Err(_) => fail(Failure::TotalOverflow),
                },
                _ => fail(Failure::UnexpectedReply),
            },
            OrderFlow::Storing { request, admission, order } => match reply {
                OrderReply::Stored(Err(e)) => fail(Failure::Upstream(e)),
                OrderReply::Stored(Ok(created)) => {
                    let delta = request.quantity.as_negative_i32();
                    (
                        OrderFlow::AdjustingStock { request, admission, order, created },
                        OrderAction::AdjustStock { product_id: request.product_id, delta },
                    )
                },
                _ => fail(Failure::UnexpectedReply),
            },
            OrderFlow::AdjustingStock { request, admission, order, created } => match reply {
                OrderReply::StockAdjusted(Err(e)) => fail(Failure::Upstream(e)),
                OrderReply::StockAdjusted(Ok(())) => (
                    OrderFlow::InvalidatingCache { request, admission, order, created },
                    OrderAction::InvalidateProductCache,
                ),
                _ => fail(Failure::UnexpectedReply),
            },
            OrderFlow::InvalidatingCache { request, admission, order, created } => match reply {
                OrderReply::CacheInvalidated(_) => {
                    let event = OrderEvent {
                        order_id: created.id,
                        product_id: order.product_id,
                        quantity: order.quantity,
                        subtotal: order.subtotal,
                        tax_amount: order.tax_amount,
                        shipping_fee: order.shipping_fee,
                        total_price: order.total_price,
                        created_at: order.created_at,
                    };
                    (OrderFlow::Publishing { created }, OrderAction::PublishOrderCreated(event))
                },
                _ => fail(Failure::UnexpectedReply),
            },
            OrderFlow::Publishing { created } => match reply {
                OrderReply::Published(_) => (OrderFlow::Done, OrderAction::Finish(Ok(created))),
                _ => fail(Failure::UnexpectedReply),
            },
            OrderFlow::Done => fail(Failure::UnexpectedReply),
        }
    }
}

/// The answer to looking up an order: the order where the store has it,
/// `OrderNotFound` where it has none, the store's error where it failed.
pub fn order_lookup(id: OrderId, found: Result<Option<Order>, AppError>) -> (res: Result<
    Order,
    Failure,
>)
    ensures
        found matches Ok(Some(o)) ==> res == Ok::<Order, Failure>(o),
        found matches Ok(None) ==> res == Err::<Order, Failure>(Failure::OrderNotFound(id)),
        found matches Err(e) ==> res == Err::<Order, Failure>(Failure::Upstream(e)),
{
    match found {
        Ok(Some(o)) => Ok(o),
        Ok(None) => Err(Failure::OrderNotFound(id)),
        Err(e) => Err(Failure::Upstream(e)),
    }
}

/// The request passed the checks: no more than the configured maximum and
/// no more than the product's stock.
pub open spec fn admitted(request: OrderRequest, admission: Admission) -> bool {
    &&& request.quantity.0 <= admission.max_quantity
    &&& request.quantity.0 <= admission.stock.0
}

/// An order priced for a request: it carries the request's identifiers,
/// quantity and time, is pending, its subtotal is price times quantity,
/// its shipping fee is not negative, and its total is the sum of subtotal,
/// tax and shipping fee.
pub open spec fn priced_for(order: Order, request: OrderRequest, admission: Admission) -> bool {
    &&& order.id == request.order_id
    &&& order.product_id == request.product_id
    &&& order.quantity == request.quantity
    &&& order.status == OrderStatus::Pending
    &&& order.created_at == request.created_at
    &&& order.subtotal.0 == admission.price.0 * request.quantity.0
    &&& order.shipping_fee.0 >= 0
    &&& order.total_price.0 == order.subtotal.0 + order.tax_amount.0 + order.shipping_fee.0
}

/// What holds of every state that the flow reaches from its start.
pub open spec fn consistent(flow: OrderFlow) -> bool {
    match flow {
        OrderFlow::AwaitingMaxQuantity { .. } => true,
        OrderFlow::AwaitingProduct { request, max_quantity } => request.quantity.0 <= max_quantity,
        OrderFlow::AwaitingTaxRate { request, admission } => admitted(request, admission),
        OrderFlow::CheckingTaxRate { request, admission, .. } => admitted(request, admission),
        OrderFlow::AwaitingShippingFee { request, admission, .. } => admitted(request, admission),
        OrderFlow::ComputingTax { request, admission, subtotal, shipping_fee } => {
            &&& admitted(request, admission)
            &&& subtotal.0 == admission.price.0 * request.quantity.0
            &&& shipping_fee.0 >= 0
        },
        OrderFlow::Storing { request, admission, order } => {
            &&& admitted(request, admission)
            &&& priced_for(order, request, admission)
        },
        OrderFlow::AdjustingStock { request, admission, order, .. } => {
            &&& admitted(request, admission)
            &&& priced_for(order, request, admission)
        },
        OrderFlow::InvalidatingCache { request, admission, order, .. } => {
            &&& admitted(request, admission)
            &&& priced_for(order, request, admission)
        },
        OrderFlow::Publishing { .. } => true,
        OrderFlow::Done => true,
    }
}

/// The states before the order is stored.
pub open spec fn before_store(flow: OrderFlow) -> bool {
    ||| flow is AwaitingMaxQuantity
    ||| flow is AwaitingProduct
    ||| flow is AwaitingTaxRate
    ||| flow is CheckingTaxRate
    ||| flow is AwaitingShippingFee
    ||| flow is ComputingTax
}

/// Actions that change stored data or announce something.
pub open spec fn writes(action: OrderAction) -> bool {
    ||| action is StoreOrder
    ||| action is AdjustStock
    ||| action is InvalidateProductCache
    ||| action is PublishOrderCreated
}

/// Every state that the flow reaches from its start is consistent: the
/// start is, and each step keeps it.
pub proof fn law_steps_keep_consistency(flow: OrderFlow, reply: OrderReply, request: OrderRequest)
    ensures
        consistent(opening(request).0),
        consistent(flow) && step_in_range(flow, reply) ==> consistent(next(flow, reply).0),
{
}

/// An order is stored only when the quantity is within the configured
/// maximum and the product's stock, priced at the product's price with
/// the total as the sum of subtotal, tax and shipping fee.
pub proof fn law_stored_orders_are_priced(flow: OrderFlow, reply: OrderReply)
    requires
        consistent(flow),
        step_in_range(flow, reply),
    ensures
        next(flow, reply).1 matches OrderAction::StoreOrder(o) ==> next(flow, reply).0 matches OrderFlow::Storing { request, admission, order } && order == o
            && admitted(request, admission) && priced_for(o, request, admission),
{
}

/// Before the order is stored nothing is written: the only write a state
/// before storing asks for is storing the order itself, from the tax step.
pub proof fn law_no_write_before_store(flow: OrderFlow, reply: OrderReply)
    requires
        before_store(flow),
    ensures
        writes(next(flow, reply).1) ==> flow is ComputingTax && next(flow, reply).1 is StoreOrder,
{
}

/// The stock is adjusted only after the order was stored, for the ordered
/// product, by the ordered quantity taken away.
pub proof fn law_stock_taken_by_quantity(flow: OrderFlow, reply: OrderReply)
    requires
        step_in_range(flow, reply),
    ensures
        next(flow, reply).1 matches OrderAction::AdjustStock { product_id, delta } ==> flow matches OrderFlow::Storing { request, .. }
            && reply matches OrderReply::Stored(Ok(_)) && product_id == request.product_id
            && delta == -request.quantity.0,
{
}

/// Failing to drop the cache or to publish the event changes nothing: the
/// flow goes on, and finishes with the order as it was stored.
pub proof fn law_cache_and_publish_are_best_effort(
    request: OrderRequest,
    admission: Admission,
    order: Order,
    created: Order,
    first: Result<(), AppError>,
    second: Result<(), AppError>,
)
    ensures
        next(OrderFlow::InvalidatingCache { request, admission, order, created }, OrderReply::CacheInvalidated(first))
            == next(OrderFlow::InvalidatingCache { request, admission, order, created }, OrderReply::CacheInvalidated(second)),
        next(OrderFlow::Publishing { created }, OrderReply::Published(first)) == (
            OrderFlow::Done,
            OrderAction::Finish(Ok::<Order, Failure>(created)),
        ),
{
}

/// The published event names the stored order and carries the amounts the
/// order was priced with, whose total is their sum.
pub proof fn law_event_matches_order(flow: OrderFlow, reply: OrderReply)
    requires
        consistent(flow),
    ensures
        next(flow, reply).1 matches OrderAction::PublishOrderCreated(ev) ==> flow matches OrderFlow::InvalidatingCache { request, created, .. }
            && ev.order_id == created.id && ev.product_id == request.product_id && ev.quantity
            == request.quantity && ev.total_price.0 == ev.subtotal.0 + ev.tax_amount.0
            + ev.shipping_fee.0,
{
}

/// The stock check: an order for more than the product's stock is refused
/// with the stock and the quantity asked for, and nothing follows; an order
/// within the stock goes on to read the tax rate, recording the product's
/// own price and stock and the configured maximum.
pub proof fn law_stock_check(request: OrderRequest, max_quantity: i32, p: Product)
    ensures
        p.stock.0 < request.quantity.0 ==> next(
            OrderFlow::AwaitingProduct { request, max_quantity },
            OrderReply::Product(Ok(Some(p))),
        ) == (
            OrderFlow::Done,
            OrderAction::Finish(
                Err::<Order, Failure>(
                    Failure::InsufficientStock {
                        available: p.stock.0,
                        requested: request.quantity.0,
                    },
                ),
            ),
        ),
        request.quantity.0 <= p.stock.0 ==> next(
            OrderFlow::AwaitingProduct { request, max_quantity },
            OrderReply::Product(Ok(Some(p))),
        ) == (
            OrderFlow::AwaitingTaxRate {
                request,
                admission: Admission { max_quantity, price: p.price, stock: p.stock },
            },
            OrderAction::ReadMasterData(MasterDataKey::TaxRate),
        ),
        next(OrderFlow::AwaitingProduct { request, max_quantity }, OrderReply::Product(Ok(None)))
            == (
            OrderFlow::Done,
            OrderAction::Finish(Err::<Order, Failure>(Failure::ProductNotFound(request.product_id))),
        ),
{
}

/// The maximum check: an order for more than the configured maximum is
/// refused with the maximum and the quantity asked for; an order within it
/// goes on to load the product.
pub proof fn law_maximum_check(request: OrderRequest, t: String, max: int)
    requires
        parsed_integer(t@, true, i32::MIN as int, i32::MAX as int) == Some(max),
    ensures
        request.quantity.0 > max ==> next(
            OrderFlow::AwaitingMaxQuantity { request },
            OrderReply::MasterData(Ok(Some(t))),
        ) == (
            OrderFlow::Done,
            OrderAction::Finish(
                Err::<Order, Failure>(
                    Failure::QuantityAboveMaximum {
                        max: max as i32,
                        requested: request.quantity.0,
                    },
                ),
            ),
        ),
        request.quantity.0 <= max ==> next(
            OrderFlow::AwaitingMaxQuantity { request },
            OrderReply::MasterData(Ok(Some(t))),
        ) == (
            OrderFlow::AwaitingProduct { request, max_quantity: max as i32 },
            OrderAction::LoadProduct(request.product_id),
        ),
{
}

/// A failed read or write ends the flow with that call's error, in every
/// step that waits for one, except dropping the cache and publishing,
/// which are best effort.
pub proof fn law_failed_calls_pass_their_error_on(
    request: OrderRequest,
    max_quantity: i32,
    admission: Admission,
    rate: String,
    order: Order,
    created: Order,
    e: AppError,
)
    ensures
        next(OrderFlow::AwaitingMaxQuantity { request }, OrderReply::MasterData(Err(e)))
            == failed(Failure::Upstream(e)),
        next(OrderFlow::AwaitingProduct { request, max_quantity }, OrderReply::Product(Err(e)))
            == failed(Failure::Upstream(e)),
        next(OrderFlow::AwaitingTaxRate { request, admission }, OrderReply::MasterData(Err(e)))
            == failed(Failure::Upstream(e)),
        next(
            OrderFlow::AwaitingShippingFee { request, admission, rate },
            OrderReply::MasterData(Err(e)),
        ) == failed(Failure::Upstream(e)),
        next(OrderFlow::Storing { request, admission, order }, OrderReply::Stored(Err(e)))
            == failed(Failure::Upstream(e)),
        next(
            OrderFlow::AdjustingStock { request, admission, order, created },
            OrderReply::StockAdjusted(Err(e)),
        ) == failed(Failure::Upstream(e)),
        failed(Failure::Upstream(e)) == (
            OrderFlow::Done,
            OrderAction::Finish(Err::<Order, Failure>(Failure::Upstream(e))),
        ),
{
}

/// Pricing: with a shipping fee that is a number and not negative, the
/// subtotal is the product's price times the quantity and the tax is asked
/// for on it; a negative fee is refused. Given the tax, the order that is
/// stored carries the request's identifiers, quantity and time, that
/// subtotal, tax and fee, is pending, and its total is their sum; a sum
/// that overflows is refused.
pub proof fn law_pricing(
    request: OrderRequest,
    admission: Admission,
    rate: String,
    t: String,
    fee: int,
    subtotal: Subtotal,
    shipping_fee: ShippingFee,
    tax: TaxAmount,
)
    requires
        parsed_integer(t@, true, i64::MIN as int, i64::MAX as int) == Some(fee),
    ensures
        fee < 0 ==> next(
            OrderFlow::AwaitingShippingFee { request, admission, rate },
            OrderReply::MasterData(Ok(Some(t))),
        ) == (
            OrderFlow::Done,
            OrderAction::Finish(Err::<Order, Failure>(Failure::ShippingFeeNegative)),
        ),
        fee >= 0 ==> (next(
            OrderFlow::AwaitingShippingFee { request, admission, rate },
            OrderReply::MasterData(Ok(Some(t))),
        ) matches (OrderFlow::ComputingTax { request: r, admission: a, subtotal: s, shipping_fee: f }, OrderAction::ComputeTax { subtotal: asked, rate: asked_rate })
            && r == request && a == admission && s.0 == (admission.price.0 * request.quantity.0) as i64
            && f.0 == fee && asked == s && asked_rate == rate),
        !(i64::MIN <= subtotal.0 + tax.0 <= i64::MAX && i64::MIN <= subtotal.0 + tax.0
            + shipping_fee.0 <= i64::MAX) ==> next(
            OrderFlow::ComputingTax { request, admission, subtotal, shipping_fee },
            OrderReply::Tax(tax),
        ) == (OrderFlow::Done, OrderAction::Finish(Err::<Order, Failure>(Failure::TotalOverflow))),
        (i64::MIN <= subtotal.0 + tax.0 <= i64::MAX && i64::MIN <= subtotal.0 + tax.0
            + shipping_fee.0 <= i64::MAX) ==> (next(
            OrderFlow::ComputingTax { request, admission, subtotal, shipping_fee },
            OrderReply::Tax(tax),
        ).1 matches OrderAction::StoreOrder(o) && o.id == request.order_id && o.product_id
            == request.product_id && o.quantity == request.quantity && o.subtotal == subtotal
            && o.tax_amount == tax && o.shipping_fee == shipping_fee && o.total_price.0
            == subtotal.0 + tax.0 + shipping_fee.0 && o.status == OrderStatus::Pending
            && o.created_at == request.created_at),
{
}

/// Master data that is not set is reported missing under its own key, and
/// a value that is no number of the expected type invalid under its own
/// key; the tax rate goes on to be checked as it was read, and the check's
/// answer decides: accepted goes on to the shipping fee, not a number is
/// an invalid tax rate, refused keeps the refusal's message.
pub proof fn law_master_data_refusals(
    request: OrderRequest,
    max_quantity: i32,
    admission: Admission,
    rate: String,
    t: String,
    m: String,
)
    ensures
        next(OrderFlow::AwaitingMaxQuantity { request }, OrderReply::MasterData(Ok(None)))
            == failed(Failure::MasterDataMissing(MasterDataKey::MaxOrderQuantity)),
        parsed_integer(t@, true, i32::MIN as int, i32::MAX as int) is None ==> next(
            OrderFlow::AwaitingMaxQuantity { request },
            OrderReply::MasterData(Ok(Some(t))),
        ) == failed(Failure::MasterDataInvalid(MasterDataKey::MaxOrderQuantity)),
        next(OrderFlow::AwaitingTaxRate { request, admission }, OrderReply::MasterData(Ok(None)))
            == failed(Failure::MasterDataMissing(MasterDataKey::TaxRate)),
        next(OrderFlow::AwaitingTaxRate { request, admission }, OrderReply::MasterData(Ok(Some(t))))
            == (
            OrderFlow::CheckingTaxRate { request, admission, rate: t },
            OrderAction::CheckTaxRate(t),
        ),
        next(
            OrderFlow::CheckingTaxRate { request, admission, rate },
            OrderReply::TaxRate(TaxRateCheck::Accepted),
        ) == (
            OrderFlow::AwaitingShippingFee { request, admission, rate },
            OrderAction::ReadMasterData(MasterDataKey::ShippingFee),
        ),
        next(
            OrderFlow::CheckingTaxRate { request, admission, rate },
            OrderReply::TaxRate(TaxRateCheck::Unparsable),
        ) == failed(Failure::MasterDataInvalid(MasterDataKey::TaxRate)),
        next(
            OrderFlow::CheckingTaxRate { request, admission, rate },
            OrderReply::TaxRate(TaxRateCheck::Rejected(m)),
        ) == failed(Failure::TaxRateRejected(m)),
        next(
            OrderFlow::AwaitingShippingFee { request, admission, rate },
            OrderReply::MasterData(Ok(None)),
        ) == failed(Failure::MasterDataMissing(MasterDataKey::ShippingFee)),
        parsed_integer(t@, true, i64::MIN as int, i64::MAX as int) is None ==> next(
            OrderFlow::AwaitingShippingFee { request, admission, rate },
            OrderReply::MasterData(Ok(Some(t))),
        ) == failed(Failure::MasterDataInvalid(MasterDataKey::ShippingFee)),
        failed(Failure::MasterDataMissing(MasterDataKey::ShippingFee)).0 is Done,
{
}

/// The request that a state works for, where it still holds it.
pub open spec fn request_of(flow: OrderFlow) -> Option<OrderRequest> {
    match flow {
        OrderFlow::AwaitingMaxQuantity { request } => Some(request),
        OrderFlow::AwaitingProduct { request, .. } => Some(request),
        OrderFlow::AwaitingTaxRate { request, .. } => Some(request),
        OrderFlow::CheckingTaxRate { request, .. } => Some(request),
        OrderFlow::AwaitingShippingFee { request, .. } => Some(request),
        OrderFlow::ComputingTax { request, .. } => Some(request),
        OrderFlow::Storing { request, .. } => Some(request),
        OrderFlow::AdjustingStock { request, .. } => Some(request),
        OrderFlow::InvalidatingCache { request, .. } => Some(request),
        OrderFlow::Publishing { .. } => None,
        OrderFlow::Done => None,
    }
}

/// The state is consistent and works for `request`.
pub open spec fn serves(flow: OrderFlow, request: OrderRequest) -> bool {
    &&& consistent(flow)
    &&& match request_of(flow) {
        Some(r) => r == request,
        None => true,
    }
}

/// The actions that a flow asks for, one per reply, when it is fed
/// `replies` in turn.
pub open spec fn trace(flow: OrderFlow, replies: Seq<OrderReply>) -> Seq<OrderAction>
    decreases replies.len(),
{
    if replies.len() == 0 {
        Seq::empty()
    } else {
        let (after, action) = next(flow, replies[0]);
        seq![action] + trace(after, replies.drop_first())
    }
}

/// Every step of feeding `replies` in turn stays within the machine's
/// integers.
pub open spec fn in_range_throughout(flow: OrderFlow, replies: Seq<OrderReply>) -> bool
    decreases replies.len(),
{
    replies.len() == 0 || (step_in_range(flow, replies[0]) && in_range_throughout(
        next(flow, replies[0]).0,
        replies.drop_first(),
    ))
}

/// Writes that follow storing the order.
pub open spec fn follows_store(action: OrderAction) -> bool {
    ||| action is AdjustStock
    ||| action is InvalidateProductCache
    ||| action is PublishOrderCreated
}

proof fn lemma_trace_len(flow: OrderFlow, replies: Seq<OrderReply>)
    ensures
        trace(flow, replies).len() == replies.len(),
    decreases replies.len(),
{
    if replies.len() > 0 {
        lemma_trace_len(next(flow, replies[0]).0, replies.drop_first());
    }
}

proof fn lemma_trace_serves(flow: OrderFlow, replies: Seq<OrderReply>, request: OrderRequest)
    requires
        serves(flow, request),
        in_range_throughout(flow, replies),
    ensures
        forall|i: int|
            0 <= i < replies.len() ==> (#[trigger] trace(flow, replies)[i] matches OrderAction::StoreOrder(o)
                ==> exists|a: Admission| admitted(request, a) && priced_for(o, request, a)),
        forall|i: int|
            0 <= i < replies.len() ==> (#[trigger] trace(flow, replies)[i] matches OrderAction::AdjustStock { product_id, delta }
                ==> product_id == request.product_id && delta == -request.quantity.0),
    decreases replies.len(),
{
    if replies.len() > 0 {
        let (after, action) = next(flow, replies[0]);
        let rest = replies.drop_first();
        lemma_trace_len(after, rest);
        lemma_trace_serves(after, rest, request);
        let t = trace(flow, replies);
        assert(t == seq![action] + trace(after, rest));
        assert forall|i: int|
            0 <= i < replies.len() implies (#[trigger] t[i] matches OrderAction::StoreOrder(o)
                ==> exists|a: Admission| admitted(request, a) && priced_for(o, request, a)) by {
            if i == 0 {
                if let OrderAction::StoreOrder(o) = action {
                    if let OrderFlow::Storing { admission, .. } = after {
                        assert(admitted(request, admission) && priced_for(o, request, admission));
                    }
                }
            } else {
                assert(t[i] == trace(after, rest)[i - 1]);
            }
        }
        assert forall|i: int|
            0 <= i < replies.len() implies (#[trigger] t[i] matches OrderAction::AdjustStock { product_id, delta }
                ==> product_id == request.product_id && delta == -request.quantity.0) by {
            if i > 0 {
                assert(t[i] == trace(after, rest)[i - 1]);
            }
        }
    }
}

proof fn lemma_trace_store_first(flow: OrderFlow, replies: Seq<OrderReply>)
    requires
        before_store(flow) || flow is Done,
    ensures
        forall|i: int|
            0 <= i < replies.len() && follows_store(#[trigger] trace(flow, replies)[i])
                ==> exists|j: int| 0 <= j < i && trace(flow, replies)[j] is StoreOrder,
    decreases replies.len(),
{
    if replies.len() > 0 {
        let (after, action) = next(flow, replies[0]);
        let rest = replies.drop_first();
        lemma_trace_len(after, rest);
        let t = trace(flow, replies);
        assert(t == seq![action] + trace(after, rest));
        if flow is Done {
        } else {
            law_no_write_before_store(flow, replies[0]);
        }
        if action is StoreOrder {
            assert forall|i: int|
                0 <= i < replies.len() && follows_store(#[trigger] t[i]) implies exists|j: int|
                0 <= j < i && t[j] is StoreOrder by {
                assert(t[0] is StoreOrder);
            }
        } else {
            lemma_trace_store_first(after, rest);
            assert forall|i: int|
                0 <= i < replies.len() && follows_store(#[trigger] t[i]) implies exists|j: int|
                0 <= j < i && t[j] is StoreOrder by {
                assert(t[i] == trace(after, rest)[i - 1]);
                let k = choose|k: int| 0 <= k < i - 1 && trace(after, rest)[k] is StoreOrder;
                assert(t[k + 1] == trace(after, rest)[k]);
            }
        }
    }
}

/// Over any run from the start: every order that is stored is the
/// request's order, within the configured maximum and the stock, priced
/// at the product's price with the total as the sum; the stock is only
/// ever changed by the ordered quantity taken from the ordered product;
/// and nothing is adjusted, invalidated or published before the order has
/// been stored.
pub proof fn law_runs_store_before_side_effects(request: OrderRequest, replies: Seq<OrderReply>)
    requires
        in_range_throughout(opening(request).0, replies),
    ensures
        trace(opening(request).0, replies).len() == replies.len(),
        forall|i: int|
            0 <= i < replies.len() ==> (#[trigger] trace(opening(request).0, replies)[i] matches OrderAction::StoreOrder(o)
                ==> exists|a: Admission| admitted(request, a) && priced_for(o, request, a)),
        forall|i: int|
            0 <= i < replies.len() ==> (#[trigger] trace(opening(request).0, replies)[i] matches OrderAction::AdjustStock { product_id, delta }
                ==> product_id == request.product_id && delta == -request.quantity.0),
        forall|i: int|
            0 <= i < replies.len() && follows_store(#[trigger] trace(opening(request).0, replies)[i])
                ==> exists|j: int| 0 <= j < i && trace(opening(request).0, replies)[j] is StoreOrder,
{
    lemma_trace_len(opening(request).0, replies);
    lemma_trace_serves(opening(request).0, replies, request);
    lemma_trace_store_first(opening(request).0, replies);
}

fn fail(f: Failure) -> (res: (OrderFlow, OrderAction))
    ensures
        res == failed(f),
{
    (OrderFlow::Done, OrderAction::Finish(Err(f)))
}

} // verus!
