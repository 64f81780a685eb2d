use shop_core::clock::Timestamp;
use shop_core::error::{AppError, ErrorKind, Failure};
use shop_core::master_data::MasterDataKey;
use shop_core::ids::{OrderId, ProductId};
use shop_core::order::{Order, OrderEvent, OrderStatus};
use shop_core::order_flow::{
    begin, begin_with, order_lookup, OrderAction, OrderFlow, OrderReply, OrderRequest,
    TaxRateCheck,
};
use shop_core::product::Product;
use shop_core::value_objects::{
    Price, ProductDescription, ProductName, Quantity, ShippingFee, Subtotal, TaxAmount,
    TotalPrice,
};

fn sample_product_with(id: ProductId, name: &str, price: i64, stock: i32) -> Product {
    Product {
        id,
        name: ProductName::new(name).unwrap(),
        price: Price::new(price).unwrap(),
        stock: Quantity::new(stock).unwrap(),
        description: ProductDescription::new("test description".to_string()),
        created_at: Timestamp { secs: 1_700_000_000, nanos: 123_456_789 },
        updated_at: Timestamp { secs: 1_700_000_000, nanos: 123_456_789 },
    }
}

fn sample_order(product_id: ProductId) -> Order {
    Order {
        id: OrderId(0x10),
        product_id,
        quantity: Quantity::new(2).unwrap(),
        subtotal: Subtotal::new(2000).unwrap(),
        tax_amount: TaxAmount::new(200).unwrap(),
        shipping_fee: ShippingFee::new(500).unwrap(),
        total_price: TotalPrice::new(2700).unwrap(),
        status: OrderStatus::pending(),
        created_at: Timestamp { secs: 1_700_000_000, nanos: 123_456_789 },
    }
}

/// Stand-ins for the stores, cache and broker that an order's creation
/// talks to. A lookup that a test did not set up fails the test, as an
/// unexpected call to a mock does.
#[derive(Default)]
struct Fakes {
    master: Vec<(&'static str, Option<String>)>,
    product: Option<Option<Product>>,
    store_calls: usize,
    stock_updates: Vec<(ProductId, i32)>,
    invalidations: usize,
    published: Vec<OrderEvent>,
    invalidation_fails: bool,
    publish_fails: bool,
}

fn default_master_data() -> Vec<(&'static str, Option<String>)> {
    vec![
        ("max_order_quantity", Some("99".to_string())),
        ("tax_rate", Some("0.10".to_string())),
        ("shipping_fee", Some("500".to_string())),
    ]
}

fn with_product(product_id: ProductId, price: i64, stock: i32) -> Fakes {
    Fakes {
        master: default_master_data(),
        product: Some(Some(sample_product_with(product_id, "Test Product", price, stock))),
        ..Default::default()
    }
}

fn check_tax_rate(text: &str) -> TaxRateCheck {
    match text.parse::<f64>() {
        Ok(r) if r.is_finite() && (0.0..=1.0).contains(&r) => TaxRateCheck::Accepted,
        Ok(r) => TaxRateCheck::Rejected(format!("TaxRate must be between 0 and 1, got {r}")),
        Err(_) => TaxRateCheck::Unparsable,
    }
}

fn tax_on(subtotal: Subtotal, rate: &str) -> TaxAmount {
    let r: f64 = rate.parse().unwrap();
    TaxAmount((subtotal.0 as f64 * r).round() as i64)
}

fn create_order(f: &mut Fakes, product_id: ProductId, quantity: Quantity) -> Result<Order, AppError> {
    let (mut flow, mut action) = begin(product_id, quantity);
    loop {
        let reply = match action {
            OrderAction::ReadMasterData(key) => {
                let found = f
                    .master
                    .iter()
                    .find(|(k, _)| *k == key.name())
                    .unwrap_or_else(|| panic!("unexpected read of master data {}", key.name()));
                OrderReply::MasterData(Ok(found.1.clone()))
            }
            OrderAction::LoadProduct(id) => {
                assert_eq!(id, product_id);
                let p = f.product.as_ref().expect("unexpected product lookup");
                OrderReply::Product(Ok(p.as_ref().map(|p| p.duplicate())))
            }
            OrderAction::CheckTaxRate(t) => OrderReply::TaxRate(check_tax_rate(&t)),
            OrderAction::ComputeTax { subtotal, rate } => OrderReply::Tax(tax_on(subtotal, &rate)),
            OrderAction::StoreOrder(o) => {
                f.store_calls += 1;
                OrderReply::Stored(Ok(o))
            }
            OrderAction::AdjustStock { product_id, delta } => {
                f.stock_updates.push((product_id, delta));
                OrderReply::StockAdjusted(Ok(()))
            }
            OrderAction::InvalidateProductCache => {
                f.invalidations += 1;
                if f.invalidation_fails {
                    OrderReply::CacheInvalidated(Err(AppError::Internal("redis down".to_string())))
                } else {
                    OrderReply::CacheInvalidated(Ok(()))
                }
            }
            OrderAction::PublishOrderCreated(ev) => {
                f.published.push(ev);
                if f.publish_fails {
                    OrderReply::Published(Err(AppError::Internal("nats down".to_string())))
                } else {
                    OrderReply::Published(Ok(()))
                }
            }
            OrderAction::Finish(r) => return r.map_err(|e| e.into_app_error()),
        };
        assert!(flow.can_take(&reply));
        let (f2, a2) = flow.step(reply);
        flow = f2;
        action = a2;
    }
}

#[test]
fn create_order_success() {
    let product_id = ProductId::new();
    let mut fakes = with_product(product_id, 1000, 10);
    let order = create_order(&mut fakes, product_id, Quantity::new(2).unwrap()).unwrap();
    assert_eq!(order.product_id, product_id);
    assert_eq!(order.quantity, Quantity::new(2).unwrap());
    assert_eq!(fakes.store_calls, 1);
    assert_eq!(fakes.published.len(), 1);
}

#[test]
fn create_order_exceeds_max_quantity() {
    let product_id = ProductId::new();
    let mut fakes = Fakes {
        master: vec![("max_order_quantity", Some("5".to_string()))],
        ..Default::default()
    };
    let result = create_order(&mut fakes, product_id, Quantity::new(10).unwrap());
    assert!(matches!(result, Err(AppError::Conflict(_))));
}

#[test]
fn create_order_product_not_found() {
    let product_id = ProductId::new();
    let mut fakes = Fakes {
        master: default_master_data(),
        product: Some(None),
        ..Default::default()
    };
    let result = create_order(&mut fakes, product_id, Quantity::new(1).unwrap());
    assert!(matches!(result, Err(AppError::NotFound(_))));
}

#[test]
fn create_order_insufficient_stock() {
    let product_id = ProductId::new();
    let mut fakes = with_product(product_id, 1000, 3);
    let result = create_order(&mut fakes, product_id, Quantity::new(5).unwrap());
    assert!(matches!(result, Err(AppError::Conflict(_))));
    assert_eq!(fakes.store_calls, 0);
    assert!(fakes.stock_updates.is_empty());
}

#[test]
fn create_order_calculates_correct_totals() {
    let product_id = ProductId::new();
    let mut fakes = with_product(product_id, 1000, 10);
    let order = create_order(&mut fakes, product_id, Quantity::new(3).unwrap()).unwrap();
    assert_eq!(order.subtotal, Subtotal::new(3000).unwrap());
    assert_eq!(order.tax_amount, TaxAmount::new(300).unwrap());
    assert_eq!(order.shipping_fee, ShippingFee::new(500).unwrap());
    assert_eq!(order.total_price, TotalPrice::new(3800).unwrap());
}

#[test]
fn create_order_publishes_event() {
    let product_id = ProductId::new();
    let mut fakes = with_product(product_id, 1000, 10);
    create_order(&mut fakes, product_id, Quantity::new(2).unwrap()).unwrap();
    assert_eq!(fakes.published.len(), 1);
    let event = fakes.published[0];
    assert!(event.product_id == product_id && event.quantity == Quantity::new(2).unwrap());
}

#[test]
fn create_order_updates_stock() {
    let product_id = ProductId::new();
    let mut fakes = with_product(product_id, 1000, 10);
    create_order(&mut fakes, product_id, Quantity::new(3).unwrap()).unwrap();
    assert_eq!(fakes.stock_updates, vec![(product_id, -3)]);
}

#[test]
fn find_by_id_success() {
    let product_id = ProductId::new();
    let order = sample_order(product_id);
    let order_id = order.id;
    let result = order_lookup(order_id, Ok(Some(order))).unwrap();
    assert_eq!(result.id, order_id);
    assert_eq!(result.product_id, product_id);
}

#[test]
fn order_service_test_find_by_id_not_found() {
    let order_id = OrderId::new();
    let result = order_lookup(order_id, Ok(None)).map_err(|e| e.into_app_error());
    assert!(matches!(result, Err(AppError::NotFound(_))));
}

#[test]
fn order_not_found_message_names_the_order() {
    let order_id = OrderId(0xa1a2a3a4b1b2c1c2d1d2d3d4d5d6d7d8);
    let err = order_lookup(order_id, Ok(None)).unwrap_err().into_app_error();
    assert_eq!(err.message(), "Order a1a2a3a4-b1b2-c1c2-d1d2-d3d4d5d6d7d8 not found");
    assert_eq!(err.status_code(), 404);
}

#[test]
fn order_lookup_passes_store_errors_on() {
    let err = order_lookup(OrderId(1), Err(AppError::Internal("db down".to_string())))
        .unwrap_err()
        .into_app_error();
    assert!(matches!(err, AppError::Internal(ref m) if m == "db down"));
}

#[test]
fn created_order_event_carries_the_stored_id_and_amounts() {
    let product_id = ProductId::new();
    let mut fakes = with_product(product_id, 1000, 10);
    let order = create_order(&mut fakes, product_id, Quantity::new(3).unwrap()).unwrap();
    let ev = fakes.published[0];
    assert_eq!(ev.order_id, order.id);
    assert_eq!(ev.total_price, TotalPrice(3800));
    assert_eq!(ev.subtotal.0 + ev.tax_amount.0 + ev.shipping_fee.0, ev.total_price.0);
    assert_eq!(ev.created_at, order.created_at);
    assert_eq!(order.status, OrderStatus::Pending);
}

#[test]
fn cache_and_publish_failures_do_not_fail_the_order() {
    let product_id = ProductId::new();
    let mut fakes = with_product(product_id, 1000, 10);
    fakes.invalidation_fails = true;
    fakes.publish_fails = true;
    let order = create_order(&mut fakes, product_id, Quantity::new(2).unwrap()).unwrap();
    assert_eq!(order.total_price, TotalPrice(2700));
    assert_eq!(fakes.invalidations, 1);
}

#[test]
fn quantity_equal_to_maximum_and_stock_is_accepted() {
    let product_id = ProductId::new();
    let mut fakes = with_product(product_id, 7, 5);
    fakes.master[0].1 = Some("5".to_string());
    let order = create_order(&mut fakes, product_id, Quantity::new(5).unwrap()).unwrap();
    assert_eq!(order.subtotal, Subtotal(35));
    assert_eq!(fakes.stock_updates, vec![(product_id, -5)]);
}

#[test]
fn exceeding_maximum_message() {
    let product_id = ProductId::new();
    let mut fakes = Fakes {
        master: vec![("max_order_quantity", Some("5".to_string()))],
        ..Default::default()
    };
    let err = create_order(&mut fakes, product_id, Quantity::new(10).unwrap()).unwrap_err();
    assert_eq!(err.message(), "Order quantity exceeds maximum: max=5, requested=10");
    assert_eq!(err.status_code(), 409);
}

#[test]
fn insufficient_stock_message() {
    let product_id = ProductId::new();
    let mut fakes = with_product(product_id, 1000, 3);
    let err = create_order(&mut fakes, product_id, Quantity::new(5).unwrap()).unwrap_err();
    assert_eq!(err.message(), "Insufficient stock: available=3, requested=5");
}

#[test]
fn missing_master_data_is_not_found() {
    let product_id = ProductId::new();
    let mut fakes = with_product(product_id, 1000, 10);
    fakes.master[2].1 = None;
    let err = create_order(&mut fakes, product_id, Quantity::new(1).unwrap()).unwrap_err();
    assert_eq!(err.kind(), ErrorKind::NotFound);
    assert_eq!(err.message(), "Master data 'shipping_fee' not configured");
    assert_eq!(fakes.store_calls, 0);
}

#[test]
fn invalid_master_data_is_bad_request() {
    let product_id = ProductId::new();
    let mut fakes = with_product(product_id, 1000, 10);
    fakes.master[0].1 = Some("lots".to_string());
    let err = create_order(&mut fakes, product_id, Quantity::new(1).unwrap()).unwrap_err();
    assert_eq!(err.kind(), ErrorKind::BadRequest);
    assert_eq!(err.message(), "Invalid master data value for 'max_order_quantity'");
}

#[test]
fn unparsable_tax_rate_is_bad_request() {
    let product_id = ProductId::new();
    let mut fakes = with_product(product_id, 1000, 10);
    fakes.master[1].1 = Some("ten percent".to_string());
    let err = create_order(&mut fakes, product_id, Quantity::new(1).unwrap()).unwrap_err();
    assert_eq!(err.message(), "Invalid master data value for 'tax_rate'");
}

#[test]
fn rejected_tax_rate_keeps_its_message() {
    let product_id = ProductId::new();
    let mut fakes = with_product(product_id, 1000, 10);
    fakes.master[1].1 = Some("2.5".to_string());
    let err = create_order(&mut fakes, product_id, Quantity::new(1).unwrap()).unwrap_err();
    assert_eq!(err.kind(), ErrorKind::BadRequest);
    assert_eq!(err.message(), "TaxRate must be between 0 and 1, got 2.5");
}

#[test]
fn negative_shipping_fee_is_bad_request() {
    let product_id = ProductId::new();
    let mut fakes = with_product(product_id, 1000, 10);
    fakes.master[2].1 = Some("-1".to_string());
    let err = create_order(&mut fakes, product_id, Quantity::new(1).unwrap()).unwrap_err();
    assert_eq!(err.message(), "ShippingFee must be non-negative");
}

#[test]
fn total_overflow_is_bad_request() {
    let product_id = ProductId::new();
    let mut fakes = with_product(product_id, i64::MAX, 10);
    fakes.master[1].1 = Some("0".to_string());
    let err = create_order(&mut fakes, product_id, Quantity::new(1).unwrap()).unwrap_err();
    assert_eq!(err.message(), "TotalPrice overflow");
    assert_eq!(fakes.store_calls, 0);
}

#[test]
fn store_failure_stops_before_stock_update() {
    let request = OrderRequest {
        product_id: ProductId(7),
        quantity: Quantity(2),
        order_id: OrderId(8),
        created_at: Timestamp { secs: 5, nanos: 7 },
    };
    let (flow, _) = begin_with(request);
    let (flow, _) = flow.step(OrderReply::MasterData(Ok(Some("10".to_string()))));
    let (flow, _) = flow.step(OrderReply::Product(Ok(Some(sample_product_with(
        ProductId(7),
        "P",
        100,
        10,
    )))));
    let (flow, _) = flow.step(OrderReply::MasterData(Ok(Some("0.1".to_string()))));
    let (flow, _) = flow.step(OrderReply::TaxRate(TaxRateCheck::Accepted));
    let (flow, action) = flow.step(OrderReply::MasterData(Ok(Some("0".to_string()))));
    assert!(matches!(action, OrderAction::ComputeTax { subtotal: Subtotal(200), .. }));
    let (flow, action) = flow.step(OrderReply::Tax(TaxAmount(20)));
    match action {
        OrderAction::StoreOrder(o) => {
            assert_eq!(o.id, OrderId(8));
            assert_eq!(o.total_price, TotalPrice(220));
            assert_eq!(o.created_at, Timestamp { secs: 5, nanos: 7 });
        }
        other => panic!("unexpected action {other:?}"),
    }
    let (_, action) = flow.step(OrderReply::Stored(Err(AppError::Internal("db".to_string()))));
    assert!(matches!(action, OrderAction::Finish(Err(Failure::Upstream(AppError::Internal(_))))));
}

#[test]
fn unexpected_reply_ends_the_flow() {
    let (flow, action) = begin(ProductId(1), Quantity(1));
    assert!(matches!(action, OrderAction::ReadMasterData(MasterDataKey::MaxOrderQuantity)));
    let (flow, action) = flow.step(OrderReply::Tax(TaxAmount(1)));
    assert!(matches!(flow, OrderFlow::Done));
    let err = match action {
        OrderAction::Finish(Err(f)) => f.into_app_error(),
        other => panic!("unexpected action {other:?}"),
    };
    assert_eq!(err.status_code(), 500);
}

#[test]
fn fresh_order_ids_are_random_uuids() {
    let a = OrderId::new();
    let b = OrderId::new();
    assert_ne!(a, b);
    assert_eq!((a.0 >> 76) & 0xf, 4);
    assert_eq!((a.0 >> 62) & 0x3, 2);
}
