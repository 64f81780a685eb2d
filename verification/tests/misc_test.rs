use shop_core::clock::Timestamp;
use shop_core::audit_log::{AuditLog, EventType};
use shop_core::config::{AppConfig, ConfigError, ConfigVar};
use shop_core::error::{AppError, ErrorKind, Failure};
use shop_core::master_data::MasterDataKey;
use shop_core::health::HealthStatus;
use shop_core::ids::{AuditLogId, ProductId};
use shop_core::master_data::{entries_from_pairs, entry_lookup, SetMasterDataRequest};
use shop_core::order::{order_created_subject, OrderStatus};
use shop_core::requests::{CreateOrderRequest, CreateProductRequest};
use shop_core::value_objects::{Price, Quantity};

#[test]
fn health_overall() {
    let all = HealthStatus { postgres: true, redis: true, nats: true };
    assert_eq!(all.overall(), "ok");
    let some = HealthStatus { postgres: true, redis: false, nats: true };
    assert_eq!(some.overall(), "degraded");
    let r = some.report();
    assert_eq!((r.status, r.postgres, r.redis, r.nats), ("degraded", "ok", "error", "ok"));
}

#[test]
fn error_statuses() {
    assert_eq!(AppError::NotFound(String::new()).status_code(), 404);
    assert_eq!(AppError::BadRequest(String::new()).status_code(), 400);
    assert_eq!(AppError::Conflict(String::new()).status_code(), 409);
    assert_eq!(AppError::Internal(String::new()).status_code(), 500);
    assert_eq!(AppError::Conflict("c".to_string()).kind(), ErrorKind::Conflict);
}

#[test]
fn failure_messages() {
    let e = Failure::MasterDataMissing(MasterDataKey::TaxRate).into_app_error();
    assert_eq!(e.kind(), ErrorKind::NotFound);
    assert_eq!(e.message(), "Master data 'tax_rate' not configured");
    let e = Failure::MasterDataInvalid(MasterDataKey::ShippingFee).into_app_error();
    assert_eq!(e.message(), "Invalid master data value for 'shipping_fee'");
    let e = Failure::QuantityAboveMaximum { max: -1, requested: 2 }.into_app_error();
    assert_eq!(e.message(), "Order quantity exceeds maximum: max=-1, requested=2");
    let e = Failure::TotalOverflow.into_app_error();
    assert_eq!((e.kind(), e.message()), (ErrorKind::BadRequest, "TotalPrice overflow"));
}

#[test]
fn set_master_data_requires_a_value() {
    assert!(SetMasterDataRequest { value: "1".to_string() }.validate().is_ok());
    let err = SetMasterDataRequest { value: String::new() }.validate().unwrap_err();
    assert!(matches!(err, AppError::BadRequest(ref m) if m == "Master data value must not be empty"));
}

#[test]
fn master_data_entries_and_lookup() {
    let pairs = vec![("a".to_string(), "1".to_string()), ("b".to_string(), "2".to_string())];
    let entries = entries_from_pairs(&pairs);
    assert_eq!(entries.len(), 2);
    assert_eq!((entries[1].key.as_str(), entries[1].value.as_str()), ("b", "2"));
    let entry = entry_lookup("tax_rate".to_string(), Ok(Some("0.1".to_string()))).unwrap();
    assert_eq!((entry.key.as_str(), entry.value.as_str()), ("tax_rate", "0.1"));
    let err = entry_lookup("nope".to_string(), Ok(None)).unwrap_err();
    assert!(matches!(err, AppError::NotFound(ref m) if m == "Master data 'nope' not found"));
}

#[test]
fn config_from_values() {
    let s = |v: &str| Some(v.to_string());
    let c = AppConfig::from_values(s("pg"), s("redis"), s("nats"), s("8080")).unwrap();
    assert_eq!(c.server_port, 8080);
    assert_eq!(c.database_url, "pg");
    assert_eq!(c.listen_address(), "0.0.0.0:8080");
    let e = AppConfig::from_values(None, None, s("n"), s("1")).unwrap_err();
    assert_eq!(e, ConfigError::Unset(ConfigVar::DatabaseUrl));
    assert_eq!(e.message(), "DATABASE_URL is not set");
    let e = AppConfig::from_values(s("p"), s("r"), None, s("1")).unwrap_err();
    assert_eq!(e.message(), "NATS_URL is not set");
    let e = AppConfig::from_values(s("p"), s("r"), s("n"), s("70000")).unwrap_err();
    assert_eq!(e, ConfigError::InvalidPort);
    assert_eq!(e.message(), "SERVER_PORT is not a valid port number");
}

#[test]
fn create_product_request_validation() {
    let ok = CreateProductRequest {
        name: "Chair".to_string(),
        price: 4200,
        stock: 3,
        description: String::new(),
    }
    .validate()
    .unwrap();
    assert_eq!((ok.name.as_str(), ok.price, ok.stock), ("Chair", Price(4200), Quantity(3)));
    let err = CreateProductRequest { name: "C".to_string(), price: -1, stock: 0, description: String::new() }
        .validate()
        .unwrap_err();
    assert!(matches!(err, AppError::BadRequest(ref m) if m == "Price must be non-negative"));
    let err = CreateProductRequest { name: "C".to_string(), price: 1, stock: 0, description: String::new() }
        .validate()
        .unwrap_err();
    assert!(matches!(err, AppError::BadRequest(ref m) if m == "Quantity must be positive, got 0"));
}

#[test]
fn create_order_request_validation() {
    let (id, q) = CreateOrderRequest { product_id: 5, quantity: 2 }.validate().unwrap();
    assert_eq!((id, q), (ProductId(5), Quantity(2)));
    let err = CreateOrderRequest { product_id: 5, quantity: -4 }.validate().unwrap_err();
    assert_eq!(err.status_code(), 400);
}

#[test]
fn audit_log_for_order_created() {
    let log = AuditLog::order_created(AuditLogId(3), None, Timestamp { secs: 9, nanos: 1 });
    assert_eq!(log.payload, "null");
    assert_eq!(log.event_type, EventType::OrderCreated);
    let log = AuditLog::record_order_created(Some("{\"a\":1}".to_string()));
    assert_eq!(log.payload, "{\"a\":1}");
    assert!(log.created_at.secs > 0);
    assert!(log.created_at.nanos < 1_000_000_000);
}

#[test]
fn ids_and_names() {
    assert_eq!(ProductId(0xff).to_text(), "00000000-0000-0000-0000-0000000000ff");
    assert_eq!(order_created_subject(), "orders.created");
    assert_eq!(OrderStatus::pending().as_str(), "pending");
    assert_ne!(ProductId::new(), ProductId::new());
}
