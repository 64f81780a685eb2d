use shop_core::value_objects::{
    Price, ProductDescription, ProductName, Quantity, ShippingFee, Subtotal, TaxAmount,
    TotalPrice,
};

#[test]
fn quantity_must_be_positive() {
    assert_eq!(Quantity::new(1).unwrap(), Quantity(1));
    assert_eq!(Quantity::new(0).unwrap_err(), "Quantity must be positive, got 0");
    assert_eq!(Quantity::new(-3).unwrap_err(), "Quantity must be positive, got -3");
}

#[test]
fn quantity_as_negative() {
    assert_eq!(Quantity(3).as_negative_i32(), -3);
    assert_eq!(Quantity(i32::MAX).as_negative_i32(), -i32::MAX);
    assert_eq!(Quantity(17).to_text(), "17");
}

#[test]
fn money_must_be_non_negative() {
    assert_eq!(Price::new(0).unwrap(), Price(0));
    assert_eq!(Price::new(-1).unwrap_err(), "Price must be non-negative");
    assert_eq!(Subtotal::new(-1).unwrap_err(), "Subtotal must be non-negative");
    assert_eq!(TaxAmount::new(-1).unwrap_err(), "TaxAmount must be non-negative");
    assert_eq!(ShippingFee::new(-1).unwrap_err(), "ShippingFee must be non-negative");
    assert_eq!(TotalPrice::new(-1).unwrap_err(), "TotalPrice must be non-negative");
    assert_eq!(TotalPrice::new(3800).unwrap(), TotalPrice(3800));
    assert_eq!(Price(1500).to_text(), "1500");
}

#[test]
fn price_times_quantity() {
    assert_eq!(Price(1000).mul(Quantity(3)), Subtotal(3000));
    assert_eq!(Price(0).mul(Quantity(9)), Subtotal(0));
}

#[test]
fn total_price_is_the_sum() {
    assert_eq!(
        TotalPrice::calculate(Subtotal(3000), TaxAmount(300), ShippingFee(500)).unwrap(),
        TotalPrice(3800)
    );
}

#[test]
fn total_price_overflow_is_refused() {
    assert_eq!(
        TotalPrice::calculate(Subtotal(i64::MAX), TaxAmount(1), ShippingFee(0)).unwrap_err(),
        "TotalPrice overflow"
    );
    assert_eq!(
        TotalPrice::calculate(Subtotal(i64::MAX - 1), TaxAmount(0), ShippingFee(2)).unwrap_err(),
        "TotalPrice overflow"
    );
    // The partial sum of subtotal and tax must fit even where the fee would
    // bring the total back into range.
    assert!(TotalPrice::calculate(Subtotal(i64::MAX), TaxAmount(1), ShippingFee(-5)).is_err());
    assert_eq!(
        TotalPrice::calculate(Subtotal(i64::MAX - 1), TaxAmount(1), ShippingFee(0)).unwrap(),
        TotalPrice(i64::MAX)
    );
}

#[test]
fn product_name_must_not_be_empty() {
    assert_eq!(ProductName::new("New Product").unwrap().as_str(), "New Product");
    assert_eq!(ProductName::new("").unwrap_err(), "ProductName must not be empty");
}

#[test]
fn product_description_defaults_to_empty() {
    let d: ProductDescription = Default::default();
    assert_eq!(d.as_str(), "");
    assert_eq!(ProductDescription::new("x".to_string()).as_str(), "x");
}
