//! Value objects of the domain: quantities, amounts of money, and the name
//! and description of a product.

use vstd::prelude::*;
use vstd::string::*;

use crate::text::{append_decimal, decimal, decimal_text};

verus! {

/// A number of items. `Quantity::new` admits positive counts only; a
/// stored product's stock can still reach zero.
#[derive(Clone, Copy, Debug, PartialEq, Eq, Structural, Hash)]
pub struct Quantity(pub i32);

impl Quantity {
    /// A quantity of `value` items, refused unless `value` is positive.
    pub fn new(value: i32) -> (res: Result<Quantity, String>)
        ensures
            value > 0 ==> res == Ok::<Quantity, String>(Quantity(value)),
            value <= 0 ==> (res matches Err(m) && m@ == "Quantity must be positive, got "@ + decimal(
                value as int,
            )),
    {
        if value <= 0 {
            let mut m = String::from_str("Quantity must be positive, got ");
            append_decimal(&mut m, value as i64);
            return Err(m);
        }
        Ok(Quantity(value))
    }

    /// The quantity negated, as a change of stock that takes it away.
    pub fn as_negative_i32(&self) -> (res: i32)
        requires
            self.0 != i32::MIN,
        ensures
            res == -self.0,
    {
        -self.0
    }

    /// The quantity's text, as its `Display` writes it.
    pub fn to_text(&self) -> (s: String)
        ensures
            s@ == decimal(self.0 as int),
    {
        decimal_text(self.0 as i64)
    }
}

/// Price of one item of a product.
#[derive(Clone, Copy, Debug, PartialEq, Eq, Structural, Hash)]
pub struct Price(pub i64);

/// Price of the items of an order before tax and shipping.
#[derive(Clone, Copy, Debug, PartialEq, Eq, Structural, Hash)]
pub struct Subtotal(pub i64);

/// Tax charged on a subtotal.
#[derive(Clone, Copy, Debug, PartialEq, Eq, Structural, Hash)]
pub struct TaxAmount(pub i64);

/// Fee charged for shipping an order.
#[derive(Clone, Copy, Debug, PartialEq, Eq, Structural, Hash)]
pub struct ShippingFee(pub i64);

/// What an order costs in all.
#[derive(Clone, Copy, Debug, PartialEq, Eq, Structural, Hash)]
pub struct TotalPrice(pub i64);

impl Price {
    /// A price of `value`, refused when negative.
    pub fn new(value: i64) -> (res: Result<Price, String>)
        ensures
            value >= 0 ==> res == Ok::<Price, String>(Price(value)),
            value < 0 ==> (res matches Err(m) && m@ == "Price must be non-negative"@),
    {
        if value < 0 {
            return Err(String::from_str("Price must be non-negative"));
        }
        Ok(Price(value))
    }

    /// The subtotal of `rhs` items at this price.
    pub fn mul(self, rhs: Quantity) -> (res: Subtotal)
        requires
            i64::MIN <= self.0 * rhs.0 <= i64::MAX,
        ensures
            res.0 == self.0 * rhs.0,
    {
        Subtotal(self.0 * (rhs.0 as i64))
    }

    /// The amount's text, as its `Display` writes it.
    pub fn to_text(&self) -> (s: String)
        ensures
            s@ == decimal(self.0 as int),
    {
        decimal_text(self.0)
    }
}

impl Subtotal {
    /// A subtotal of `value`, refused when negative.
    pub fn new(value: i64) -> (res: Result<Subtotal, String>)
        ensures
            value >= 0 ==> res == Ok::<Subtotal, String>(Subtotal(value)),
            value < 0 ==> (res matches Err(m) && m@ == "Subtotal must be non-negative"@),
    {
        if value < 0 {
            return Err(String::from_str("Subtotal must be non-negative"));
        }
        Ok(Subtotal(value))
    }

    /// The amount's text, as its `Display` writes it.
    pub fn to_text(&self) -> (s: String)
        ensures
            s@ == decimal(self.0 as int),
    {
        decimal_text(self.0)
    }
}

impl TaxAmount {
    /// A tax amount of `value`, refused when negative.
    pub fn new(value: i64) -> (res: Result<TaxAmount, String>)
        ensures
            value >= 0 ==> res == Ok::<TaxAmount, String>(TaxAmount(value)),
            value < 0 ==> (res matches Err(m) && m@ == "TaxAmount must be non-negative"@),
    {
        if value < 0 {
            return Err(String::from_str("TaxAmount must be non-negative"));
        }
        Ok(TaxAmount(value))
    }

    /// The amount's text, as its `Display` writes it.
    pub fn to_text(&self) -> (s: String)
        ensures
            s@ == decimal(self.0 as int),
    {
        decimal_text(self.0)
    }
}

impl ShippingFee {
    /// A shipping fee of `value`, refused when negative.
    pub fn new(value: i64) -> (res: Result<ShippingFee, String>)
        ensures
            value >= 0 ==> res == Ok::<ShippingFee, String>(ShippingFee(value)),
            value < 0 ==> (res matches Err(m) && m@ == "ShippingFee must be non-negative"@),
    {
        if value < 0 {
            return Err(String::from_str("ShippingFee must be non-negative"));
        }
        Ok(ShippingFee(value))
    }

    /// The amount's text, as its `Display` writes it.
    pub fn to_text(&self) -> (s: String)
        ensures
            s@ == decimal(self.0 as int),
    {
        decimal_text(self.0)
    }
}

/// Whether subtotal, tax and shipping fee add up within `i64`, adding in
/// that order: the partial sum of subtotal and tax must fit too.
pub open spec fn total_fits(subtotal: Subtotal, tax: TaxAmount, shipping: ShippingFee) -> bool {
    &&& i64::MIN <= subtotal.0 + tax.0 <= i64::MAX
    &&& i64::MIN <= subtotal.0 + tax.0 + shipping.0 <= i64::MAX
}

impl TotalPrice {
    /// A total price of `value`, refused when negative.
    pub fn new(value: i64) -> (res: Result<TotalPrice, String>)
        ensures
            value >= 0 ==> res == Ok::<TotalPrice, String>(TotalPrice(value)),
            value < 0 ==> (res matches Err(m) && m@ == "TotalPrice must be non-negative"@),
    {
        if value < 0 {
            return Err(String::from_str("TotalPrice must be non-negative"));
        }
        Ok(TotalPrice(value))
    }

    /// The sum of subtotal, tax and shipping fee, refused when it
    /// overflows.
    pub fn calculate(subtotal: Subtotal, tax_amount: TaxAmount, shipping_fee: ShippingFee) -> (res:
        Result<TotalPrice, String>)
        ensures
            total_fits(subtotal, tax_amount, shipping_fee) ==> res == Ok::<TotalPrice, String>(
                TotalPrice((subtotal.0 + tax_amount.0 + shipping_fee.0) as i64),
            ),
            !total_fits(subtotal, tax_amount, shipping_fee) ==> (res matches Err(m) && m@
                == "TotalPrice overflow"@),
    {
        match subtotal.0.checked_add(tax_amount.0) {
            Some(partial) => match partial.checked_add(shipping_fee.0) {
                Some(total) => Ok(TotalPrice(total)),
                None => Err(String::from_str("TotalPrice overflow")),
            },
            None => Err(String::from_str("TotalPrice overflow")),
        }
    }

    /// The amount's text, as its `Display` writes it.
    pub fn to_text(&self) -> (s: String)
        ensures
            s@ == decimal(self.0 as int),
    {
        decimal_text(self.0)
    }
}

/// The name of a product.
#[derive(Debug)]
pub struct ProductName(String);

impl ProductName {
    pub closed spec fn text(&self) -> Seq<char> {
        self.0@
    }

    /// A product name, refused when empty.
    pub fn new(value: &str) -> (res: Result<ProductName, String>)
        ensures
            value@.len() > 0 ==> (res matches Ok(n) && n.text() == value@),
            value@.len() == 0 ==> (res matches Err(m) && m@ == "ProductName must not be empty"@),
    {
        if value.is_empty() {
            return Err(String::from_str("ProductName must not be empty"));
        }
        Ok(ProductName(value.to_owned()))
    }

    /// The name's text.
    pub fn as_str(&self) -> (s: &str)
        ensures
            s@ == self.text(),
    {
        self.0.as_str()
    }

    /// A copy of the name.
    pub fn duplicate(&self) -> (res: ProductName)
        ensures
            res == *self,
    {
        ProductName(self.0.clone())
    }
}

/// The description of a product; any text, empty by default.
#[derive(Debug)]
pub struct ProductDescription(String);

impl Default for ProductDescription {
    fn default() -> (res: ProductDescription)
        ensures
            res.text() == Seq::<char>::empty(),
    {
        ProductDescription(String::new())
    }
}

impl ProductDescription {
    pub closed spec fn text(&self) -> Seq<char> {
        self.0@
    }

    /// A description holding `value`.
    pub fn new(value: String) -> (res: ProductDescription)
        ensures
            res.text() == value@,
    {
        ProductDescription(value)
    }

    /// The empty description.
    pub fn empty() -> (res: ProductDescription)
        ensures
            res.text() == Seq::<char>::empty(),
    {
        ProductDescription(String::new())
    }

    /// The description's text.
    pub fn as_str(&self) -> (s: &str)
        ensures
            s@ == self.text(),
    {
        self.0.as_str()
    }

    /// A copy of the description.
    pub fn duplicate(&self) -> (res: ProductDescription)
        ensures
            res == *self,
    {
        ProductDescription(self.0.clone())
    }
}

} // verus!
