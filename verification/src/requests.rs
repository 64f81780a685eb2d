//! The bodies of the HTTP requests that create products and orders, and
//! their validation.

use vstd::prelude::*;

use crate::error::AppError;
use crate::ids::ProductId;
use crate::text::decimal;
use crate::value_objects::{Price, ProductDescription, ProductName, Quantity};

verus! {

/// The body of a request to create a product; the description defaults
/// to empty.
#[derive(Debug)]
pub struct CreateProductRequest {
    pub name: String,
    pub price: i64,
    pub stock: i32,
    pub description: String,
}

/// The validated fields of a new product.
#[derive(Debug)]
pub struct NewProduct {
    pub name: ProductName,
    pub price: Price,
    pub stock: Quantity,
    pub description: ProductDescription,
}

impl CreateProductRequest {
    /// The new product's fields, checked in the order name, price, stock;
    /// the first refusal is answered as a bad request with its message.
    pub fn validate(self) -> (res: Result<NewProduct, AppError>)
        ensures
            self.name@.len() == 0 ==> (res matches Err(AppError::BadRequest(m)) && m@
                == "ProductName must not be empty"@),
            self.name@.len() > 0 && self.price < 0 ==> (res matches Err(AppError::BadRequest(m))
                && m@ == "Price must be non-negative"@),
            self.name@.len() > 0 && self.price >= 0 && self.stock <= 0 ==> (res matches Err(
                AppError::BadRequest(m),
            ) && m@ == "Quantity must be positive, got "@ + decimal(self.stock as int)),
            self.name@.len() > 0 && self.price >= 0 && self.stock > 0 ==> (res matches Ok(p)
                && p.name.text() == self.name@ && p.price == Price(self.price) && p.stock
                == Quantity(self.stock) && p.description.text() == self.description@),
    {
        let name = match ProductName::new(self.name.as_str()) {
            Ok(n) => n,
            Err(m) => return Err(AppError::BadRequest(m)),
        };
        let price = match Price::new(self.price) {
            Ok(p) => p,
            Err(m) => return Err(AppError::BadRequest(m)),
        };
        let stock = match Quantity::new(self.stock) {
            Ok(q) => q,
            Err(m) => return Err(AppError::BadRequest(m)),
        };
        Ok(NewProduct { name, price, stock, description: ProductDescription::new(self.description) })
    }
}

/// The body of a request to order `quantity` items of a product.
#[derive(Clone, Copy, Debug)]
pub struct CreateOrderRequest {
    pub product_id: u128,
    pub quantity: i32,
}

impl CreateOrderRequest {
    /// The product and quantity ordered; a quantity that is not positive
    /// is answered as a bad request.
    pub fn validate(&self) -> (res: Result<(ProductId, Quantity), AppError>)
        ensures
            self.quantity > 0 ==> res == Ok::<(ProductId, Quantity), AppError>(
                (ProductId(self.product_id), Quantity(self.quantity)),
            ),
            self.quantity <= 0 ==> (res matches Err(AppError::BadRequest(m)) && m@
                == "Quantity must be positive, got "@ + decimal(self.quantity as int)),
    {
        match Quantity::new(self.quantity) {
            Ok(q) => Ok((ProductId(self.product_id), q)),
            Err(m) => Err(AppError::BadRequest(m)),
        }
    }
}

} // verus!
