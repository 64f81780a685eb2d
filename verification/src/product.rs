//! Products of the catalogue.

use vstd::prelude::*;

use crate::clock::Timestamp;
use crate::ids::ProductId;
use crate::value_objects::{Price, ProductDescription, ProductName, Quantity};

verus! {

/// A product with its price and stock.
#[derive(Debug)]
pub struct Product {
    pub id: ProductId,
    pub name: ProductName,
    pub price: Price,
    pub stock: Quantity,
    pub description: ProductDescription,
    pub created_at: Timestamp,
    pub updated_at: Timestamp,
}

impl Product {
    /// A copy of the product.
    pub fn duplicate(&self) -> (res: Product)
        ensures
            res == *self,
    {
        Product {
            id: self.id,
            name: self.name.duplicate(),
            price: self.price,
            stock: self.stock,
            description: self.description.duplicate(),
            created_at: self.created_at,
            updated_at: self.updated_at,
        }
    }
}

/// A copy of a list of products, in the same order.
pub fn duplicate_products(products: &Vec<Product>) -> (res: Vec<Product>)
    ensures
        res@ == products@,
{
    let mut res: Vec<Product> = Vec::new();
    let mut i: usize = 0;
    while i < products.len()
        invariant
            i <= products@.len(),
            res@ == products@.subrange(0, i as int),
        decreases products@.len() - i,
    {
        res.push(products[i].duplicate());
        i = i + 1;
        assert(res@ =~= products@.subrange(0, i as int));
    }
    assert(products@.subrange(0, i as int) =~= products@);
    res
}

} // verus!
