use vstd::prelude::*;

verus! {

/// Server-assigned identity of a product.
#[derive(Debug, Clone, Copy, PartialEq, Eq, Structural)]
pub struct ProductId(pub i32);

/// A stored product as callers see it.
#[derive(Debug, Clone)]
pub struct Products {
    pub id: ProductId,
    pub name: String,
    pub price: i32,
}

/// The fields of a product to be created.
#[derive(Debug, Clone)]
pub struct NewProducts {
    pub name: String,
    pub price: i32,
}

} // verus!
