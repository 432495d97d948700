//! The product record and its mathematical view.

use vstd::prelude::*;

verus! {

/// What a product record holds, as plain mathematical values.
pub struct ProductView {
    pub name: Seq<char>,
    pub quantity: i32,
}

impl ProductView {
    /// The same record with its quantity replaced; the name is kept.
    pub open spec fn with_quantity(self, quantity: i32) -> ProductView {
        ProductView { name: self.name, quantity }
    }
}

/// A product record. It carries no identifier of its own: a record is known
/// by the key under which a store keeps it. The name is unconstrained and the
/// quantity may be negative.
#[derive(Debug)]
pub struct Product {
    pub name: String,
    pub quantity: i32,
}

impl View for Product {
    type V = ProductView;

    open spec fn view(&self) -> ProductView {
        ProductView { name: self.name@, quantity: self.quantity }
    }
}

impl Clone for Product {
    fn clone(&self) -> (copy: Product)
        ensures
            copy == *self,
    {
        Product { name: self.name.clone(), quantity: self.quantity }
    }
}

impl Default for Product {
    /// The record with an empty name and quantity zero.
    fn default() -> (product: Product)
        ensures
            product@ == (ProductView { name: Seq::empty(), quantity: 0 }),
    {
        Product { name: String::new(), quantity: 0 }
    }
}

impl Product {
    /// The record with its quantity replaced by `quantity` and its name kept.
    pub fn with_quantity(self, quantity: i32) -> (updated: Product)
        ensures
            updated@ == self@.with_quantity(quantity),
            updated.name == self.name,
    {
        Product { name: self.name, quantity }
    }
}

/// The view of a record that may be absent.
pub open spec fn view_of(found: Option<Product>) -> Option<ProductView> {
    match found {
        Some(product) => Some(product@),
        None => None,
    }
}

} // verus!
