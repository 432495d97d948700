//! The executable inventory store.

use std::collections::HashMap;
use vstd::prelude::*;
use crate::ledger::{Ledger, FIRST_ID};
use crate::product::{view_of, Product};

verus! {

/// An inventory store: product records under identifiers that the store
/// issues itself, counting up from one. Records are never removed and
/// identifiers are never reused.
pub struct StockManagement {
    products: HashMap<u32, Product>,
    next_id: u32,
}

impl View for StockManagement {
    type V = Ledger;

    closed spec fn view(&self) -> Ledger {
        model(self.products@, self.next_id)
    }
}

/// The state that a store with these records and this counter stands for.
spec fn model(products: Map<u32, Product>, next_id: u32) -> Ledger {
    Ledger {
        products: Map::new(|id: u32| products.contains_key(id), |id: u32| products[id]@),
        next_id,
    }
}

/// Issues the identifier that `counter` holds and moves the counter on by
/// one. The last value of the counter is never issued: a counter that holds
/// it is used up.
pub fn issue_id(counter: &mut u32) -> (id: u32)
    requires
        *old(counter) < u32::MAX,
    ensures
        id == *old(counter),
        *final(counter) == id + 1,
{
    let id: u32 = *counter;
    *counter = id + 1;
    id
}

impl StockManagement {
    #[verifier::type_invariant]
    spec fn inv(self) -> bool {
        self@.wf()
    }

    /// An empty store, whose first registration will return `FIRST_ID`.
    pub fn new() -> (store: StockManagement)
        ensures
            store@ == Ledger::empty(),
    {
        let store = StockManagement { products: HashMap::new(), next_id: FIRST_ID };
        assert(store@.products =~= Map::empty());
        store
    }

    /// Moves the store out and leaves an empty one in its place. The
    /// invariant ties the records to the counter, so a change is made on the
    /// parts of the store that was moved out, and the result is put back
    /// whole.
    fn take(&mut self) -> (taken: StockManagement)
        ensures
            taken == *old(self),
    {
        let mut taken = StockManagement::new();
        core::mem::swap(self, &mut taken);
        taken
    }

    /// Whether the identifier space is used up. While it is not, a product
    /// can be registered.
    pub fn is_exhausted(&self) -> (exhausted: bool)
        ensures
            exhausted == self@.exhausted(),
            self@.wf(),
    {
        proof {
            use_type_invariant(self);
        }
        self.next_id == u32::MAX
    }

    /// Registers a product and returns the identifier issued for it: the
    /// store's counter, which then moves on by one. The identifier is fresh,
    /// and the record can be read back under it at once.
    ///
    /// A store whose identifier space is used up takes no registration: the
    /// counter never wraps, and `is_exhausted` tells when that point is
    /// reached.
    pub fn add_product(&mut self, name: String, quantity: i32) -> (id: u32)
        requires
            !old(self)@.exhausted(),
        ensures
            id == old(self)@.next_id,
            final(self)@ == old(self)@.add_product(name@, quantity),
            old(self)@.wf(),
            final(self)@.wf(),
    {
        proof {
            use_type_invariant(&*self);
        }
        let StockManagement { mut products, mut next_id } = self.take();
        let id = issue_id(&mut next_id);
        products.insert(id, Product { name, quantity });
        proof {
            let before = old(self)@;
            let after = model(products@, next_id);
            assert(after.products =~= before.add_product(name@, quantity).products);
            assert forall|id: u32| #[trigger]
                after.products.contains_key(id) <==> after.issued(id) by {
                assert(before.products.contains_key(id) <==> before.issued(id));
            }
        }
        *self = StockManagement { products, next_id };
        id
    }

    /// Replaces the quantity of the record under `product_id` and keeps its
    /// name. Returns whether there was such a record; where there was none,
    /// the store is left as it was.
    pub fn update_quantity(&mut self, product_id: u32, quantity: i32) -> (updated: bool)
        ensures
            updated == old(self)@.products.contains_key(product_id),
            final(self)@ == old(self)@.update_quantity(product_id, quantity),
            old(self)@.wf(),
            final(self)@.wf(),
    {
        proof {
            use_type_invariant(&*self);
        }
        match self.get_product(product_id) {
            Some(found) => {
                let StockManagement { mut products, next_id } = self.take();
                products.insert(product_id, found.with_quantity(quantity));
                proof {
                    let before = old(self)@;
                    let after = model(products@, next_id);
                    assert(after.products =~= before.update_quantity(
                        product_id,
                        quantity,
                    ).products);
                    assert forall|id: u32| #[trigger]
                        after.products.contains_key(id) <==> after.issued(id) by {
                        assert(before.products.contains_key(id) <==> before.issued(id));
                    }
                }
                *self = StockManagement { products, next_id };
                true
            },
            None => false,
        }
    }

    /// The record under `product_id`, if there is one. The store is not
    /// changed.
    pub fn get_product(&self, product_id: u32) -> (found: Option<Product>)
        ensures
            view_of(found) == self@.get_product(product_id),
            self@.wf(),
    {
        proof {
            use_type_invariant(self);
        }
        match self.products.get(&product_id) {
            Some(product) => Some(product.clone()),
            None => None,
        }
    }
}

} // verus!
