//! The mathematical model of the inventory store: a map from identifiers to
//! records together with the next identifier to issue, the transitions of
//! the three operations on it, and the laws that hold of them.

use vstd::prelude::*;
use crate::product::ProductView;

verus! {

/// The first identifier that a store issues. Zero is never issued.
pub const FIRST_ID: u32 = 1;

/// The state of an inventory store.
pub struct Ledger {
    /// The records, each under the identifier it was registered with.
    pub products: Map<u32, ProductView>,
    /// The identifier that the next registration returns.
    pub next_id: u32,
}

impl Ledger {
    /// The state of a store in which nothing has been registered.
    pub open spec fn empty() -> Ledger {
        Ledger { products: Map::empty(), next_id: FIRST_ID }
    }

    /// Whether `id` has been issued by a registration.
    pub open spec fn issued(self, id: u32) -> bool {
        FIRST_ID <= id < self.next_id
    }

    /// The invariant of every reachable state: a record exists under an
    /// identifier exactly if that identifier has been issued, and the counter
    /// lies above every issued identifier.
    pub open spec fn wf(self) -> bool {
        &&& self.next_id >= FIRST_ID
        &&& forall|id: u32| #[trigger] self.products.contains_key(id) <==> self.issued(id)
    }

    /// Whether the identifier space is used up, so that nothing more can be
    /// registered.
    pub open spec fn exhausted(self) -> bool {
        self.next_id == u32::MAX
    }

    /// The state after registering a record: it is stored under the current
    /// counter, and the counter moves on by one.
    pub open spec fn add_product(self, name: Seq<char>, quantity: i32) -> Ledger
        recommends
            !self.exhausted(),
    {
        Ledger {
            products: self.products.insert(self.next_id, ProductView { name, quantity }),
            next_id: (self.next_id + 1) as u32,
        }
    }

    /// The state after an update of the quantity under `id`: the record there
    /// gets the new quantity and keeps its name; where there is none, nothing
    /// changes.
    pub open spec fn update_quantity(self, id: u32, quantity: i32) -> Ledger {
        if self.products.contains_key(id) {
            Ledger {
                products: self.products.insert(id, self.products[id].with_quantity(quantity)),
                next_id: self.next_id,
            }
        } else {
            self
        }
    }

    /// The record stored under `id`, if there is one.
    pub open spec fn get_product(self, id: u32) -> Option<ProductView> {
        if self.products.contains_key(id) {
            Some(self.products[id])
        } else {
            None
        }
    }

    /// The state after registering `items` one after another, first to last.
    pub open spec fn add_products(self, items: Seq<ProductView>) -> Ledger
        decreases items.len(),
    {
        if items.len() == 0 {
            self
        } else {
            self.add_products(items.drop_last()).add_product(
                items.last().name,
                items.last().quantity,
            )
        }
    }

    /// The identifiers that those registrations return, in call order.
    pub open spec fn issued_ids(self, items: Seq<ProductView>) -> Seq<u32>
        decreases items.len(),
    {
        if items.len() == 0 {
            Seq::empty()
        } else {
            self.issued_ids(items.drop_last()).push(self.add_products(items.drop_last()).next_id)
        }
    }
}

/// The empty state is well formed.
pub proof fn lemma_empty_wf()
    ensures
        Ledger::empty().wf(),
{
}

/// Registration keeps a state well formed, keeps every record that was there
/// as it was, and issues an identifier under which nothing was stored.
pub proof fn lemma_add_product_preserves(ledger: Ledger, name: Seq<char>, quantity: i32)
    requires
        ledger.wf(),
        !ledger.exhausted(),
    ensures
        ledger.add_product(name, quantity).wf(),
        !ledger.issued(ledger.next_id),
        ledger.add_product(name, quantity).issued(ledger.next_id),
        forall|id: u32|
            ledger.issued(id) ==> ledger.add_product(name, quantity).get_product(id)
                == #[trigger] ledger.get_product(id),
{
    let after = ledger.add_product(name, quantity);
    assert forall|id: u32| #[trigger] after.products.contains_key(id) <==> after.issued(id) by {
        assert(ledger.products.contains_key(id) <==> ledger.issued(id));
    }
    assert forall|id: u32| ledger.issued(id) implies after.get_product(id)
        == #[trigger] ledger.get_product(id) by {
        assert(ledger.products.contains_key(id) <==> ledger.issued(id));
    }
}

/// An update keeps a state well formed, issues nothing, keeps the set of
/// stored identifiers, and leaves the record under every other identifier as
/// it was.
pub proof fn lemma_update_quantity_preserves(ledger: Ledger, id: u32, quantity: i32)
    requires
        ledger.wf(),
    ensures
        ledger.update_quantity(id, quantity).wf(),
        ledger.update_quantity(id, quantity).next_id == ledger.next_id,
        ledger.update_quantity(id, quantity).products.dom() == ledger.products.dom(),
        forall|other: u32|
            other != id ==> ledger.update_quantity(id, quantity).get_product(other)
                == #[trigger] ledger.get_product(other),
{
    let after = ledger.update_quantity(id, quantity);
    assert forall|k: u32| #[trigger] after.products.contains_key(k) <==> after.issued(k) by {
        assert(ledger.products.contains_key(k) <==> ledger.issued(k));
    }
    assert(after.products.dom() =~= ledger.products.dom());
}

/// Registrations made one after another return identifiers that count up by
/// one from the counter they started at: they are strictly increasing in call
/// order, pairwise distinct, and none of them was issued before.
pub proof fn lemma_identifiers_increase(ledger: Ledger, items: Seq<ProductView>)
    requires
        ledger.wf(),
        ledger.next_id + items.len() <= u32::MAX,
    ensures
        ledger.add_products(items).wf(),
        ledger.add_products(items).next_id == ledger.next_id + items.len(),
        ledger.issued_ids(items).len() == items.len(),
        forall|i: int|
            0 <= i < items.len() ==> #[trigger] ledger.issued_ids(items)[i] == ledger.next_id + i,
        forall|i: int, j: int|
            0 <= i < j < items.len() ==> #[trigger] ledger.issued_ids(items)[i]
                < #[trigger] ledger.issued_ids(items)[j],
        forall|i: int|
            0 <= i < items.len() ==> !ledger.issued(#[trigger] ledger.issued_ids(items)[i]),
    decreases items.len(),
{
    if items.len() > 0 {
        let earlier = items.drop_last();
        lemma_identifiers_increase(ledger, earlier);
        lemma_add_product_preserves(
            ledger.add_products(earlier),
            items.last().name,
            items.last().quantity,
        );
    }
}

/// A record that was just registered is read back, under the identifier
/// issued for it, with the name and the quantity it was registered with.
pub proof fn lemma_add_then_get(ledger: Ledger, name: Seq<char>, quantity: i32)
    requires
        !ledger.exhausted(),
    ensures
        ledger.add_product(name, quantity).get_product(ledger.next_id) == Some(
            ProductView { name, quantity },
        ),
{
}

/// After an update of a stored record, it is read back with the new quantity
/// and the name it had.
pub proof fn lemma_update_then_get(ledger: Ledger, id: u32, quantity: i32)
    requires
        ledger.products.contains_key(id),
    ensures
        ledger.update_quantity(id, quantity).get_product(id) == Some(
            ProductView { name: ledger.products[id].name, quantity },
        ),
{
}

/// An update under an identifier that was never issued changes nothing.
pub proof fn lemma_update_unissued(ledger: Ledger, id: u32, quantity: i32)
    requires
        ledger.wf(),
        !ledger.issued(id),
    ensures
        !ledger.products.contains_key(id),
        ledger.update_quantity(id, quantity) == ledger,
{
}

/// Nothing is read back under an identifier that was never issued.
pub proof fn lemma_get_unissued(ledger: Ledger, id: u32)
    requires
        ledger.wf(),
        !ledger.issued(id),
    ensures
        ledger.get_product(id).is_none(),
{
}

/// An update made twice with the same quantity leaves the state that one
/// such update leaves.
pub proof fn lemma_update_idempotent(ledger: Ledger, id: u32, quantity: i32)
    ensures
        ledger.update_quantity(id, quantity).update_quantity(id, quantity)
            == ledger.update_quantity(id, quantity),
{
    let once = ledger.update_quantity(id, quantity);
    let twice = once.update_quantity(id, quantity);
    assert(twice.products =~= once.products);
}

} // verus!
