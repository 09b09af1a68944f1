//! Keyed in-memory storage of orders, addressed by order id, with
//! save-wins-on-conflict semantics and a state-validating read path.

use std::collections::HashMap;

use vstd::prelude::*;

use crate::errors::Error;
use crate::order::Cancelled;
use crate::order::Confirmed;
use crate::order::Created;
use crate::order::Order;
use crate::order::OrderVariant;
use crate::order::Shipped;
use crate::storage::reconstruct_matches;
use crate::storage::reconstruct_variant;
use crate::storage::spec_flatten_variant;
use crate::storage::spec_reconstruct_cancelled;
use crate::storage::spec_reconstruct_confirmed;
use crate::storage::spec_reconstruct_created;
use crate::storage::spec_reconstruct_shipped;
use crate::storage::spec_reconstruct_variant;
use crate::storage::variant_result_matches;
use crate::storage::PersistedOrder;
use crate::storage::PersistedOrderView;

verus! {

broadcast use vstd::std_specs::hash::group_hash_axioms;

/// The mathematical value of the backing store.
pub open spec fn store_view(m: Map<u128, PersistedOrder>) -> Map<u128, PersistedOrderView> {
    m.map_values(|rec: PersistedOrder| rec@)
}

proof fn lemma_store_view_index(m: Map<u128, PersistedOrder>, k: u128)
    ensures
        store_view(m).dom() == m.dom(),
        m.contains_key(k) ==> store_view(m)[k] == m[k]@,
{
}

proof fn lemma_store_view_insert(m: Map<u128, PersistedOrder>, k: u128, rec: PersistedOrder)
    ensures
        store_view(m.insert(k, rec)) == store_view(m).insert(k, rec@),
{
    assert(store_view(m.insert(k, rec)) =~= store_view(m).insert(k, rec@));
}

/// An in-memory repository: a single keyed map from order id to flattened
/// record. The last writer for an id replaces the previous record.
pub struct MemoryRepository {
    orders: HashMap<u128, PersistedOrder>,
}

impl View for MemoryRepository {
    type V = Map<u128, PersistedOrderView>;

    closed spec fn view(&self) -> Map<u128, PersistedOrderView> {
        store_view(self.orders@)
    }
}

impl MemoryRepository {
    /// An empty repository.
    pub fn new() -> (r: MemoryRepository)
        ensures
            r@ == Map::<u128, PersistedOrderView>::empty(),
    {
        let r = MemoryRepository { orders: HashMap::new() };
        proof {
            assert(r@ =~= Map::<u128, PersistedOrderView>::empty());
        }
        r
    }

    /// Persists an order of any phase, flattened, keyed by its id; an
    /// existing record for that id is replaced. The in-memory backend cannot
    /// fail.
    pub fn save(&mut self, order: OrderVariant) -> (r: Result<(), Error>)
        ensures
            r == Ok::<(), Error>(()),
            final(self)@ == old(self)@.insert(order@.order_id(), spec_flatten_variant(order@)),
    {
        let id = order.id();
        let rec = order.flatten();
        proof {
            lemma_store_view_insert(self.orders@, id, rec);
        }
        self.orders.insert(id, rec);
        Ok(())
    }

    /// Retrieves the order stored for `id` at its own discriminator:
    /// `OrderNotFound` if the id is absent, `MissingField` if the record
    /// violates the storage invariant.
    pub fn get(&self, id: u128) -> (r: Result<OrderVariant, Error>)
        ensures
            !self@.contains_key(id) ==> r == Err::<OrderVariant, Error>(Error::OrderNotFound(id)),
            self@.contains_key(id) ==> variant_result_matches(
                r,
                spec_reconstruct_variant(self@[id]),
            ),
    {
        proof {
            lemma_store_view_index(self.orders@, id);
        }
        match self.orders.get(&id) {
            None => Err(Error::OrderNotFound(id)),
            Some(rec) => reconstruct_variant(rec),
        }
    }

    /// Retrieves the order stored for `id` as a Created order, verifying the
    /// stored discriminator: `OrderNotFound` if the id is absent,
    /// `InvalidOrderType` if the record holds another phase.
    pub fn find_created(&self, id: u128) -> (r: Result<Order<Created>, Error>)
        ensures
            !self@.contains_key(id) ==> r == Err::<Order<Created>, Error>(
                Error::OrderNotFound(id),
            ),
            self@.contains_key(id) ==> reconstruct_matches(r, spec_reconstruct_created(self@[id])),
    {
        proof {
            lemma_store_view_index(self.orders@, id);
        }
        match self.orders.get(&id) {
            None => Err(Error::OrderNotFound(id)),
            Some(rec) => Order::<Created>::reconstruct(rec),
        }
    }

    /// Retrieves the order stored for `id` as a Confirmed order; see
    /// [`MemoryRepository::find_created`].
    pub fn find_confirmed(&self, id: u128) -> (r: Result<Order<Confirmed>, Error>)
        ensures
            !self@.contains_key(id) ==> r == Err::<Order<Confirmed>, Error>(
                Error::OrderNotFound(id),
            ),
            self@.contains_key(id) ==> reconstruct_matches(
                r,
                spec_reconstruct_confirmed(self@[id]),
            ),
    {
        proof {
            lemma_store_view_index(self.orders@, id);
        }
        match self.orders.get(&id) {
            None => Err(Error::OrderNotFound(id)),
            Some(rec) => Order::<Confirmed>::reconstruct(rec),
        }
    }

    /// Retrieves the order stored for `id` as a Shipped order; see
    /// [`MemoryRepository::find_created`].
    pub fn find_shipped(&self, id: u128) -> (r: Result<Order<Shipped>, Error>)
        ensures
            !self@.contains_key(id) ==> r == Err::<Order<Shipped>, Error>(
                Error::OrderNotFound(id),
            ),
            self@.contains_key(id) ==> reconstruct_matches(r, spec_reconstruct_shipped(self@[id])),
    {
        proof {
            lemma_store_view_index(self.orders@, id);
        }
        match self.orders.get(&id) {
            None => Err(Error::OrderNotFound(id)),
            Some(rec) => Order::<Shipped>::reconstruct(rec),
        }
    }

    /// Retrieves the order stored for `id` as a Cancelled order; see
    /// [`MemoryRepository::find_created`].
    pub fn find_cancelled(&self, id: u128) -> (r: Result<Order<Cancelled>, Error>)
        ensures
            !self@.contains_key(id) ==> r == Err::<Order<Cancelled>, Error>(
                Error::OrderNotFound(id),
            ),
            self@.contains_key(id) ==> reconstruct_matches(
                r,
                spec_reconstruct_cancelled(self@[id]),
            ),
    {
        proof {
            lemma_store_view_index(self.orders@, id);
        }
        match self.orders.get(&id) {
            None => Err(Error::OrderNotFound(id)),
            Some(rec) => Order::<Cancelled>::reconstruct(rec),
        }
    }
}

} // verus!
