use vstd::prelude::*;
use std::collections::HashMap;
use crate::errors::ApiError;

verus! {

broadcast use vstd::std_specs::hash::group_hash_axioms;

/// One inventory row: a product identifier and its current stock level.
#[derive(Clone, Copy, Debug, PartialEq, Eq, Structural)]
pub struct InventoryRecord {
    pub product_id: i32,
    pub stock: i32,
}

/// The observable state of the inventory table: at most one record per
/// product, viewed as a map from product identifier to stock. The atomic
/// insert-or-overwrite below is the table's only write, so two racing writers
/// to the same product can only serialize into one of their two values, never
/// interleave into a merged or duplicated row.
pub struct InventoryTable {
    records: HashMap<i32, i32>,
}

impl View for InventoryTable {
    type V = Map<i32, i32>;

    closed spec fn view(&self) -> Map<i32, i32> {
        self.records@
    }
}

/// What a lookup answers on a given table state: the unique record when the
/// product is present, `NotFound` when it is absent. Absence is a legitimate
/// outcome, distinct from a store failure.
pub open spec fn spec_read_stock(m: Map<i32, i32>, product_id: i32) -> Result<
    InventoryRecord,
    ApiError,
> {
    if m.contains_key(product_id) {
        Ok(InventoryRecord { product_id, stock: m[product_id] })
    } else {
        Err(ApiError::NotFound)
    }
}

/// What an upsert does to a given table state: a negative stock is rejected
/// before any store access and the state is kept; otherwise the record for the
/// product is created or fully overwritten in one step, and the persisted
/// record is returned.
pub open spec fn spec_set_stock(m: Map<i32, i32>, product_id: i32, stock: i32) -> (Map<i32, i32>, Result<
    InventoryRecord,
    ApiError,
>) {
    if stock < 0 {
        (m, Err(ApiError::InvalidInput))
    } else {
        (m.insert(product_id, stock), Ok(InventoryRecord { product_id, stock }))
    }
}

impl InventoryTable {
    /// Every persisted stock value is non-negative.
    pub open spec fn wf(self) -> bool {
        forall|pid: i32| self@.contains_key(pid) ==> #[trigger] self@[pid] >= 0
    }

    /// An empty table: no product has a record yet.
    pub fn new() -> (t: Self)
        ensures
            t@ == Map::<i32, i32>::empty(),
            t.wf(),
    {
        InventoryTable { records: HashMap::new() }
    }

    /// ReadStock: the record for `product_id` if one exists, `NotFound`
    /// otherwise — never a made-up zero-stock record.
    pub fn read_stock(&self, product_id: i32) -> (r: Result<InventoryRecord, ApiError>)
        ensures
            r == spec_read_stock(self@, product_id),
    {
        match self.records.get(&product_id) {
            Some(s) => Ok(InventoryRecord { product_id, stock: *s }),
            None => Err(ApiError::NotFound),
        }
    }

    /// SetStock: rejects a negative stock with `InvalidInput` and leaves the
    /// table untouched; otherwise atomically inserts or overwrites the record
    /// for `product_id` and returns the record as persisted.
    pub fn set_stock(&mut self, product_id: i32, stock: i32) -> (r: Result<InventoryRecord, ApiError>)
        ensures
            r == spec_set_stock(old(self)@, product_id, stock).1,
            final(self)@ == spec_set_stock(old(self)@, product_id, stock).0,
            old(self).wf() ==> final(self).wf(),
    {
        if stock < 0 {
            Err(ApiError::InvalidInput)
        } else {
            self.records.insert(product_id, stock);
            Ok(InventoryRecord { product_id, stock })
        }
    }
}

/// The input validation gate of SetStock, for callers that keep their records
/// in an outside store: a stock value is acceptable exactly when it is
/// non-negative.
pub fn validate_stock(stock: i32) -> (ok: bool)
    ensures
        ok <==> stock >= 0,
{
    stock >= 0
}

/// Idempotence of SetStock: writing the same stock twice in a row returns the
/// same result both times, and the table after the second write is the table
/// after the first.
pub proof fn lemma_set_stock_idempotent(m: Map<i32, i32>, product_id: i32, stock: i32)
    ensures
        spec_set_stock(spec_set_stock(m, product_id, stock).0, product_id, stock).1
            == spec_set_stock(m, product_id, stock).1,
        spec_set_stock(spec_set_stock(m, product_id, stock).0, product_id, stock).0
            =~= spec_set_stock(m, product_id, stock).0,
{
}

/// Last-writer-wins: two upserts of `a` and `b` to the same product, committed
/// in either serial order, leave exactly one record for that product, whose
/// stock is one of the two written values — never a merge, never a partial
/// value — and no other product's record is touched.
pub proof fn lemma_last_write_wins(m: Map<i32, i32>, product_id: i32, a: i32, b: i32, a_first: bool)
    requires
        a >= 0,
        b >= 0,
    ensures
        ({
            let f = if a_first {
                spec_set_stock(spec_set_stock(m, product_id, a).0, product_id, b).0
            } else {
                spec_set_stock(spec_set_stock(m, product_id, b).0, product_id, a).0
            };
            &&& f.contains_key(product_id)
            &&& f[product_id] == a || f[product_id] == b
            &&& forall|q: i32| q != product_id ==> (#[trigger] f.contains_key(q)
                <==> m.contains_key(q))
            &&& forall|q: i32| q != product_id && m.contains_key(q) ==> #[trigger] f[q] == m[q]
        }),
{
}

} // verus!
