//! The products relation: the rows of the catalogue and the sequence that
//! numbers them.
//!
//! `TableView` is the relation as mathematics, with the operations that the
//! service performs on it: what the service relies on, wherever the rows are
//! kept. `ProductTable` keeps such a relation in memory and carries each
//! operation out.

use vstd::prelude::*;
use crate::models::{NewProduct, NewProductView, Product, ProductView};

verus! {

/// The relation as mathematics: its rows in the order in which they are
/// listed, and the last identifier that the sequence has handed out.
pub struct TableView {
    pub rows: Seq<ProductView>,
    pub issued: int,
}

impl TableView {
    /// The relation without rows, whose sequence has handed out nothing.
    pub open spec fn empty() -> TableView {
        TableView { rows: Seq::empty(), issued: 0 }
    }

    /// What holds of every relation: identifiers come from the sequence, and
    /// no two rows share one.
    pub open spec fn valid(self) -> bool {
        &&& 0 <= self.issued <= i32::MAX
        &&& forall|i: int|
            #![trigger self.rows[i]]
            0 <= i < self.rows.len() ==> 1 <= self.rows[i].id <= self.issued
        &&& forall|i: int, j: int|
            #![trigger self.rows[i], self.rows[j]]
            0 <= i < j < self.rows.len() ==> self.rows[i].id != self.rows[j].id
    }

    /// Some row carries the identifier `id`.
    pub open spec fn contains_id(self, id: int) -> bool {
        exists|i: int| 0 <= i < self.rows.len() && (#[trigger] self.rows[i]).id == id
    }

    /// The sequence has handed `id` out at some time.
    pub open spec fn assigned(self, id: int) -> bool {
        1 <= id <= self.issued
    }

    /// The sequence can still hand out `n` identifiers.
    pub open spec fn has_room(self, n: int) -> bool {
        self.issued + n <= i32::MAX
    }

    /// The row that creating `payload` adds.
    pub open spec fn created(self, payload: NewProductView) -> ProductView {
        payload.with_id(self.issued + 1)
    }

    /// The relation after `payload` was created in it.
    pub open spec fn insert(self, payload: NewProductView) -> TableView {
        TableView { rows: self.rows.push(self.created(payload)), issued: self.issued + 1 }
    }

    /// The rows that creating `payloads` in one batch adds: each payload
    /// under the next identifier, in the order of the batch.
    pub open spec fn created_all(self, payloads: Seq<NewProductView>) -> Seq<ProductView> {
        Seq::new(payloads.len(), |k: int| payloads[k].with_id(self.issued + 1 + k))
    }

    /// The relation after `payloads` were created in it in one batch.
    pub open spec fn insert_all(self, payloads: Seq<NewProductView>) -> TableView {
        TableView {
            rows: self.rows + self.created_all(payloads),
            issued: self.issued + payloads.len(),
        }
    }

    /// The relation after `payloads` were created in it one after the other.
    pub open spec fn insert_each(self, payloads: Seq<NewProductView>) -> TableView
        decreases payloads.len(),
    {
        if payloads.len() == 0 {
            self
        } else {
            self.insert_each(payloads.drop_last()).insert(payloads.last())
        }
    }

    /// The relation after every row with the identifier `id` was deleted.
    pub open spec fn delete(self, id: int) -> TableView {
        TableView { rows: self.rows.filter(|row: ProductView| row.id != id), issued: self.issued }
    }

    /// How many rows carry the identifier `id`.
    pub open spec fn matching(self, id: int) -> int {
        self.rows.len() - self.delete(id).rows.len()
    }
}

/// Filtering on an identifier that no row carries keeps every row.
proof fn lemma_filter_keeps_all(rows: Seq<ProductView>, id: int)
    requires
        forall|i: int| 0 <= i < rows.len() ==> (#[trigger] rows[i]).id != id,
    ensures
        rows.filter(|row: ProductView| row.id != id) == rows,
    decreases rows.len(),
{
    reveal(Seq::filter);
    if rows.len() > 0 {
        lemma_filter_keeps_all(rows.drop_last(), id);
        assert(rows.drop_last().push(rows.last()) =~= rows);
    }
}

/// Filtering on the identifier of the row at `k`, which no other row carries,
/// removes that row and nothing else.
proof fn lemma_filter_removes_one(rows: Seq<ProductView>, id: int, k: int)
    requires
        0 <= k < rows.len(),
        rows[k].id == id,
        forall|i: int| 0 <= i < rows.len() && i != k ==> (#[trigger] rows[i]).id != id,
    ensures
        rows.filter(|row: ProductView| row.id != id) == rows.remove(k),
{
    let keep = |row: ProductView| row.id != id;
    let before = rows.subrange(0, k);
    let one = seq![rows[k]];
    let after = rows.subrange(k + 1, rows.len() as int);
    assert(rows =~= before + one + after);
    Seq::filter_distributes_over_add(before + one, after, keep);
    Seq::filter_distributes_over_add(before, one, keep);
    lemma_filter_keeps_all(before, id);
    lemma_filter_keeps_all(after, id);
    assert(one.filter(keep) =~= Seq::<ProductView>::empty()) by {
        reveal_with_fuel(Seq::filter, 2);
    }
    assert(before + Seq::<ProductView>::empty() + after =~= rows.remove(k));
}

impl TableView {
    /// A valid relation holds at most as many rows as its sequence has handed
    /// out identifiers.
    pub proof fn lemma_rows_bounded(self)
        requires
            self.valid(),
        ensures
            self.rows.len() <= self.issued,
    {
        let ids = self.rows.map_values(|row: ProductView| row.id);
        assert(ids.no_duplicates());
        ids.unique_seq_to_set();
        let range = vstd::set_lib::set_int_range(1, self.issued + 1);
        vstd::set_lib::lemma_int_range(1, self.issued + 1);
        assert forall|id: int| ids.to_set().contains(id) implies range.contains(id) by {
            let i = choose|i: int| 0 <= i < ids.len() && ids[i] == id;
            assert(self.rows[i].id == id);
        }
        vstd::set_lib::lemma_len_subset(ids.to_set(), range);
    }

    /// Creating a product in a valid relation with room leaves it valid.
    pub proof fn lemma_insert_valid(self, payload: NewProductView)
        requires
            self.valid(),
            self.has_room(1),
        ensures
            self.insert(payload).valid(),
    {
    }

    /// Creating a batch is creating its payloads one after the other.
    pub proof fn lemma_insert_all_is_insert_each(self, payloads: Seq<NewProductView>)
        ensures
            self.insert_all(payloads) == self.insert_each(payloads),
        decreases payloads.len(),
    {
        if payloads.len() == 0 {
            assert(self.rows + self.created_all(payloads) =~= self.rows);
        } else {
            let front = payloads.drop_last();
            self.lemma_insert_all_is_insert_each(front);
            let mid = self.insert_all(front);
            assert(mid.insert(payloads.last()).rows =~= self.insert_all(payloads).rows);
        }
    }

    /// Creating a batch in a valid relation with room for it leaves it valid.
    pub proof fn lemma_insert_all_valid(self, payloads: Seq<NewProductView>)
        requires
            self.valid(),
            self.has_room(payloads.len() as int),
        ensures
            self.insert_all(payloads).valid(),
    {
        let after = self.insert_all(payloads);
        let n = self.rows.len() as int;
        assert forall|i: int|
            #![trigger after.rows[i]]
            0 <= i < after.rows.len() implies 1 <= after.rows[i].id <= after.issued by {
            if i < n {
                assert(after.rows[i] == self.rows[i]);
            } else {
                assert(after.rows[i].id == self.issued + 1 + (i - n));
            }
        }
        assert forall|i: int, j: int|
            #![trigger after.rows[i], after.rows[j]]
            0 <= i < j < after.rows.len() implies after.rows[i].id != after.rows[j].id by {
            if j < n {
                assert(after.rows[i] == self.rows[i]);
                assert(after.rows[j] == self.rows[j]);
            } else if i < n {
                assert(after.rows[i] == self.rows[i]);
                assert(after.rows[j].id == self.issued + 1 + (j - n));
            } else {
                assert(after.rows[i].id == self.issued + 1 + (i - n));
                assert(after.rows[j].id == self.issued + 1 + (j - n));
            }
        }
    }

    /// Deleting an identifier that no row carries changes nothing.
    pub proof fn lemma_delete_absent(self, id: int)
        requires
            !self.contains_id(id),
        ensures
            self.delete(id) == self,
            self.matching(id) == 0,
    {
        lemma_filter_keeps_all(self.rows, id);
    }

    /// Deleting an identifier that a row of a valid relation carries removes
    /// that one row: the rows before and after it stay, in their order.
    pub proof fn lemma_delete_present(self, id: int, k: int)
        requires
            self.valid(),
            0 <= k < self.rows.len(),
            self.rows[k].id == id,
        ensures
            self.delete(id).rows == self.rows.remove(k),
            self.delete(id).issued == self.issued,
            self.matching(id) == 1,
            !self.delete(id).contains_id(id),
            self.delete(id).valid(),
    {
        assert forall|i: int|
            #![trigger self.rows[i]]
            0 <= i < self.rows.len() && i != k implies self.rows[i].id != id by {
            if i < k {
                assert(self.rows[i].id != self.rows[k].id);
            } else {
                assert(self.rows[k].id != self.rows[i].id);
            }
        }
        lemma_filter_removes_one(self.rows, id, k);
        self.rows.remove_ensures(k);
        let after = self.delete(id);
        assert forall|i: int|
            #![trigger after.rows[i]]
            0 <= i < after.rows.len() implies after.rows[i].id != id && 1 <= after.rows[i].id
                <= after.issued by {
            if i < k {
                assert(after.rows[i] == self.rows[i]);
            } else {
                assert(after.rows[i] == self.rows[i + 1]);
            }
        }
        assert forall|i: int, j: int|
            #![trigger after.rows[i], after.rows[j]]
            0 <= i < j < after.rows.len() implies after.rows[i].id != after.rows[j].id by {
            let si = if i < k { i } else { i + 1 };
            let sj = if j < k { j } else { j + 1 };
            assert(after.rows[i] == self.rows[si]);
            assert(after.rows[j] == self.rows[sj]);
        }
    }

    /// Deleting from a valid relation leaves it valid, and removes one row or
    /// none: one exactly when a row carries the identifier.
    pub proof fn lemma_delete_valid(self, id: int)
        requires
            self.valid(),
        ensures
            self.delete(id).valid(),
            self.matching(id) == (if self.contains_id(id) { 1int } else { 0int }),
            !self.delete(id).contains_id(id),
    {
        if self.contains_id(id) {
            let k = choose|k: int| 0 <= k < self.rows.len() && (#[trigger] self.rows[k]).id == id;
            self.lemma_delete_present(id, k);
        } else {
            self.lemma_delete_absent(id);
        }
    }
}

/// Why the table refused an operation.
#[derive(Clone, Copy, Debug, PartialEq, Eq, Structural)]
pub enum StoreError {
    /// The sequence cannot hand out the identifiers that the operation needs.
    IdentifiersExhausted,
}

impl StoreError {
    /// The message of the error.
    pub open spec fn message_spec(self) -> Seq<char> {
        match self {
            StoreError::IdentifiersExhausted => "no identifier is left for a new product"@,
        }
    }

    /// The message of the error.
    pub fn message(&self) -> (message: String)
        ensures
            message@ == self.message_spec(),
    {
        match self {
            StoreError::IdentifiersExhausted => "no identifier is left for a new product".to_owned(),
        }
    }
}

/// The products relation, kept in memory.
///
/// Identifiers come from a sequence that starts at 1 and never hands a value
/// out twice, also not after its row was deleted. Rows are listed in the
/// order in which they were created.
pub struct ProductTable {
    rows: Vec<Product>,
    issued: i32,
}

impl View for ProductTable {
    type V = TableView;

    closed spec fn view(&self) -> TableView {
        TableView { rows: self.rows.deep_view(), issued: self.issued as int }
    }
}

/// Removing the element at `k` from a vector removes it from its view.
proof fn lemma_remove_deep_view(before: Seq<Product>, after: Seq<Product>, k: int)
    requires
        0 <= k < before.len(),
        after == before.remove(k),
    ensures
        Seq::new(after.len(), |i: int| after[i].deep_view()) == Seq::new(
            before.len(),
            |i: int| before[i].deep_view(),
        ).remove(k),
{
    before.remove_ensures(k);
    let deep_before = Seq::new(before.len(), |i: int| before[i].deep_view());
    deep_before.remove_ensures(k);
    assert(Seq::new(after.len(), |i: int| after[i].deep_view()) =~= deep_before.remove(k));
}

impl ProductTable {
    #[verifier::type_invariant]
    spec fn well_formed(self) -> bool {
        self@.valid()
    }

    /// An empty table whose sequence has handed out nothing.
    pub fn new() -> (table: ProductTable)
        ensures
            table@ == TableView::empty(),
    {
        let table = ProductTable { rows: Vec::new(), issued: 0 };
        assert(table@.rows =~= TableView::empty().rows);
        table
    }

    /// An empty table whose sequence has already handed out the identifiers
    /// up to `issued`, as after every row was deleted. There is none for a
    /// negative `issued`.
    pub fn with_issued(issued: i32) -> (table: Option<ProductTable>)
        ensures
            issued >= 0 ==> table is Some && table->0@ == (TableView {
                rows: Seq::empty(),
                issued: issued as int,
            }),
            issued < 0 ==> table is None,
    {
        if issued < 0 {
            return None;
        }
        let table = ProductTable { rows: Vec::new(), issued };
        assert(table@.rows =~= Seq::<ProductView>::empty());
        Some(table)
    }

    /// The last identifier that the sequence has handed out; zero before the
    /// first.
    pub fn last_issued(&self) -> (issued: i32)
        ensures
            issued == self@.issued,
            self@.valid(),
    {
        proof {
            use_type_invariant(self);
        }
        self.issued
    }

    /// Every row, in the order in which the rows were created.
    pub fn load(&self) -> (products: Vec<Product>)
        ensures
            products.deep_view() == self@.rows,
            self@.valid(),
    {
        proof {
            use_type_invariant(self);
        }
        let mut products: Vec<Product> = Vec::new();
        let mut k: usize = 0;
        while k < self.rows.len()
            invariant
                k <= self.rows.len(),
                products.len() == k,
                forall|i: int| 0 <= i < k ==> (#[trigger] products[i])@ == self.rows[i]@,
            decreases self.rows.len() - k,
        {
            products.push(self.rows[k].clone());
            k += 1;
        }
        assert(products.deep_view() =~= self@.rows);
        products
    }

    /// The number of rows.
    pub fn count(&self) -> (count: i64)
        ensures
            count == self@.rows.len(),
            self@.valid(),
    {
        proof {
            use_type_invariant(self);
            self@.lemma_rows_bounded();
        }
        self.rows.len() as i64
    }

    /// Creates one product and returns the row that now stores it.
    ///
    /// Nothing in the payload is validated. The operation fails only when the
    /// sequence has no identifier left, and then changes nothing.
    pub fn insert(&mut self, new_product: NewProduct) -> (result: Result<Product, StoreError>)
        ensures
            old(self)@.valid(),
            final(self)@.valid(),
            match result {
                Ok(product) => {
                    &&& old(self)@.has_room(1)
                    &&& product@ == old(self)@.created(new_product@)
                    &&& final(self)@ == old(self)@.insert(new_product@)
                },
                Err(error) => {
                    &&& !old(self)@.has_room(1)
                    &&& error == StoreError::IdentifiersExhausted
                    &&& final(self)@ == old(self)@
                },
            },
    {
        proof {
            use_type_invariant(&*self);
        }
        if self.issued == i32::MAX {
            return Err(StoreError::IdentifiersExhausted);
        }
        let ghost before = self@;
        let id: i32 = self.issued + 1;
        let product = Product::from_new(id, new_product);
        let stored = product.clone();
        let mut rows: Vec<Product> = Vec::new();
        std::mem::swap(&mut rows, &mut self.rows);
        rows.push(stored);
        proof {
            before.lemma_insert_valid(new_product@);
            assert(rows.deep_view() =~= before.insert(new_product@).rows);
        }
        self.issued = id;
        self.rows = rows;
        Ok(product)
    }

    /// Creates the products of a batch in one step, in the order of the
    /// batch, and returns how many rows were added.
    ///
    /// Either every payload is stored or, when the sequence has too few
    /// identifiers left for the whole batch, none is.
    pub fn insert_all(&mut self, new_products: &Vec<NewProduct>) -> (result: Result<
        usize,
        StoreError,
    >)
        ensures
            old(self)@.valid(),
            final(self)@.valid(),
            match result {
                Ok(added) => {
                    &&& old(self)@.has_room(new_products.len() as int)
                    &&& added == new_products.len()
                    &&& final(self)@ == old(self)@.insert_all(new_products.deep_view())
                },
                Err(error) => {
                    &&& !old(self)@.has_room(new_products.len() as int)
                    &&& error == StoreError::IdentifiersExhausted
                    &&& final(self)@ == old(self)@
                },
            },
    {
        proof {
            use_type_invariant(&*self);
        }
        let n: usize = new_products.len();
        let left: i32 = i32::MAX - self.issued;
        if n > left as usize {
            return Err(StoreError::IdentifiersExhausted);
        }
        let ghost before = self@;
        let ghost payloads = new_products.deep_view();
        let mut rows: Vec<Product> = Vec::new();
        std::mem::swap(&mut rows, &mut self.rows);
        let mut next: i32 = self.issued;
        let mut k: usize = 0;
        while k < n
            invariant
                n == new_products.len(),
                k <= n,
                before.issued + n <= i32::MAX,
                next == before.issued + k,
                payloads == new_products.deep_view(),
                rows.deep_view() == before.rows + before.created_all(payloads).take(k as int),
            decreases n - k,
        {
            let ghost listed = rows.deep_view();
            next = next + 1;
            let row = Product::from_new(next, new_products[k].clone());
            proof {
                let created = before.created_all(payloads);
                assert(payloads[k as int] == new_products[k as int]@);
                assert(row@ == created[k as int]);
                assert(created.take(k + 1) =~= created.take(k as int).push(created[k as int]));
            }
            rows.push(row);
            assert(rows.deep_view() =~= listed.push(row@));
            k += 1;
        }
        proof {
            before.lemma_insert_all_valid(payloads);
            assert(before.created_all(payloads).take(n as int) =~= before.created_all(payloads));
        }
        self.issued = next;
        self.rows = rows;
        Ok(n)
    }

    /// Deletes the row with the identifier `id`, if there is one, and returns
    /// how many rows were removed. The sequence is left as it was.
    pub fn delete_by_id(&mut self, id: i32) -> (removed: usize)
        ensures
            old(self)@.valid(),
            final(self)@.valid(),
            final(self)@ == old(self)@.delete(id as int),
            removed == old(self)@.matching(id as int),
    {
        proof {
            use_type_invariant(&*self);
        }
        let ghost before = self@;
        let mut k: usize = 0;
        while k < self.rows.len() && self.rows[k].id != id
            invariant
                k <= self.rows.len(),
                forall|i: int| 0 <= i < k ==> (#[trigger] self.rows[i]).id != id,
            decreases self.rows.len() - k,
        {
            k += 1;
        }
        if k == self.rows.len() {
            proof {
                assert forall|i: int|
                    #![trigger before.rows[i]]
                    0 <= i < before.rows.len() implies before.rows[i].id != id by {
                    assert(self.rows[i].id != id);
                }
                before.lemma_delete_absent(id as int);
            }
            return 0;
        }
        let mut rows: Vec<Product> = Vec::new();
        std::mem::swap(&mut rows, &mut self.rows);
        let ghost stored = rows@;
        let _ = rows.remove(k);
        proof {
            before.lemma_delete_present(id as int, k as int);
            lemma_remove_deep_view(stored, rows@, k as int);
            assert(rows.deep_view() =~= before.delete(id as int).rows);
        }
        self.rows = rows;
        1
    }
}

} // verus!
