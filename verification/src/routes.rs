//! The routes of the service and the operation behind each of them.
//!
//! Every operation is one step against the products table: it reads or
//! changes the table once and reports the outcome. None validates its input.

use vstd::prelude::*;
use crate::models::{NewProduct, NewProductView, Product};
use crate::table::{ProductTable, StoreError, TableView};

verus! {

/// The HTTP methods that the service knows.
#[derive(Clone, Copy, Debug, PartialEq, Eq, Structural)]
pub enum Method {
    Get,
    Post,
    Delete,
    Options,
}

/// The operations that the service offers.
#[derive(Clone, Copy, Debug, PartialEq, Eq, Structural)]
pub enum Endpoint {
    /// List every product.
    ListProducts,
    /// Create a product from a payload.
    CreateProduct,
    /// Delete the product with the identifier in the path.
    DeleteProduct,
}

impl Endpoint {
    /// The method under which the operation is registered.
    pub open spec fn method_spec(self) -> Method {
        match self {
            Endpoint::ListProducts => Method::Get,
            Endpoint::CreateProduct => Method::Post,
            Endpoint::DeleteProduct => Method::Delete,
        }
    }

    /// The path under which the operation is registered. In the path of the
    /// deletion, `:id` stands for the identifier.
    pub open spec fn path_spec(self) -> Seq<char> {
        match self {
            Endpoint::ListProducts => "/api/products"@,
            Endpoint::CreateProduct => "/api/products"@,
            Endpoint::DeleteProduct => "/api/products/:id"@,
        }
    }

    /// The method under which the operation is registered.
    pub fn method(&self) -> (method: Method)
        ensures
            method == self.method_spec(),
    {
        match self {
            Endpoint::ListProducts => Method::Get,
            Endpoint::CreateProduct => Method::Post,
            Endpoint::DeleteProduct => Method::Delete,
        }
    }

    /// The path under which the operation is registered.
    pub fn path(&self) -> (path: &'static str)
        ensures
            path@ == self.path_spec(),
    {
        match self {
            Endpoint::ListProducts => "/api/products",
            Endpoint::CreateProduct => "/api/products",
            Endpoint::DeleteProduct => "/api/products/:id",
        }
    }
}

/// One entry of the route table: a method and a path, and the operation that
/// answers requests for them.
#[derive(Clone, Copy, Debug)]
pub struct Route {
    pub method: Method,
    pub path: &'static str,
    pub endpoint: Endpoint,
}

impl Route {
    /// The entry registers `endpoint` under its own method and path.
    pub open spec fn registers(self, endpoint: Endpoint) -> bool {
        &&& self.endpoint == endpoint
        &&& self.method == endpoint.method_spec()
        &&& self.path@ == endpoint.path_spec()
    }

    /// The entry for `endpoint`.
    pub fn of(endpoint: Endpoint) -> (route: Route)
        ensures
            route.registers(endpoint),
    {
        Route { method: endpoint.method(), path: endpoint.path(), endpoint }
    }
}

/// The route table: listing, creation and deletion, in that order.
pub fn routes() -> (table: Vec<Route>)
    ensures
        table.len() == 3,
        table[0].registers(Endpoint::ListProducts),
        table[1].registers(Endpoint::CreateProduct),
        table[2].registers(Endpoint::DeleteProduct),
{
    let mut table: Vec<Route> = Vec::new();
    table.push(Route::of(Endpoint::ListProducts));
    table.push(Route::of(Endpoint::CreateProduct));
    table.push(Route::of(Endpoint::DeleteProduct));
    table
}

/// Whether a deletion that removed `rows` rows has deleted anything.
pub fn deleted_any(rows: usize) -> (deleted: bool)
    ensures
        deleted == (rows > 0),
{
    rows > 0
}

/// Lists every product of the table, in the order in which they were created.
pub fn get_products(table: &ProductTable) -> (products: Vec<Product>)
    ensures
        products.deep_view() == table@.rows,
        table@.valid(),
{
    table.load()
}

/// Creates a product from `new_product` and returns the stored record, with
/// the identifier that the table gave it.
///
/// The payload is taken as it is: an empty name, a negative price or a
/// malformed address are stored like any other value. Whether the product is
/// created depends on the table alone: it is, unless the sequence of
/// identifiers is used up, and then the table is unchanged.
pub fn add_product(table: &mut ProductTable, new_product: NewProduct) -> (result: Result<
    Product,
    StoreError,
>)
    ensures
        old(table)@.valid(),
        final(table)@.valid(),
        match result {
            Ok(product) => {
                &&& old(table)@.has_room(1)
                &&& product@ == old(table)@.created(new_product@)
                &&& final(table)@ == old(table)@.insert(new_product@)
            },
            Err(error) => {
                &&& !old(table)@.has_room(1)
                &&& error == StoreError::IdentifiersExhausted
                &&& final(table)@ == old(table)@
            },
        },
{
    table.insert(new_product)
}

/// Deletes the product with the identifier `product_id` and says whether
/// there was one. Deleting an identifier that no product carries is no
/// error: it changes nothing and returns `false`.
pub fn delete_product(table: &mut ProductTable, product_id: i32) -> (deleted: bool)
    ensures
        old(table)@.valid(),
        final(table)@.valid(),
        final(table)@ == old(table)@.delete(product_id as int),
        deleted == old(table)@.contains_id(product_id as int),
        deleted == (old(table)@.matching(product_id as int) > 0),
{
    let removed = table.delete_by_id(product_id);
    proof {
        old(table)@.lemma_delete_valid(product_id as int);
    }
    deleted_any(removed)
}

/// Creating a product and then listing shows the product: the list holds the
/// created record, whose fields are those of the payload. Its identifier is
/// new: the sequence had never handed it out, no row carried it before, and
/// the created record is the only one in the list that carries it. The rows
/// that were there before are listed as before.
pub proof fn lemma_created_product_is_listed(table: TableView, payload: NewProductView)
    requires
        table.valid(),
        table.has_room(1),
    ensures
        ({
            let created = table.created(payload);
            let listed = table.insert(payload).rows;
            &&& created.payload() == payload
            &&& listed.contains(created)
            &&& !table.assigned(created.id)
            &&& !table.contains_id(created.id)
            &&& forall|i: int|
                0 <= i < listed.len() && (#[trigger] listed[i]).id == created.id ==> listed[i]
                    == created
            &&& listed.take(table.rows.len() as int) == table.rows
            &&& table.insert(payload).valid()
        }),
{
    let created = table.created(payload);
    let listed = table.insert(payload).rows;
    assert(listed[table.rows.len() as int] == created);
    assert(listed.take(table.rows.len() as int) =~= table.rows);
    assert forall|i: int| 0 <= i < listed.len() && (#[trigger] listed[i]).id
        == created.id implies listed[i] == created by {
        if i < table.rows.len() {
            assert(listed[i] == table.rows[i]);
        }
    }
}

/// Deleting an identifier that the sequence never handed out finds no row
/// and leaves the table as it was.
pub proof fn lemma_delete_unassigned_changes_nothing(table: TableView, id: int)
    requires
        table.valid(),
        !table.assigned(id),
    ensures
        !table.contains_id(id),
        table.matching(id) == 0,
        table.delete(id) == table,
{
    table.lemma_delete_absent(id);
}

/// Deleting an identifier that a row carries removes exactly that row: one
/// row is removed, the rows before and after it stay in their order, and no
/// row of the list carries the identifier any more.
pub proof fn lemma_delete_existing_removes_it(table: TableView, id: int)
    requires
        table.valid(),
        table.contains_id(id),
    ensures
        table.matching(id) == 1,
        exists|k: int|
            0 <= k < table.rows.len() && (#[trigger] table.rows[k]).id == id && table.delete(
                id,
            ).rows == table.rows.remove(k),
        !table.delete(id).contains_id(id),
        forall|i: int|
            0 <= i < table.delete(id).rows.len() ==> (#[trigger] table.delete(id).rows[i]).id
                != id,
        table.delete(id).valid(),
{
    let k = choose|k: int| 0 <= k < table.rows.len() && (#[trigger] table.rows[k]).id == id;
    table.lemma_delete_present(id, k);
}

/// Products that are created one after the other, in whatever order the
/// requests arrive, get identifiers that differ from each other and from
/// every identifier that the sequence handed out before. Each created record
/// holds the fields of its payload, and the table lists the records after
/// the rows that it held, in the order of their creation.
pub proof fn lemma_creates_get_distinct_ids(table: TableView, payloads: Seq<NewProductView>)
    requires
        table.valid(),
        table.has_room(payloads.len() as int),
    ensures
        ({
            let created = table.created_all(payloads);
            &&& table.insert_each(payloads).rows == table.rows + created
            &&& table.insert_each(payloads).valid()
            &&& forall|j: int|
                0 <= j < payloads.len() ==> {
                    &&& (#[trigger] created[j]) == table.insert_each(payloads.take(j)).created(
                        payloads[j],
                    )
                    &&& created[j].payload() == payloads[j]
                    &&& !table.assigned(created[j].id)
                    &&& !table.contains_id(created[j].id)
                }
            &&& forall|j: int, k: int|
                #![trigger created[j], created[k]]
                0 <= j < k < payloads.len() ==> created[j].id != created[k].id
        }),
{
    let created = table.created_all(payloads);
    table.lemma_insert_all_is_insert_each(payloads);
    table.lemma_insert_all_valid(payloads);
    assert forall|j: int| 0 <= j < payloads.len() implies {
        &&& (#[trigger] created[j]) == table.insert_each(payloads.take(j)).created(payloads[j])
        &&& created[j].payload() == payloads[j]
        &&& !table.assigned(created[j].id)
        &&& !table.contains_id(created[j].id)
    } by {
        table.lemma_insert_all_is_insert_each(payloads.take(j));
    }
}

} // verus!
