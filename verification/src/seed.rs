//! The sample products that an empty catalogue receives when the service
//! starts.

use vstd::prelude::*;
use crate::models::{NewProduct, NewProductView, Price};
use crate::table::{ProductTable, StoreError, TableView};

verus! {

/// The five sample products, in the order in which they are stored.
pub open spec fn sample_views() -> Seq<NewProductView> {
    seq![
        NewProductView {
            name: "Wireless Headphones"@,
            description: "High-quality sound"@,
            // 99.99
            price: Price { bits: 0x4058_FF5C_28F5_C28F },
            image_url: "https://source.unsplash.com/300x300/?headphones"@,
        },
        NewProductView {
            name: "Smart Watch"@,
            description: "Fitness tracking & notifications"@,
            // 149.99
            price: Price { bits: 0x4062_BFAE_147A_E148 },
            image_url: "https://source.unsplash.com/300x300/?smartwatch"@,
        },
        NewProductView {
            name: "Gaming Laptop"@,
            description: "High performance for gaming"@,
            // 1299.99
            price: Price { bits: 0x4094_4FF5_C28F_5C29 },
            image_url: "https://source.unsplash.com/300x300/?laptop"@,
        },
        NewProductView {
            name: "Sneakers"@,
            description: "Comfortable everyday sneakers"@,
            // 79.99
            price: Price { bits: 0x4053_FF5C_28F5_C28F },
            image_url: "https://source.unsplash.com/300x300/?sneakers"@,
        },
        NewProductView {
            name: "Sunglasses"@,
            description: "UV protection stylish shades"@,
            // 49.99
            price: Price { bits: 0x4048_FEB8_51EB_851F },
            image_url: "https://source.unsplash.com/300x300/?sunglasses"@,
        },
    ]
}

/// A table is seeded when it holds no row: `count` is the number of its rows.
pub open spec fn wants_seed(count: int) -> bool {
    count == 0
}

impl TableView {
    /// The relation after the startup seeding: an empty relation receives the
    /// samples in one batch, any other is left alone.
    pub open spec fn seeded(self) -> TableView {
        if wants_seed(self.rows.len() as int) {
            self.insert_all(sample_views())
        } else {
            self
        }
    }
}

/// The five sample products.
pub fn sample_products() -> (samples: Vec<NewProduct>)
    ensures
        samples.deep_view() == sample_views(),
{
    let mut samples: Vec<NewProduct> = Vec::new();
    samples.push(
        NewProduct::new(
            "Wireless Headphones",
            "High-quality sound",
            Price::from_bits(0x4058_FF5C_28F5_C28F),
            "https://source.unsplash.com/300x300/?headphones",
        ),
    );
    samples.push(
        NewProduct::new(
            "Smart Watch",
            "Fitness tracking & notifications",
            Price::from_bits(0x4062_BFAE_147A_E148),
            "https://source.unsplash.com/300x300/?smartwatch",
        ),
    );
    samples.push(
        NewProduct::new(
            "Gaming Laptop",
            "High performance for gaming",
            Price::from_bits(0x4094_4FF5_C28F_5C29),
            "https://source.unsplash.com/300x300/?laptop",
        ),
    );
    samples.push(
        NewProduct::new(
            "Sneakers",
            "Comfortable everyday sneakers",
            Price::from_bits(0x4053_FF5C_28F5_C28F),
            "https://source.unsplash.com/300x300/?sneakers",
        ),
    );
    samples.push(
        NewProduct::new(
            "Sunglasses",
            "UV protection stylish shades",
            Price::from_bits(0x4048_FEB8_51EB_851F),
            "https://source.unsplash.com/300x300/?sunglasses",
        ),
    );
    assert(samples.deep_view() =~= sample_views());
    samples
}

/// What the startup seeding stores in a table that holds `count` rows: the
/// samples when the table is empty, nothing otherwise.
pub fn seed_batch(count: i64) -> (batch: Option<Vec<NewProduct>>)
    ensures
        wants_seed(count as int) ==> batch is Some && batch->0.deep_view() == sample_views(),
        !wants_seed(count as int) ==> batch is None,
{
    if count == 0 {
        Some(sample_products())
    } else {
        None
    }
}

/// Seeds the table at startup and says whether it stored the samples.
///
/// A table with rows is left alone. An empty one receives the five samples
/// in one batch; where the sequence has too few identifiers left for them,
/// nothing is stored and the error says so.
pub fn insert_dummy_products(table: &mut ProductTable) -> (result: Result<bool, StoreError>)
    ensures
        old(table)@.valid(),
        final(table)@.valid(),
        match result {
            Ok(stored) => {
                &&& stored == wants_seed(old(table)@.rows.len() as int)
                &&& stored ==> old(table)@.has_room(5)
                &&& final(table)@ == old(table)@.seeded()
            },
            Err(error) => {
                &&& wants_seed(old(table)@.rows.len() as int)
                &&& !old(table)@.has_room(5)
                &&& error == StoreError::IdentifiersExhausted
                &&& final(table)@ == old(table)@
            },
        },
{
    let count = table.count();
    match seed_batch(count) {
        None => Ok(false),
        Some(batch) => {
            assert(batch.len() == 5) by {
                assert(batch.deep_view().len() == sample_views().len());
            }
            match table.insert_all(&batch) {
                Ok(_) => Ok(true),
                Err(error) => Err(error),
            }
        },
    }
}

/// Every sample has a name and a price above zero.
pub proof fn lemma_samples_are_presentable()
    ensures
        sample_views().len() == 5,
        forall|k: int|
            0 <= k < 5 ==> (#[trigger] sample_views()[k]).name.len() > 0 && sample_views()[k].price.positive(),
{
    reveal_strlit("Wireless Headphones");
    reveal_strlit("Smart Watch");
    reveal_strlit("Gaming Laptop");
    reveal_strlit("Sneakers");
    reveal_strlit("Sunglasses");
}

/// Seeding the empty table stores exactly the five samples, numbered from
/// one in their order; listing then shows them and nothing else, each with
/// a name and a price above zero.
pub proof fn lemma_seeded_empty_table()
    ensures
        TableView::empty().seeded().valid(),
        TableView::empty().seeded().issued == 5,
        TableView::empty().seeded().rows == Seq::new(
            5,
            |k: int| sample_views()[k].with_id(k + 1),
        ),
        forall|k: int|
            #![trigger TableView::empty().seeded().rows[k]]
            0 <= k < 5 ==> {
                &&& TableView::empty().seeded().rows[k].payload() == sample_views()[k]
                &&& TableView::empty().seeded().rows[k].name.len() > 0
                &&& TableView::empty().seeded().rows[k].price.positive()
            },
{
    let seeded = TableView::empty().seeded();
    TableView::empty().lemma_insert_all_valid(sample_views());
    lemma_samples_are_presentable();
    assert(seeded.rows =~= Seq::new(5, |k: int| sample_views()[k].with_id(k + 1)));
    assert forall|k: int| #![trigger seeded.rows[k]] 0 <= k < 5 implies {
        &&& seeded.rows[k].payload() == sample_views()[k]
        &&& seeded.rows[k].name.len() > 0
        &&& seeded.rows[k].price.positive()
    } by {
        assert(seeded.rows[k] == sample_views()[k].with_id(k + 1));
    }
}

/// Seeding a table that holds a row changes nothing.
pub proof fn lemma_seeding_spares_filled_table(table: TableView)
    requires
        table.rows.len() > 0,
    ensures
        table.seeded() == table,
{
}

} // verus!
