//! The records of the catalogue: a stored product, and the payload from which
//! one is created.

use vstd::prelude::*;

verus! {

/// Bit pattern of positive infinity in IEEE 754 binary64.
pub const INFINITY_BITS: u64 = 0x7FF0_0000_0000_0000;

/// The sign bit of an IEEE 754 binary64 number.
pub const SIGN_BIT: u64 = 0x8000_0000_0000_0000;

/// A price, held as the bit pattern of an IEEE 754 binary64 number.
///
/// The catalogue never computes with a price: it stores the value it was given
/// and hands the same value back. Keeping the 64 bits makes that exact for
/// every number, the infinities and the NaNs included.
#[derive(Clone, Copy, Debug, PartialEq, Eq, Structural)]
pub struct Price {
    pub bits: u64,
}

impl Price {
    /// The bits without the sign: exponent and fraction.
    pub open spec fn magnitude(self) -> int {
        if self.bits >= SIGN_BIT {
            self.bits - SIGN_BIT
        } else {
            self.bits as int
        }
    }

    /// The sign bit is set.
    pub open spec fn sign_set(self) -> bool {
        self.bits >= SIGN_BIT
    }

    /// The bits encode no number: the exponent is all ones and the fraction
    /// is not zero.
    pub open spec fn nan(self) -> bool {
        self.magnitude() > INFINITY_BITS
    }

    /// The encoded number is greater than zero (positive infinity included;
    /// zero and NaN are not).
    pub open spec fn positive(self) -> bool {
        0 < self.bits <= INFINITY_BITS
    }

    /// The encoded number is less than zero (negative infinity included;
    /// negative zero and NaN are not).
    pub open spec fn negative(self) -> bool {
        self.sign_set() && 0 < self.magnitude() <= INFINITY_BITS
    }

    /// The price with the given bit pattern.
    pub fn from_bits(bits: u64) -> (price: Price)
        ensures
            price.bits == bits,
    {
        Price { bits }
    }

    /// The bit pattern of the price.
    pub fn to_bits(&self) -> (bits: u64)
        ensures
            bits == self.bits,
    {
        self.bits
    }

    /// Whether the price is a NaN.
    pub fn is_nan(&self) -> (r: bool)
        ensures
            r == self.nan(),
    {
        if self.bits >= SIGN_BIT {
            self.bits - SIGN_BIT > INFINITY_BITS
        } else {
            self.bits > INFINITY_BITS
        }
    }

    /// Whether the price is greater than zero.
    pub fn is_positive(&self) -> (r: bool)
        ensures
            r == self.positive(),
    {
        0 < self.bits && self.bits <= INFINITY_BITS
    }

    /// Whether the price is less than zero.
    pub fn is_negative(&self) -> (r: bool)
        ensures
            r == self.negative(),
    {
        self.bits > SIGN_BIT && self.bits - SIGN_BIT <= INFINITY_BITS
    }
}

/// Exactly one of three holds of a price: it is a NaN, it is a zero, or it has
/// a sign; and a price is never both positive and negative.
pub proof fn lemma_price_sign_is_exclusive(price: Price)
    ensures
        !(price.positive() && price.negative()),
        price.nan() ==> !price.positive() && !price.negative(),
        price.magnitude() == 0 ==> !price.positive() && !price.negative(),
        !price.nan() && price.magnitude() != 0 ==> price.positive() || price.negative(),
{
}

/// What a creation payload is, as mathematics: the four fields that a client
/// supplies.
pub struct NewProductView {
    pub name: Seq<char>,
    pub description: Seq<char>,
    pub price: Price,
    pub image_url: Seq<char>,
}

/// What a stored product is, as mathematics: an identifier and the four
/// fields that it was created with.
pub struct ProductView {
    pub id: int,
    pub name: Seq<char>,
    pub description: Seq<char>,
    pub price: Price,
    pub image_url: Seq<char>,
}

impl NewProductView {
    /// The record that stores this payload under the identifier `id`.
    pub open spec fn with_id(self, id: int) -> ProductView {
        ProductView {
            id,
            name: self.name,
            description: self.description,
            price: self.price,
            image_url: self.image_url,
        }
    }
}

impl ProductView {
    /// The fields of the record without its identifier.
    pub open spec fn payload(self) -> NewProductView {
        NewProductView {
            name: self.name,
            description: self.description,
            price: self.price,
            image_url: self.image_url,
        }
    }
}

/// The payload from which a product is created: a product without its
/// identifier. No field is validated: any text and any price are taken.
#[derive(Debug, PartialEq, Eq)]
pub struct NewProduct {
    pub name: String,
    pub description: String,
    pub price: Price,
    pub image_url: String,
}

/// A product as the table stores it. The table assigns the identifier, which
/// never changes afterwards.
#[derive(Debug, PartialEq, Eq)]
pub struct Product {
    pub id: i32,
    pub name: String,
    pub description: String,
    pub price: Price,
    pub image_url: String,
}

impl View for NewProduct {
    type V = NewProductView;

    open spec fn view(&self) -> NewProductView {
        NewProductView {
            name: self.name@,
            description: self.description@,
            price: self.price,
            image_url: self.image_url@,
        }
    }
}

impl DeepView for NewProduct {
    type V = NewProductView;

    open spec fn deep_view(&self) -> NewProductView {
        self@
    }
}

impl View for Product {
    type V = ProductView;

    open spec fn view(&self) -> ProductView {
        ProductView {
            id: self.id as int,
            name: self.name@,
            description: self.description@,
            price: self.price,
            image_url: self.image_url@,
        }
    }
}

impl DeepView for Product {
    type V = ProductView;

    open spec fn deep_view(&self) -> ProductView {
        self@
    }
}

impl Clone for NewProduct {
    fn clone(&self) -> (copy: NewProduct)
        ensures
            copy@ == self@,
    {
        NewProduct {
            name: self.name.clone(),
            description: self.description.clone(),
            price: self.price,
            image_url: self.image_url.clone(),
        }
    }
}

impl Clone for Product {
    fn clone(&self) -> (copy: Product)
        ensures
            copy@ == self@,
    {
        Product {
            id: self.id,
            name: self.name.clone(),
            description: self.description.clone(),
            price: self.price,
            image_url: self.image_url.clone(),
        }
    }
}

impl NewProduct {
    /// A payload with the given fields.
    pub fn new(name: &str, description: &str, price: Price, image_url: &str) -> (payload: NewProduct)
        ensures
            payload@ == (NewProductView {
                name: name@,
                description: description@,
                price,
                image_url: image_url@,
            }),
    {
        NewProduct {
            name: name.to_owned(),
            description: description.to_owned(),
            price,
            image_url: image_url.to_owned(),
        }
    }
}

impl Product {
    /// The record that stores `new_product` under the identifier `id`.
    pub fn from_new(id: i32, new_product: NewProduct) -> (product: Product)
        ensures
            product@ == new_product@.with_id(id as int),
    {
        Product {
            id,
            name: new_product.name,
            description: new_product.description,
            price: new_product.price,
            image_url: new_product.image_url,
        }
    }

    /// The fields of the record without its identifier.
    pub fn payload(&self) -> (new_product: NewProduct)
        ensures
            new_product@ == self@.payload(),
    {
        NewProduct {
            name: self.name.clone(),
            description: self.description.clone(),
            price: self.price,
            image_url: self.image_url.clone(),
        }
    }
}

/// A record keeps the payload it was made from, whatever identifier it got.
pub proof fn lemma_record_keeps_payload(payload: NewProductView, id: int)
    ensures
        payload.with_id(id).payload() == payload,
        payload.with_id(id).id == id,
{
}

} // verus!
