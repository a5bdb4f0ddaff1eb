//! The record model: one catalog entry and its mathematical view.

use vstd::prelude::*;

verus! {

/// A catalog entry. Text fields are empty when the input had none; numeric
/// fields are `None` when the input had none.
///
/// `price` and `rating` are decimal numbers held as their IEEE 754 binary64
/// bit patterns, so that a value is carried through unchanged, bit for bit.
#[derive(Debug, Clone)]
pub struct Product {
    pub title: String,
    pub brand: String,
    pub description: String,
    pub price: Option<u64>,
    pub currency: String,
    pub availability: String,
    pub reviews_count: Option<i32>,
    pub rating: Option<u64>,
    pub discount: String,
    pub manufacturer: String,
    pub category: String,
}

/// What a `Product` holds, as plain mathematical values.
pub struct ProductView {
    pub title: Seq<char>,
    pub brand: Seq<char>,
    pub description: Seq<char>,
    pub price: Option<u64>,
    pub currency: Seq<char>,
    pub availability: Seq<char>,
    pub reviews_count: Option<i32>,
    pub rating: Option<u64>,
    pub discount: Seq<char>,
    pub manufacturer: Seq<char>,
    pub category: Seq<char>,
}

impl View for Product {
    type V = ProductView;

    open spec fn view(&self) -> ProductView {
        ProductView {
            title: self.title@,
            brand: self.brand@,
            description: self.description@,
            price: self.price,
            currency: self.currency@,
            availability: self.availability@,
            reviews_count: self.reviews_count,
            rating: self.rating,
            discount: self.discount@,
            manufacturer: self.manufacturer@,
            category: self.category@,
        }
    }
}

} // verus!
