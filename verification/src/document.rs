//! Products as index documents: which values a product is stored as, and
//! which product a stored document is read back as.

use vstd::prelude::*;
use crate::models::{Product, ProductView};
use crate::schema::{
    TITLE, BRAND, DESCRIPTION, PRICE, CURRENCY, AVAILABILITY, REVIEWS_COUNT, RATING, DISCOUNT,
    MANUFACTURER, CATEGORY, catalog_fields,
};
use crate::backend::{
    StoredValue, no_values, appended, leading, fits, doc_fields, new_document, add_text, add_unsigned,
    add_signed, first_text, first_unsigned, first_signed,
};

verus! {

/// The document after an optional unsigned value: nothing is added for `None`.
pub open spec fn with_unsigned(fields: Map<u32, Seq<StoredValue>>, field: u32, value: Option<u64>) -> Map<
    u32,
    Seq<StoredValue>,
> {
    match value {
        Some(v) => appended(fields, field, StoredValue::Unsigned(v)),
        None => fields,
    }
}

/// The document after an optional count, widened to 64 bits: nothing is
/// added for `None`.
pub open spec fn with_count(fields: Map<u32, Seq<StoredValue>>, field: u32, value: Option<i32>) -> Map<
    u32,
    Seq<StoredValue>,
> {
    match value {
        Some(v) => appended(fields, field, StoredValue::Signed(v as i64)),
        None => fields,
    }
}

/// The values that a product is stored as: every text field, also when
/// empty, and each numeric field that is present.
pub open spec fn product_fields(p: ProductView) -> Map<u32, Seq<StoredValue>> {
    let d = no_values();
    let d = appended(d, TITLE, StoredValue::Text(p.title));
    let d = appended(d, BRAND, StoredValue::Text(p.brand));
    let d = appended(d, DESCRIPTION, StoredValue::Text(p.description));
    let d = with_unsigned(d, PRICE, p.price);
    let d = appended(d, CURRENCY, StoredValue::Text(p.currency));
    let d = appended(d, AVAILABILITY, StoredValue::Text(p.availability));
    let d = with_count(d, REVIEWS_COUNT, p.reviews_count);
    let d = with_unsigned(d, RATING, p.rating);
    let d = appended(d, DISCOUNT, StoredValue::Text(p.discount));
    let d = appended(d, MANUFACTURER, StoredValue::Text(p.manufacturer));
    appended(d, CATEGORY, StoredValue::Text(p.category))
}

/// The text read from a field: its first value where that is a text, else
/// the empty text.
pub open spec fn text_at(fields: Map<u32, Seq<StoredValue>>, field: u32) -> Seq<char> {
    match leading(fields, field) {
        Some(StoredValue::Text(t)) => t,
        _ => Seq::empty(),
    }
}

/// The unsigned number read from a field: its first value where that is
/// unsigned, else none.
pub open spec fn unsigned_at(fields: Map<u32, Seq<StoredValue>>, field: u32) -> Option<u64> {
    match leading(fields, field) {
        Some(StoredValue::Unsigned(v)) => Some(v),
        _ => None,
    }
}

/// The count read from a field: its first value where that is signed, cut
/// to 32 bits, else none.
pub open spec fn count_at(fields: Map<u32, Seq<StoredValue>>, field: u32) -> Option<i32> {
    match leading(fields, field) {
        Some(StoredValue::Signed(v)) => Some(v as i32),
        _ => None,
    }
}

/// The product that a stored document is read back as. A field without a
/// value of its kind reads as its default: the empty text, or none.
pub open spec fn reconstruct(fields: Map<u32, Seq<StoredValue>>) -> ProductView {
    ProductView {
        title: text_at(fields, TITLE),
        brand: text_at(fields, BRAND),
        description: text_at(fields, DESCRIPTION),
        price: unsigned_at(fields, PRICE),
        currency: text_at(fields, CURRENCY),
        availability: text_at(fields, AVAILABILITY),
        reviews_count: count_at(fields, REVIEWS_COUNT),
        rating: unsigned_at(fields, RATING),
        discount: text_at(fields, DISCOUNT),
        manufacturer: text_at(fields, MANUFACTURER),
        category: text_at(fields, CATEGORY),
    }
}

/// Builds the index document of a product.
pub fn document_from_product(product: &Product) -> (doc: tantivy::Document)
    ensures
        doc_fields(doc) == product_fields(product@),
{
    let mut doc = new_document();
    add_text(&mut doc, TITLE, product.title.as_str());
    add_text(&mut doc, BRAND, product.brand.as_str());
    add_text(&mut doc, DESCRIPTION, product.description.as_str());
    if let Some(price) = product.price {
        add_unsigned(&mut doc, PRICE, price);
    }
    add_text(&mut doc, CURRENCY, product.currency.as_str());
    add_text(&mut doc, AVAILABILITY, product.availability.as_str());
    if let Some(count) = product.reviews_count {
        add_signed(&mut doc, REVIEWS_COUNT, count as i64);
    }
    if let Some(rating) = product.rating {
        add_unsigned(&mut doc, RATING, rating);
    }
    add_text(&mut doc, DISCOUNT, product.discount.as_str());
    add_text(&mut doc, MANUFACTURER, product.manufacturer.as_str());
    add_text(&mut doc, CATEGORY, product.category.as_str());
    doc
}

fn text_or_empty(doc: &tantivy::Document, field: u32) -> (text: String)
    ensures
        text@ == text_at(doc_fields(*doc), field),
{
    match first_text(doc, field) {
        Some(text) => text,
        None => String::new(),
    }
}

fn count_of(doc: &tantivy::Document, field: u32) -> (count: Option<i32>)
    ensures
        count == count_at(doc_fields(*doc), field),
{
    match first_signed(doc, field) {
        Some(v) => Some(#[verifier::truncate] (v as i32)),
        None => None,
    }
}

/// Reads a stored document back as a product.
pub fn product_from_document(doc: &tantivy::Document) -> (product: Product)
    ensures
        product@ == reconstruct(doc_fields(*doc)),
{
    Product {
        title: text_or_empty(doc, TITLE),
        brand: text_or_empty(doc, BRAND),
        description: text_or_empty(doc, DESCRIPTION),
        price: first_unsigned(doc, PRICE),
        currency: text_or_empty(doc, CURRENCY),
        availability: text_or_empty(doc, AVAILABILITY),
        reviews_count: count_of(doc, REVIEWS_COUNT),
        rating: first_unsigned(doc, RATING),
        discount: text_or_empty(doc, DISCOUNT),
        manufacturer: text_or_empty(doc, MANUFACTURER),
        category: text_or_empty(doc, CATEGORY),
    }
}

/// A product's document has exactly one value for each text field, and one
/// for each numeric field that is present.
pub proof fn lemma_product_fields_content(p: ProductView)
    ensures
        leading(product_fields(p), TITLE) == Some(StoredValue::Text(p.title)),
        leading(product_fields(p), BRAND) == Some(StoredValue::Text(p.brand)),
        leading(product_fields(p), DESCRIPTION) == Some(StoredValue::Text(p.description)),
        leading(product_fields(p), CURRENCY) == Some(StoredValue::Text(p.currency)),
        leading(product_fields(p), AVAILABILITY) == Some(StoredValue::Text(p.availability)),
        leading(product_fields(p), DISCOUNT) == Some(StoredValue::Text(p.discount)),
        leading(product_fields(p), MANUFACTURER) == Some(StoredValue::Text(p.manufacturer)),
        leading(product_fields(p), CATEGORY) == Some(StoredValue::Text(p.category)),
        unsigned_at(product_fields(p), PRICE) == p.price,
        unsigned_at(product_fields(p), RATING) == p.rating,
        count_at(product_fields(p), REVIEWS_COUNT) == p.reviews_count,
{
}

/// Fidelity: a product that is stored and read back is the same product, in
/// every field, with absent numbers still absent.
pub proof fn lemma_store_then_read(p: ProductView)
    ensures
        reconstruct(product_fields(p)) == p,
{
    lemma_product_fields_content(p);
}

/// A product's document fits the catalog schema.
pub proof fn lemma_product_fits(p: ProductView)
    ensures
        fits(product_fields(p), catalog_fields()),
{
    let d = product_fields(p);
    let s = catalog_fields();
    assert forall|f: u32, i: int| d.dom().contains(f) && 0 <= i < d[f].len() implies f < s.len()
        && crate::backend::value_has_kind(#[trigger] d[f][i], s[f as int].kind) by {
        lemma_product_fields_content(p);
    }
}

} // verus!
