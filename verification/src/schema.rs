//! The schema registry: the fixed, ordered list of field descriptors that
//! indexing and querying both go by.

use vstd::prelude::*;

verus! {

/// How a field takes part in the index.
#[derive(Debug, Clone, Copy, PartialEq, Eq, Structural)]
pub enum FieldRole {
    /// Split into terms and searchable, and kept verbatim for display.
    TokenizedStored,
    /// Kept verbatim for display; never matched by a query term.
    StoredOnly,
}

/// What kind of value a field keeps.
#[derive(Debug, Clone, Copy, PartialEq, Eq, Structural)]
pub enum FieldKind {
    Text,
    Unsigned,
    Signed,
}

/// One field of the schema.
#[derive(Debug, Clone)]
pub struct FieldDescriptor {
    pub name: String,
    pub role: FieldRole,
    pub kind: FieldKind,
}

/// A field descriptor as plain mathematical values.
pub struct FieldSpec {
    pub name: Seq<char>,
    pub role: FieldRole,
    pub kind: FieldKind,
}

impl View for FieldDescriptor {
    type V = FieldSpec;

    open spec fn view(&self) -> FieldSpec {
        FieldSpec { name: self.name@, role: self.role, kind: self.kind }
    }
}

/// Position of each field in the schema; a field is known to the index by it.
pub const TITLE: u32 = 0;
pub const BRAND: u32 = 1;
pub const DESCRIPTION: u32 = 2;
pub const PRICE: u32 = 3;
pub const CURRENCY: u32 = 4;
pub const AVAILABILITY: u32 = 5;
pub const REVIEWS_COUNT: u32 = 6;
pub const RATING: u32 = 7;
pub const DISCOUNT: u32 = 8;
pub const MANUFACTURER: u32 = 9;
pub const CATEGORY: u32 = 10;

pub open spec fn searchable_text(name: Seq<char>) -> FieldSpec {
    FieldSpec { name, role: FieldRole::TokenizedStored, kind: FieldKind::Text }
}

pub open spec fn display_text(name: Seq<char>) -> FieldSpec {
    FieldSpec { name, role: FieldRole::StoredOnly, kind: FieldKind::Text }
}

pub open spec fn display_unsigned(name: Seq<char>) -> FieldSpec {
    FieldSpec { name, role: FieldRole::StoredOnly, kind: FieldKind::Unsigned }
}

pub open spec fn display_signed(name: Seq<char>) -> FieldSpec {
    FieldSpec { name, role: FieldRole::StoredOnly, kind: FieldKind::Signed }
}

/// The schema of the catalog: eleven fields, of which `title`, `brand` and
/// `description` are searchable.
pub open spec fn catalog_fields() -> Seq<FieldSpec> {
    seq![
        searchable_text("title"@),
        searchable_text("brand"@),
        searchable_text("description"@),
        display_unsigned("price"@),
        display_text("currency"@),
        display_text("availability"@),
        display_signed("reviews_count"@),
        display_unsigned("rating"@),
        display_text("discount"@),
        display_text("manufacturer"@),
        display_text("category"@),
    ]
}

/// The fields that a free-text query is matched against.
pub open spec fn searched_fields() -> Seq<u32> {
    seq![TITLE, DESCRIPTION, BRAND]
}

/// The positions of the searched fields, in the order a query is matched
/// against them.
pub fn searched_field_ids() -> (ids: Vec<u32>)
    ensures
        ids@ == searched_fields(),
{
    let ids: Vec<u32> = vec![TITLE, DESCRIPTION, BRAND];
    assert(ids@ =~= searched_fields());
    ids
}

/// A name's length and its first two characters: enough to tell the
/// catalog's field names apart.
pub open spec fn initials(name: Seq<char>) -> (int, char, char) {
    (name.len() as int, name[0], name[1])
}

/// Whether a text can be a field's name: it is not empty and does not start
/// with `-`.
pub open spec fn valid_field_name(name: Seq<char>) -> bool {
    name.len() > 0 && name[0] != '-'
}

/// Every field of the catalog has a valid name.
pub proof fn lemma_catalog_names_are_valid()
    ensures
        forall|i: int| 0 <= i < catalog_fields().len() ==> valid_field_name(#[trigger] catalog_fields()[i].name),
{
    reveal_strlit("title");
    reveal_strlit("brand");
    reveal_strlit("description");
    reveal_strlit("price");
    reveal_strlit("currency");
    reveal_strlit("availability");
    reveal_strlit("reviews_count");
    reveal_strlit("rating");
    reveal_strlit("discount");
    reveal_strlit("manufacturer");
    reveal_strlit("category");
    assert(initials("title"@) == (5int, 't', 'i'));
    assert(initials("brand"@) == (5int, 'b', 'r'));
    assert(initials("description"@) == (11int, 'd', 'e'));
    assert(initials("price"@) == (5int, 'p', 'r'));
    assert(initials("currency"@) == (8int, 'c', 'u'));
    assert(initials("availability"@) == (12int, 'a', 'v'));
    assert(initials("reviews_count"@) == (13int, 'r', 'e'));
    assert(initials("rating"@) == (6int, 'r', 'a'));
    assert(initials("discount"@) == (8int, 'd', 'i'));
    assert(initials("manufacturer"@) == (12int, 'm', 'a'));
    assert(initials("category"@) == (8int, 'c', 'a'));
}

/// No two fields of the catalog have the same name.
pub proof fn lemma_catalog_names_differ()
    ensures
        forall|i: int, j: int|
            0 <= i < j < catalog_fields().len() ==> catalog_fields()[i].name != catalog_fields()[j].name,
{
    reveal_strlit("title");
    reveal_strlit("brand");
    reveal_strlit("description");
    reveal_strlit("price");
    reveal_strlit("currency");
    reveal_strlit("availability");
    reveal_strlit("reviews_count");
    reveal_strlit("rating");
    reveal_strlit("discount");
    reveal_strlit("manufacturer");
    reveal_strlit("category");
    assert(initials("title"@) == (5int, 't', 'i'));
    assert(initials("brand"@) == (5int, 'b', 'r'));
    assert(initials("description"@) == (11int, 'd', 'e'));
    assert(initials("price"@) == (5int, 'p', 'r'));
    assert(initials("currency"@) == (8int, 'c', 'u'));
    assert(initials("availability"@) == (12int, 'a', 'v'));
    assert(initials("reviews_count"@) == (13int, 'r', 'e'));
    assert(initials("rating"@) == (6int, 'r', 'a'));
    assert(initials("discount"@) == (8int, 'd', 'i'));
    assert(initials("manufacturer"@) == (12int, 'm', 'a'));
    assert(initials("category"@) == (8int, 'c', 'a'));
}

/// In the catalog only text fields are searchable.
pub proof fn lemma_catalog_numbers_are_display_only()
    ensures
        forall|i: int|
            0 <= i < catalog_fields().len() && catalog_fields()[i].kind != FieldKind::Text
                ==> catalog_fields()[i].role == FieldRole::StoredOnly,
{
}

fn descriptor(name: &str, role: FieldRole, kind: FieldKind) -> (d: FieldDescriptor)
    ensures
        d@ == (FieldSpec { name: name@, role, kind }),
{
    FieldDescriptor { name: name.to_owned(), role, kind }
}

/// The ordered list of field descriptors. A descriptor's position in the list
/// is the field's position in every index built by this library.
pub fn schema_descriptors() -> (fields: Vec<FieldDescriptor>)
    ensures
        fields@.len() == 11,
        fields@.map_values(|d: FieldDescriptor| d@) == catalog_fields(),
{
    let mut fields: Vec<FieldDescriptor> = Vec::new();
    fields.push(descriptor("title", FieldRole::TokenizedStored, FieldKind::Text));
    fields.push(descriptor("brand", FieldRole::TokenizedStored, FieldKind::Text));
    fields.push(descriptor("description", FieldRole::TokenizedStored, FieldKind::Text));
    fields.push(descriptor("price", FieldRole::StoredOnly, FieldKind::Unsigned));
    fields.push(descriptor("currency", FieldRole::StoredOnly, FieldKind::Text));
    fields.push(descriptor("availability", FieldRole::StoredOnly, FieldKind::Text));
    fields.push(descriptor("reviews_count", FieldRole::StoredOnly, FieldKind::Signed));
    fields.push(descriptor("rating", FieldRole::StoredOnly, FieldKind::Unsigned));
    fields.push(descriptor("discount", FieldRole::StoredOnly, FieldKind::Text));
    fields.push(descriptor("manufacturer", FieldRole::StoredOnly, FieldKind::Text));
    fields.push(descriptor("category", FieldRole::StoredOnly, FieldKind::Text));
    assert(fields@.map_values(|d: FieldDescriptor| d@) =~= catalog_fields());
    fields
}

} // verus!
