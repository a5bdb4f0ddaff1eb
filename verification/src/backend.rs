//! The boundary to the tantivy full-text search library.
//!
//! Everything in this file is believed, not proved: the declared types, the
//! names for what tantivy's structures hold, and one small function per
//! tantivy call. The rest of the library is proved against these contracts.

use vstd::prelude::*;
use crate::schema::{
    FieldSpec, FieldKind, searchable_text, display_text, display_unsigned, display_signed,
    valid_field_name,
};
use crate::engine::{EngineError, MAX_HITS};

verus! {

/// `tantivy::schema::SchemaBuilder`: a schema under construction. Nothing inside it is visible to
/// the proofs; the names below say what it holds.
#[verifier::external_type_specification]
#[verifier::external_body]
pub struct ExSchemaBuilder(tantivy::schema::SchemaBuilder);

/// `tantivy::schema::Schema`: the fields of an index. Nothing inside it is visible to
/// the proofs; the names below say what it holds.
#[verifier::external_type_specification]
#[verifier::external_body]
pub struct ExSchema(tantivy::schema::Schema);

/// `tantivy::Index`: a handle to an index. Nothing inside it is visible to
/// the proofs; the names below say what it holds.
#[verifier::external_type_specification]
#[verifier::external_body]
pub struct ExIndex(tantivy::Index);

/// `tantivy::IndexWriter`: the one writer of an index. Nothing inside it is visible to
/// the proofs; the names below say what it holds.
#[verifier::external_type_specification]
#[verifier::external_body]
pub struct ExIndexWriter(tantivy::IndexWriter);

/// `tantivy::Document`: field values, before indexing or read back from the store. Nothing inside it is visible to
/// the proofs; the names below say what it holds.
#[verifier::external_type_specification]
#[verifier::external_body]
pub struct ExDocument(tantivy::Document);

/// `tantivy::Searcher`: a reader of one snapshot of an index. Nothing inside it is visible to
/// the proofs; the names below say what it holds.
#[verifier::external_type_specification]
#[verifier::external_body]
pub struct ExSearcher(tantivy::Searcher);

/// `tantivy::TantivyError`: why a tantivy call failed. Nothing inside it is visible to
/// the proofs; the names below say what it holds.
#[verifier::external_type_specification]
#[verifier::external_body]
pub struct ExTantivyError(tantivy::TantivyError);

/// One value kept in a document.
pub enum StoredValue {
    Text(Seq<char>),
    Unsigned(u64),
    Signed(i64),
    /// A value of a kind that this library never writes.
    Other,
}

/// The values of `field` in a document, in the order they were added; empty
/// where the document has none.
pub open spec fn values_of(fields: Map<u32, Seq<StoredValue>>, field: u32) -> Seq<StoredValue> {
    if fields.dom().contains(field) {
        fields[field]
    } else {
        Seq::empty()
    }
}

/// The document after one more value was added to `field`.
pub open spec fn appended(fields: Map<u32, Seq<StoredValue>>, field: u32, value: StoredValue) -> Map<
    u32,
    Seq<StoredValue>,
> {
    fields.insert(field, values_of(fields, field).push(value))
}

/// The first value of `field` in a document, if it has one.
pub open spec fn leading(fields: Map<u32, Seq<StoredValue>>, field: u32) -> Option<StoredValue> {
    if values_of(fields, field).len() > 0 {
        Some(values_of(fields, field)[0])
    } else {
        None
    }
}

/// The document without any value.
pub open spec fn no_values() -> Map<u32, Seq<StoredValue>> {
    Map::empty()
}

/// The empty sequence of documents.
pub open spec fn no_documents() -> Seq<Map<u32, Seq<StoredValue>>> {
    Seq::empty()
}

/// Whether a value is of the kind that a field keeps.
pub open spec fn value_has_kind(value: StoredValue, kind: FieldKind) -> bool {
    match value {
        StoredValue::Text(_) => kind == FieldKind::Text,
        StoredValue::Unsigned(_) => kind == FieldKind::Unsigned,
        StoredValue::Signed(_) => kind == FieldKind::Signed,
        StoredValue::Other => false,
    }
}

/// Whether every value of a document belongs to a field of the schema and is
/// of that field's kind.
pub open spec fn fits(fields: Map<u32, Seq<StoredValue>>, schema: Seq<FieldSpec>) -> bool {
    forall|f: u32, i: int|
        fields.dom().contains(f) && 0 <= i < fields[f].len() ==> f < schema.len()
            && value_has_kind(#[trigger] fields[f][i], schema[f as int].kind)
}

/// Whether every document of a snapshot is one of these documents.
pub open spec fn stored_in(
    store: Map<(u32, u32), Map<u32, Seq<StoredValue>>>,
    docs: Seq<Map<u32, Seq<StoredValue>>>,
) -> bool {
    forall|a: (u32, u32)| #[trigger]
        store.dom().contains(a) ==> exists|i: int| 0 <= i < docs.len() && store[a] == #[trigger] docs[i]
}

/// Whether a document lies at some address of a snapshot.
pub open spec fn lies_in(store: Map<(u32, u32), Map<u32, Seq<StoredValue>>>, doc: Map<u32, Seq<StoredValue>>) -> bool {
    exists|a: (u32, u32)| #[trigger] store.dom().contains(a) && store[a] == doc
}

/// Whether every one of these documents lies somewhere in a snapshot.
pub open spec fn holds_all(
    store: Map<(u32, u32), Map<u32, Seq<StoredValue>>>,
    docs: Seq<Map<u32, Seq<StoredValue>>>,
) -> bool {
    forall|i: int| 0 <= i < docs.len() ==> lies_in(store, #[trigger] docs[i])
}

/// Whether an address names a position of a segment, given the number of
/// positions in each segment.
pub open spec fn in_range(sizes: Seq<u32>, address: (u32, u32)) -> bool {
    address.0 < sizes.len() && address.1 < sizes[address.0 as int]
}

/// Whether no field of the schema has this name yet.
pub open spec fn name_is_free(schema: Seq<FieldSpec>, name: Seq<char>) -> bool {
    forall|i: int| 0 <= i < schema.len() ==> (#[trigger] schema[i]).name != name
}

/// The fields added to a schema builder so far, in the order they were added.
pub uninterp spec fn builder_fields(builder: tantivy::schema::SchemaBuilder) -> Seq<FieldSpec>;

/// The fields of a schema, by position.
pub uninterp spec fn schema_fields(schema: tantivy::schema::Schema) -> Seq<FieldSpec>;

/// The stored values of each committed document of an index, by the
/// document's address (segment, position in the segment).
pub uninterp spec fn index_store(index: tantivy::Index) -> Map<(u32, u32), Map<u32, Seq<StoredValue>>>;

/// Whether tantivy's query parser takes a query text, for a schema and the
/// fields that a term without a field is looked up in.
pub uninterp spec fn query_parses(schema: Seq<FieldSpec>, fields: Seq<u32>, text: Seq<char>) -> bool;

/// The addresses that tantivy answers a query text with, best match first,
/// where the text parses. The answer goes by the schema, by the documents
/// and where they lie, by the fields that a term without a field is looked
/// up in, by the text and by the limit.
pub uninterp spec fn query_hits(
    schema: Seq<FieldSpec>,
    store: Map<(u32, u32), Map<u32, Seq<StoredValue>>>,
    fields: Seq<u32>,
    text: Seq<char>,
    limit: usize,
) -> Seq<(u32, u32)>;

/// The fields of the schema that an index was created with.
pub uninterp spec fn index_schema(index: tantivy::Index) -> Seq<FieldSpec>;

/// The stored values of the documents committed to an index, in the order
/// the documents were added.
pub uninterp spec fn index_docs(index: tantivy::Index) -> Seq<Map<u32, Seq<StoredValue>>>;

/// The fields of the schema of the index that a writer writes to.
pub uninterp spec fn writer_schema(writer: tantivy::IndexWriter) -> Seq<FieldSpec>;

/// The documents committed to a writer's index.
pub uninterp spec fn writer_committed(writer: tantivy::IndexWriter) -> Seq<Map<u32, Seq<StoredValue>>>;

/// The stored values of each committed document of a writer's index, by
/// the document's address.
pub uninterp spec fn writer_stored(writer: tantivy::IndexWriter) -> Map<(u32, u32), Map<u32, Seq<StoredValue>>>;

/// The documents added through a writer and not committed yet.
pub uninterp spec fn writer_pending(writer: tantivy::IndexWriter) -> Seq<Map<u32, Seq<StoredValue>>>;

/// The values of a document, by field.
pub uninterp spec fn doc_fields(doc: tantivy::Document) -> Map<u32, Seq<StoredValue>>;

/// The fields of the schema of the index that a searcher reads.
pub uninterp spec fn searcher_schema(searcher: tantivy::Searcher) -> Seq<FieldSpec>;

/// The number of positions in each segment of the snapshot that a searcher
/// reads.
pub uninterp spec fn searcher_sizes(searcher: tantivy::Searcher) -> Seq<u32>;

/// The stored values of each document in the snapshot that a searcher
/// reads, by the document's address (segment, position in the segment).
pub uninterp spec fn searcher_store(searcher: tantivy::Searcher) -> Map<(u32, u32), Map<u32, Seq<StoredValue>>>;

/// `Schema::builder`: a builder with no field.
#[verifier::external_body]
pub(crate) fn new_builder() -> (builder: tantivy::schema::SchemaBuilder)
    ensures
        builder_fields(builder) == Seq::<FieldSpec>::empty(),
{
    tantivy::schema::Schema::builder()
}

/// `SchemaBuilder::add_text_field` with `TEXT | STORED`: adds a tokenized,
/// stored text field at the next position and returns that position. The
/// name must be new and valid: tantivy panics on a name it has already, on
/// the empty name and on one that starts with `-`.
#[verifier::external_body]
pub(crate) fn add_searchable_text_field(builder: &mut tantivy::schema::SchemaBuilder, name: &str) -> (id: u32)
    requires
        valid_field_name(name@),
        name_is_free(builder_fields(*old(builder)), name@),
        builder_fields(*old(builder)).len() < u32::MAX,
    ensures
        builder_fields(*final(builder)) == builder_fields(*old(builder)).push(searchable_text(name@)),
        id == builder_fields(*old(builder)).len(),
{
    builder.add_text_field(name, tantivy::schema::TEXT | tantivy::schema::STORED).field_id()
}

/// `SchemaBuilder::add_text_field` with `STORED`: adds a text field that is
/// stored and not indexed.
#[verifier::external_body]
pub(crate) fn add_display_text_field(builder: &mut tantivy::schema::SchemaBuilder, name: &str) -> (id: u32)
    requires
        valid_field_name(name@),
        name_is_free(builder_fields(*old(builder)), name@),
        builder_fields(*old(builder)).len() < u32::MAX,
    ensures
        builder_fields(*final(builder)) == builder_fields(*old(builder)).push(display_text(name@)),
        id == builder_fields(*old(builder)).len(),
{
    builder.add_text_field(name, tantivy::schema::STORED).field_id()
}

/// `SchemaBuilder::add_u64_field` with `STORED`: adds an unsigned field that
/// is stored and not indexed.
#[verifier::external_body]
pub(crate) fn add_display_unsigned_field(builder: &mut tantivy::schema::SchemaBuilder, name: &str) -> (id: u32)
    requires
        valid_field_name(name@),
        name_is_free(builder_fields(*old(builder)), name@),
        builder_fields(*old(builder)).len() < u32::MAX,
    ensures
        builder_fields(*final(builder)) == builder_fields(*old(builder)).push(display_unsigned(name@)),
        id == builder_fields(*old(builder)).len(),
{
    builder.add_u64_field(name, tantivy::schema::STORED).field_id()
}

/// `SchemaBuilder::add_i64_field` with `STORED`: adds a signed field that is
/// stored and not indexed.
#[verifier::external_body]
pub(crate) fn add_display_signed_field(builder: &mut tantivy::schema::SchemaBuilder, name: &str) -> (id: u32)
    requires
        valid_field_name(name@),
        name_is_free(builder_fields(*old(builder)), name@),
        builder_fields(*old(builder)).len() < u32::MAX,
    ensures
        builder_fields(*final(builder)) == builder_fields(*old(builder)).push(display_signed(name@)),
        id == builder_fields(*old(builder)).len(),
{
    builder.add_i64_field(name, tantivy::schema::STORED).field_id()
}

/// `SchemaBuilder::build`: the schema has the builder's fields.
#[verifier::external_body]
pub(crate) fn build_schema(builder: tantivy::schema::SchemaBuilder) -> (schema: tantivy::schema::Schema)
    ensures
        schema_fields(schema) == builder_fields(builder),
{
    builder.build()
}

/// `Index::create_in_ram`, on a copy of the schema: an index in memory with
/// that schema and no document.
#[verifier::external_body]
pub(crate) fn create_index(schema: &tantivy::schema::Schema) -> (index: tantivy::Index)
    ensures
        index_schema(index) == schema_fields(*schema),
        index_docs(index) == no_documents(),
{
    tantivy::Index::create_in_ram(schema.clone())
}

/// `Index::writer_with_num_threads`: a writer on the index with the given
/// number of indexing threads and memory budget in bytes. It starts from what
/// the index has committed, with nothing pending. The number of threads must
/// not be 0: tantivy divides the budget by it. While the writer lives nothing
/// is known of the handle it was opened on: `finish` and `abandon` hand the
/// index back. On failure the handle is as it was.
#[verifier::external_body]
pub(crate) fn open_writer(index: &mut tantivy::Index, threads: usize, budget: usize) -> (r: Result<
    tantivy::IndexWriter,
    tantivy::TantivyError,
>)
    requires
        threads > 0,
    ensures
        r is Err ==> *final(index) == *old(index),
        r matches Ok(w) ==> writer_schema(w) == index_schema(*old(index)) && writer_committed(w)
            == index_docs(*old(index)) && writer_stored(w) == index_store(*old(index)) && writer_pending(w)
            == no_documents(),
{
    index.writer_with_num_threads(threads, budget)
}

/// `Document::new`: a document with no value.
#[verifier::external_body]
pub(crate) fn new_document() -> (doc: tantivy::Document)
    ensures
        doc_fields(doc) == no_values(),
{
    tantivy::Document::new()
}

/// `Document::add_text`: one more text value for the field.
#[verifier::external_body]
pub(crate) fn add_text(doc: &mut tantivy::Document, field: u32, text: &str)
    ensures
        doc_fields(*final(doc)) == appended(doc_fields(*old(doc)), field, StoredValue::Text(text@)),
{
    doc.add_text(tantivy::schema::Field::from_field_id(field), text)
}

/// `Document::add_u64`: one more unsigned value for the field.
#[verifier::external_body]
pub(crate) fn add_unsigned(doc: &mut tantivy::Document, field: u32, value: u64)
    ensures
        doc_fields(*final(doc)) == appended(doc_fields(*old(doc)), field, StoredValue::Unsigned(value)),
{
    doc.add_u64(tantivy::schema::Field::from_field_id(field), value)
}

/// `Document::add_i64`: one more signed value for the field.
#[verifier::external_body]
pub(crate) fn add_signed(doc: &mut tantivy::Document, field: u32, value: i64)
    ensures
        doc_fields(*final(doc)) == appended(doc_fields(*old(doc)), field, StoredValue::Signed(value)),
{
    doc.add_i64(tantivy::schema::Field::from_field_id(field), value)
}

/// `IndexWriter::add_document`: on success the document is pending, behind
/// those added before it. What is committed does not change. The document
/// must fit the schema, all of whose fields are stored, so that what is read
/// back later is what was added.
#[verifier::external_body]
pub(crate) fn add_document(writer: &mut tantivy::IndexWriter, doc: tantivy::Document) -> (r: Result<
    (),
    tantivy::TantivyError,
>)
    requires
        fits(doc_fields(doc), writer_schema(*old(writer))),
    ensures
        writer_schema(*final(writer)) == writer_schema(*old(writer)),
        writer_committed(*final(writer)) == writer_committed(*old(writer)),
        writer_stored(*final(writer)) == writer_stored(*old(writer)),
        r is Ok ==> writer_pending(*final(writer)) == writer_pending(*old(writer)).push(doc_fields(doc)),
{
    writer.add_document(doc).map(|_| ())
}

/// `IndexWriter::commit`, then `IndexWriter::index` and
/// `IndexWriter::wait_merging_threads`: commits and ends the writer, and
/// hands its index back in `index`. On success all pending documents are
/// committed behind those that were, in the order they were added; on
/// failure none of them is, and the committed documents lie where they lay.
#[verifier::external_body]
pub(crate) fn finish(writer: tantivy::IndexWriter, index: &mut tantivy::Index) -> (r: Result<
    (),
    tantivy::TantivyError,
>)
    ensures
        index_schema(*final(index)) == writer_schema(writer),
        r is Ok ==> index_docs(*final(index)) == writer_committed(writer) + writer_pending(writer),
        r is Err ==> index_docs(*final(index)) == writer_committed(writer) && index_store(*final(index))
            == writer_stored(writer),
{
    let mut writer = writer;
    let r = writer.commit().map(|_| ());
    *index = writer.index().clone();
    let _ = writer.wait_merging_threads();
    r
}

/// `IndexWriter::index`, then the writer is dropped: ends the writer without
/// committing and hands its index back in `index`. What was pending is
/// discarded; what was committed is as it was.
#[verifier::external_body]
pub(crate) fn abandon(writer: tantivy::IndexWriter, index: &mut tantivy::Index)
    ensures
        index_schema(*final(index)) == writer_schema(writer),
        index_docs(*final(index)) == writer_committed(writer),
        index_store(*final(index)) == writer_stored(writer),
{
    *index = writer.index().clone();
}

/// `Index::reader` and `IndexReader::searcher`: a searcher on a snapshot of
/// what the index has committed. The snapshot holds the index's documents,
/// each at one address, and nothing else.
#[verifier::external_body]
pub(crate) fn open_searcher(index: &tantivy::Index) -> (r: Result<tantivy::Searcher, tantivy::TantivyError>)
    ensures
        r matches Ok(s) ==> searcher_schema(s) == index_schema(*index) && searcher_store(s) == index_store(
            *index,
        ) && stored_in(searcher_store(s), index_docs(*index)) && holds_all(
            searcher_store(s),
            index_docs(*index),
        ) && searcher_store(s).dom().finite() && searcher_store(s).dom().len() == index_docs(*index).len(),
{
    Ok(index.reader()?.searcher())
}

/// `Searcher::num_docs`: the number of documents in the snapshot.
#[verifier::external_body]
pub(crate) fn snapshot_len(searcher: &tantivy::Searcher) -> (n: u64)
    ensures
        n == searcher_store(*searcher).dom().len(),
{
    searcher.num_docs()
}

/// `Searcher::segment_readers` and `SegmentReader::max_doc`: the number of
/// positions in each segment of the snapshot. Every document of the snapshot
/// lies at one of these positions.
#[verifier::external_body]
pub(crate) fn segment_sizes(searcher: &tantivy::Searcher) -> (sizes: Vec<u32>)
    ensures
        sizes@ == searcher_sizes(*searcher),
        forall|a: (u32, u32)| #[trigger] searcher_store(*searcher).dom().contains(a) ==> in_range(sizes@, a),
{
    searcher.segment_readers().iter().map(|segment| segment.max_doc()).collect()
}

/// `QueryParser::for_index` and `QueryParser::parse_query`: `None` where the
/// query text parses, else the parser's message. The default fields must be
/// fields of the index's schema.
#[verifier::external_body]
pub(crate) fn syntax_error(index: &tantivy::Index, fields: &Vec<u32>, text: &str) -> (message: Option<String>)
    requires
        forall|i: int| 0 <= i < fields@.len() ==> (#[trigger] fields@[i]) < index_schema(*index).len(),
    ensures
        message is None <==> query_parses(index_schema(*index), fields@, text@),
{
    let defaults = fields.iter().map(|f| tantivy::schema::Field::from_field_id(*f)).collect();
    tantivy::query::QueryParser::for_index(index, defaults).parse_query(text).err().map(|e| format!("{}", e))
}

/// `TantivyError`'s `Display`: the error's message.
#[verifier::external_body]
pub(crate) fn describe(error: &tantivy::TantivyError) -> (message: String) {
    format!("{}", error)
}

/// `QueryParser::for_index`, `QueryParser::parse_query` and
/// `Searcher::search` with `TopDocs::with_limit`, in one function because a
/// parsed query is a trait object of tantivy's that only it can hold. Parses
/// the query text with the given default fields and returns the addresses of
/// the best matches, best first: the answer named `query_hits`. At most
/// `limit` addresses come back, each of a document of the snapshot. A text
/// that does not parse gives `QuerySyntax`, and nothing else does; a failure
/// while searching gives `FatalIndex`; each carries tantivy's message.
/// `limit` must not be 0 (tantivy panics), nor above `MAX_HITS` or, unless it
/// is 1, above the number of documents (tantivy reserves room for `limit`
/// hits in each segment), and the default fields must be fields of the
/// schema.
#[verifier::external_body]
pub(crate) fn top_hits(searcher: &tantivy::Searcher, fields: &Vec<u32>, text: &str, limit: usize) -> (r:
    Result<Vec<(u32, u32)>, EngineError>)
    requires
        0 < limit <= MAX_HITS,
        limit == 1 || limit <= searcher_store(*searcher).dom().len(),
        forall|i: int| 0 <= i < fields@.len() ==> (#[trigger] fields@[i]) < searcher_schema(*searcher).len(),
    ensures
        r matches Ok(hits) ==> query_parses(searcher_schema(*searcher), fields@, text@) && hits@ == query_hits(
            searcher_schema(*searcher),
            searcher_store(*searcher),
            fields@,
            text@,
            limit,
        ),
        r matches Ok(hits) ==> hits@.len() <= limit && forall|k: int|
            0 <= k < hits@.len() ==> searcher_store(*searcher).dom().contains(#[trigger] hits@[k]),
        r matches Err(e) ==> (e is QuerySyntax <==> !query_parses(
            searcher_schema(*searcher),
            fields@,
            text@,
        )),
{
    let defaults = fields.iter().map(|f| tantivy::schema::Field::from_field_id(*f)).collect();
    let parser = tantivy::query::QueryParser::for_index(searcher.index(), defaults);
    let query = match parser.parse_query(text) {
        Ok(query) => query,
        Err(e) => return Err(EngineError::QuerySyntax(format!("{}", e))),
    };
    match searcher.search(&query, &tantivy::collector::TopDocs::with_limit(limit)) {
        Ok(hits) => Ok(hits.into_iter().map(|(_, a)| (a.segment_ord, a.doc_id)).collect()),
        Err(e) => Err(EngineError::FatalIndex(format!("{}", e))),
    }
}

/// `Searcher::doc`: the stored document at a position of a segment of the
/// snapshot; the segment must be one of the snapshot's. On success, at the
/// address of a document of the snapshot, it holds the values stored there.
#[verifier::external_body]
pub(crate) fn fetch(searcher: &tantivy::Searcher, address: (u32, u32)) -> (r: Result<
    tantivy::Document,
    tantivy::TantivyError,
>)
    requires
        in_range(searcher_sizes(*searcher), address),
    ensures
        r matches Ok(doc) ==> (searcher_store(*searcher).dom().contains(address) ==> doc_fields(doc)
            == searcher_store(*searcher)[address]),
{
    searcher.doc(tantivy::DocAddress::new(address.0, address.1))
}

/// `Document::get_first` and `Value::as_text`: the first value of the field,
/// where the document has one and it is a text.
#[verifier::external_body]
pub(crate) fn first_text(doc: &tantivy::Document, field: u32) -> (r: Option<String>)
    ensures
        match leading(doc_fields(*doc), field) {
            Some(StoredValue::Text(t)) => r matches Some(s) && s@ == t,
            _ => r is None,
        },
{
    doc.get_first(tantivy::schema::Field::from_field_id(field)).and_then(|v| v.as_text()).map(|s| s.to_string())
}

/// `Document::get_first` and `Value::as_u64`: the first value of the field,
/// where the document has one and it is unsigned.
#[verifier::external_body]
pub(crate) fn first_unsigned(doc: &tantivy::Document, field: u32) -> (r: Option<u64>)
    ensures
        match leading(doc_fields(*doc), field) {
            Some(StoredValue::Unsigned(v)) => r == Some(v),
            _ => r is None,
        },
{
    doc.get_first(tantivy::schema::Field::from_field_id(field)).and_then(|v| v.as_u64())
}

/// `Document::get_first` and `Value::as_i64`: the first value of the field,
/// where the document has one and it is signed.
#[verifier::external_body]
pub(crate) fn first_signed(doc: &tantivy::Document, field: u32) -> (r: Option<i64>)
    ensures
        match leading(doc_fields(*doc), field) {
            Some(StoredValue::Signed(v)) => r == Some(v),
            _ => r is None,
        },
{
    doc.get_first(tantivy::schema::Field::from_field_id(field)).and_then(|v| v.as_i64())
}

} // verus!
