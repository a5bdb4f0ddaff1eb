//! The search engine: builds the index from a batch of products and answers
//! free-text queries with the best-matching products.

use vstd::prelude::*;
use crate::models::{Product, ProductView};
use crate::schema::{
    FieldDescriptor, FieldKind, FieldRole, catalog_fields, searched_fields, schema_descriptors,
    searched_field_ids, lemma_catalog_names_differ, lemma_catalog_names_are_valid,
    lemma_catalog_numbers_are_display_only,
};
use crate::document::{
    product_fields, reconstruct, document_from_product, product_from_document, lemma_product_fits,
    lemma_store_then_read,
};
use crate::backend::{
    StoredValue, in_range, searcher_sizes, builder_fields, schema_fields, index_schema, index_docs, index_store,
    writer_schema, writer_committed, writer_stored, writer_pending, searcher_store, query_parses,
    query_hits, new_builder, add_searchable_text_field, add_display_text_field,
    add_display_unsigned_field, add_display_signed_field, build_schema, create_index, open_writer,
    add_document, finish, abandon, open_searcher, snapshot_len, segment_sizes, syntax_error,
    describe, top_hits, fetch,
};

verus! {

/// Why the engine could not do what was asked.
#[derive(Debug, Clone)]
pub enum EngineError {
    /// The index could not be written or read; with the reason.
    FatalIndex(String),
    /// The query text is malformed; with the parser's message.
    QuerySyntax(String),
}

impl EngineError {
    /// The reason that the error carries.
    pub fn message(&self) -> (text: String)
        ensures
            text@ == match *self {
                EngineError::FatalIndex(m) => m@,
                EngineError::QuerySyntax(m) => m@,
            },
    {
        match self {
            EngineError::FatalIndex(m) => m.clone(),
            EngineError::QuerySyntax(m) => m.clone(),
        }
    }
}

/// Memory that the index writer may use, in bytes.
pub const WRITER_BUDGET: usize = 50_000_000;

/// Indexing threads of the writer. With one thread the documents of a batch
/// are written in the batch's order.
pub const WRITER_THREADS: usize = 1;

/// The most hits that one query is answered with. A larger limit is cut to
/// it: the index reserves room for as many hits as the limit says.
pub const MAX_HITS: usize = 0x07FF_FFFF;

/// An in-memory full-text index of products, with the schema it was built
/// with.
pub struct SearchEngine {
    pub index: tantivy::Index,
    pub schema: tantivy::schema::Schema,
}

/// The documents of a batch of products, in the batch's order.
pub open spec fn batch_fields(products: Seq<Product>) -> Seq<Map<u32, Seq<StoredValue>>> {
    products.map_values(|p: Product| product_fields(p@))
}

/// Whether a product is what one of these documents is read back as.
pub open spec fn read_from(product: ProductView, docs: Seq<Map<u32, Seq<StoredValue>>>) -> bool {
    exists|i: int| 0 <= i < docs.len() && product == reconstruct(#[trigger] docs[i])
}

/// Whether `found` are the products read back from the documents stored at
/// the addresses `hits`, one for one and in the same order.
pub open spec fn products_at(
    store: Map<(u32, u32), Map<u32, Seq<StoredValue>>>,
    hits: Seq<(u32, u32)>,
    found: Seq<Product>,
) -> bool {
    &&& found.len() == hits.len()
    &&& forall|k: int| 0 <= k < found.len() ==> (#[trigger] found[k])@ == reconstruct(store[hits[k]])
}

/// Whether `found` has one product for each address, and at each address of
/// a document of the snapshot the product read back from that document.
pub open spec fn products_where_stored(
    store: Map<(u32, u32), Map<u32, Seq<StoredValue>>>,
    hits: Seq<(u32, u32)>,
    found: Seq<Product>,
) -> bool {
    &&& found.len() == hits.len()
    &&& forall|k: int|
        0 <= k < found.len() && store.dom().contains(hits[k]) ==> (#[trigger] found[k])@ == reconstruct(
            store[hits[k]],
        )
}

/// Whether every one of these addresses names a position of a segment.
pub open spec fn all_in_range(sizes: Seq<u32>, hits: Seq<(u32, u32)>) -> bool {
    forall|k: int| 0 <= k < hits.len() ==> in_range(sizes, #[trigger] hits[k])
}

/// The limit that the index is asked with: the caller's limit, cut to the
/// number of documents (to 1 where there is none) and to `MAX_HITS`.
pub open spec fn capped_limit(limit: usize, size: nat) -> usize {
    let by_size = if size == 0 {
        1usize
    } else if size < limit {
        size as usize
    } else {
        limit
    };
    if by_size > MAX_HITS {
        MAX_HITS
    } else {
        by_size
    }
}

/// Cuts a limit that is not 0 to the number of documents and to `MAX_HITS`.
pub fn cap_limit(limit: usize, size: u64) -> (capped: usize)
    requires
        limit > 0,
    ensures
        capped == capped_limit(limit, size as nat),
        0 < capped <= MAX_HITS,
        capped <= limit,
        capped == 1 || capped <= size,
{
    let by_size: usize = if size == 0 {
        1
    } else if size < limit as u64 {
        size as usize
    } else {
        limit
    };
    if by_size > MAX_HITS {
        MAX_HITS
    } else {
        by_size
    }
}

impl SearchEngine {
    /// The engine's index and schema are those of the catalog.
    pub open spec fn wf(&self) -> bool {
        &&& schema_fields(self.schema) == catalog_fields()
        &&& index_schema(self.index) == catalog_fields()
    }

    /// The documents committed to the index, in the order they were added.
    pub open spec fn documents(&self) -> Seq<Map<u32, Seq<StoredValue>>> {
        index_docs(self.index)
    }

    /// Whether two engines hold the same documents at the same addresses, so
    /// that every query is answered alike by both.
    pub open spec fn same_state(&self, other: SearchEngine) -> bool {
        &&& self.documents() == other.documents()
        &&& index_store(self.index) == index_store(other.index)
    }

    /// Whether a query text is well-formed.
    pub open spec fn parses(&self, query: Seq<char>) -> bool {
        query_parses(catalog_fields(), searched_fields(), query)
    }

    /// The addresses that tantivy answers a well-formed query with on this
    /// index, best match first.
    pub open spec fn hits(&self, query: Seq<char>, limit: usize) -> Seq<(u32, u32)> {
        query_hits(
            catalog_fields(),
            index_store(self.index),
            searched_fields(),
            query,
            capped_limit(limit, index_store(self.index).dom().len()),
        )
    }

    /// Whether `found` is the answer to a query: the products read back from
    /// the documents at the query's addresses, in their order.
    pub open spec fn answers(&self, query: Seq<char>, limit: usize, found: Seq<Product>) -> bool {
        &&& products_at(index_store(self.index), self.hits(query, limit), found)
        &&& found.len() <= limit
        &&& forall|k: int| 0 <= k < found.len() ==> read_from((#[trigger] found[k])@, self.documents())
    }

    /// What `search` may return. With limit 0 or an empty query: the empty
    /// result. Else, for a malformed query: `QuerySyntax`, and nothing else.
    /// For a well-formed one: the answer, or `FatalIndex` where the index
    /// could not be read.
    pub open spec fn search_post(&self, query: Seq<char>, limit: usize, r: Result<Vec<Product>, EngineError>) -> bool {
        if limit == 0 || query.len() == 0 {
            r matches Ok(found) && found@.len() == 0
        } else {
            match r {
                Ok(found) => self.parses(query) && self.answers(query, limit, found@),
                Err(EngineError::QuerySyntax(_)) => !self.parses(query),
                Err(EngineError::FatalIndex(_)) => self.parses(query),
            }
        }
    }

    /// An engine over the catalog schema, with an empty index in memory.
    pub fn new() -> (r: Result<SearchEngine, EngineError>)
        ensures
            r matches Ok(engine) && engine.wf() && engine.documents().len() == 0,
    {
        let descriptors = schema_descriptors();
        let mut builder = new_builder();
        let mut i: usize = 0;
        while i < descriptors.len()
            invariant
                i <= descriptors@.len() == 11,
                descriptors@.map_values(|d: FieldDescriptor| d@) == catalog_fields(),
                builder_fields(builder) == catalog_fields().subrange(0, i as int),
            decreases descriptors.len() - i,
        {
            let d = &descriptors[i];
            proof {
                lemma_catalog_names_differ();
                lemma_catalog_names_are_valid();
                lemma_catalog_numbers_are_display_only();
                assert(d@ == descriptors@.map_values(|d: FieldDescriptor| d@)[i as int]);
                assert(d@.name == catalog_fields()[i as int].name);
            }
            let _ = match d.kind {
                FieldKind::Text => match d.role {
                    FieldRole::TokenizedStored => add_searchable_text_field(&mut builder, d.name.as_str()),
                    FieldRole::StoredOnly => add_display_text_field(&mut builder, d.name.as_str()),
                },
                FieldKind::Unsigned => add_display_unsigned_field(&mut builder, d.name.as_str()),
                FieldKind::Signed => add_display_signed_field(&mut builder, d.name.as_str()),
            };
            assert(builder_fields(builder) =~= catalog_fields().subrange(0, i + 1));
            i = i + 1;
        }
        assert(catalog_fields().subrange(0, 11) =~= catalog_fields());
        let schema = build_schema(builder);
        let index = create_index(&schema);
        Ok(SearchEngine { index, schema })
    }

    /// Adds a batch of products to the index, in the batch's order, and
    /// commits them together: on success all of them are in the index behind
    /// those it had; on failure none of them is, and the index holds what it
    /// held, where it held it.
    pub fn index_products(&mut self, products: &[Product]) -> (r: Result<(), EngineError>)
        requires
            old(self).wf(),
        ensures
            final(self).wf(),
            r is Ok ==> final(self).documents() == old(self).documents() + batch_fields(products@),
            r matches Err(e) ==> e is FatalIndex && final(self).same_state(*old(self)),
    {
        let mut writer = match open_writer(&mut self.index, WRITER_THREADS, WRITER_BUDGET) {
            Ok(writer) => writer,
            Err(e) => {
                return Err(EngineError::FatalIndex(describe(&e)));
            },
        };
        let mut i: usize = 0;
        while i < products.len()
            invariant
                i <= products.len(),
                schema_fields(self.schema) == catalog_fields(),
                writer_schema(writer) == catalog_fields(),
                writer_committed(writer) == old(self).documents(),
                writer_stored(writer) == index_store(old(self).index),
                writer_pending(writer) == batch_fields(products@.subrange(0, i as int)),
            decreases products.len() - i,
        {
            let doc = document_from_product(&products[i]);
            proof {
                lemma_product_fits(products[i as int]@);
            }
            match add_document(&mut writer, doc) {
                Ok(_) => {},
                Err(e) => {
                    abandon(writer, &mut self.index);
                    return Err(EngineError::FatalIndex(describe(&e)));
                },
            }
            assert(batch_fields(products@.subrange(0, i + 1)) =~= batch_fields(
                products@.subrange(0, i as int),
            ).push(product_fields(products[i as int]@)));
            i = i + 1;
        }
        assert(products@.subrange(0, i as int) =~= products@);
        match finish(writer, &mut self.index) {
            Ok(_) => Ok(()),
            Err(e) => Err(EngineError::FatalIndex(describe(&e))),
        }
    }

    /// The best matches of a free-text query among the indexed products, best
    /// first, at most `limit` of them.
    ///
    /// The query is matched against `title`, `description` and `brand`. An
    /// empty query matches nothing, and so does any query with `limit` 0:
    /// both give an empty result and are never an error. A malformed query
    /// gives `QuerySyntax`, and only a malformed query does. For a
    /// well-formed one the matches and their order are tantivy's (`hits`);
    /// each product returned is one of the index's documents read back in
    /// full.
    pub fn search(&self, query_str: &str, limit: usize) -> (r: Result<Vec<Product>, EngineError>)
        requires
            self.wf(),
        ensures
            self.search_post(query_str@, limit, r),
    {
        if limit == 0 || query_str.is_empty() {
            return Ok(Vec::new());
        }
        let fields = searched_field_ids();
        if let Some(message) = syntax_error(&self.index, &fields, query_str) {
            return Err(EngineError::QuerySyntax(message));
        }
        let searcher = match open_searcher(&self.index) {
            Ok(searcher) => searcher,
            Err(e) => {
                return Err(EngineError::FatalIndex(describe(&e)));
            },
        };
        let capped = cap_limit(limit, snapshot_len(&searcher));
        match top_hits(&searcher, &fields, query_str, capped) {
            Ok(hits) => collect_products(&searcher, &hits),
            Err(e) => Err(e),
        }
    }
}

/// Reads back the products at the given addresses of a searcher's snapshot,
/// in the order of the addresses. Succeeds with no product where no address
/// is given. Fails where an address names no position of the snapshot, or a
/// document cannot be read.
pub fn collect_products(searcher: &tantivy::Searcher, hits: &Vec<(u32, u32)>) -> (r: Result<
    Vec<Product>,
    EngineError,
>)
    ensures
        r matches Ok(found) ==> all_in_range(searcher_sizes(*searcher), hits@) && products_where_stored(
            searcher_store(*searcher),
            hits@,
            found@,
        ),
        r matches Err(e) ==> e is FatalIndex && hits@.len() > 0,
        !all_in_range(searcher_sizes(*searcher), hits@) ==> r is Err,
{
    let sizes = segment_sizes(searcher);
    let mut found: Vec<Product> = Vec::new();
    let mut k: usize = 0;
    while k < hits.len()
        invariant
            k <= hits.len(),
            sizes@ == searcher_sizes(*searcher),
            all_in_range(sizes@, hits@.subrange(0, k as int)),
            products_where_stored(searcher_store(*searcher), hits@.subrange(0, k as int), found@),
        decreases hits.len() - k,
    {
        let hit = hits[k];
        if !((hit.0 as usize) < sizes.len() && hit.1 < sizes[hit.0 as usize]) {
            assert(!in_range(sizes@, hits@[k as int]));
            return Err(EngineError::FatalIndex("no document at this address".to_owned()));
        }
        let doc = match fetch(searcher, hit) {
            Ok(doc) => doc,
            Err(e) => {
                return Err(EngineError::FatalIndex(describe(&e)));
            },
        };
        let product = product_from_document(&doc);
        found.push(product);
        k = k + 1;
    }
    assert(hits@.subrange(0, k as int) =~= hits@);
    Ok(found)
}

/// Determinism of search: of two results of the same query on the same
/// engine with the same limit, neither of them a failure to read the index,
/// both are the same error or both are answers that are equal, product by
/// product and in the same order.
pub proof fn lemma_search_is_deterministic(
    engine: SearchEngine,
    query: Seq<char>,
    limit: usize,
    first: Result<Vec<Product>, EngineError>,
    second: Result<Vec<Product>, EngineError>,
)
    requires
        engine.search_post(query, limit, first),
        engine.search_post(query, limit, second),
        !(first matches Err(EngineError::FatalIndex(_))),
        !(second matches Err(EngineError::FatalIndex(_))),
    ensures
        first is Ok <==> second is Ok,
        first is Err ==> first->Err_0 is QuerySyntax && second->Err_0 is QuerySyntax,
        first is Ok ==> first->Ok_0@.map_values(|p: Product| p@) == second->Ok_0@.map_values(|p: Product| p@),
{
    if first is Ok {
        let a = first->Ok_0@;
        let b = second->Ok_0@;
        if limit == 0 || query.len() == 0 {
            assert(a.map_values(|p: Product| p@) =~= b.map_values(|p: Product| p@));
        } else {
            lemma_same_hits_same_products(index_store(engine.index), engine.hits(query, limit), a, b);
        }
    }
}

/// Determinism of reading back: two readings of the same addresses from the
/// same snapshot are equal, product by product and in the same order.
pub proof fn lemma_same_hits_same_products(
    store: Map<(u32, u32), Map<u32, Seq<StoredValue>>>,
    hits: Seq<(u32, u32)>,
    first: Seq<Product>,
    second: Seq<Product>,
)
    requires
        products_at(store, hits, first),
        products_at(store, hits, second),
    ensures
        first.map_values(|p: Product| p@) == second.map_values(|p: Product| p@),
{
    assert(first.map_values(|p: Product| p@) =~= second.map_values(|p: Product| p@));
}

/// A failed build changes no answer: an engine in the same state as another
/// may return to a query whatever the other may.
pub proof fn lemma_same_state_same_answers(
    before: SearchEngine,
    after: SearchEngine,
    query: Seq<char>,
    limit: usize,
    r: Result<Vec<Product>, EngineError>,
)
    requires
        after.same_state(before),
        before.search_post(query, limit, r),
    ensures
        after.search_post(query, limit, r),
{
}

/// Fidelity of search results: when the index holds exactly the documents of
/// a batch of products, a product that is read from the index is equal to one
/// of the batch, in every field.
pub proof fn lemma_results_are_inputs(products: Seq<Product>, found: ProductView)
    requires
        read_from(found, batch_fields(products)),
    ensures
        exists|i: int| 0 <= i < products.len() && found == (#[trigger] products[i])@,
{
    let i = choose|i: int|
        0 <= i < batch_fields(products).len() && found == reconstruct(#[trigger] batch_fields(products)[i]);
    lemma_store_then_read(products[i]@);
    assert(found == products[i]@);
}

} // verus!
