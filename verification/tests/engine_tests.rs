use search_bench::engine::{collect_products, EngineError, SearchEngine};
use search_bench::models::Product;

fn product(title: &str, brand: &str) -> Product {
    Product {
        title: title.to_string(),
        brand: brand.to_string(),
        description: String::new(),
        price: None,
        currency: String::new(),
        availability: String::new(),
        reviews_count: None,
        rating: None,
        discount: String::new(),
        manufacturer: String::new(),
        category: String::new(),
    }
}

fn three_products() -> Vec<Product> {
    vec![
        product("Red Shoes", "Acme"),
        product("Blue Shoes", "Acme"),
        product("Red Hat", "Beta"),
    ]
}

fn engine_with(products: &[Product]) -> SearchEngine {
    let mut engine = SearchEngine::new().expect("a fresh engine");
    engine.index_products(products).expect("indexing");
    engine
}

fn titles(found: &[Product]) -> Vec<String> {
    found.iter().map(|p| p.title.clone()).collect()
}

fn same(a: &Product, b: &Product) -> bool {
    a.title == b.title
        && a.brand == b.brand
        && a.description == b.description
        && a.price == b.price
        && a.currency == b.currency
        && a.availability == b.availability
        && a.reviews_count == b.reviews_count
        && a.rating == b.rating
        && a.discount == b.discount
        && a.manufacturer == b.manufacturer
        && a.category == b.category
}

#[test]
fn red_matches_two_records_in_input_order() {
    let engine = engine_with(&three_products());
    let found = engine.search("Red", 10).unwrap();
    assert_eq!(titles(&found), vec!["Red Shoes".to_string(), "Red Hat".to_string()]);
    assert_eq!(found[0].brand, "Acme");
    assert_eq!(found[1].brand, "Beta");
}

#[test]
fn shoes_with_limit_one_returns_one_record() {
    let engine = engine_with(&three_products());
    let found = engine.search("Shoes", 1).unwrap();
    assert_eq!(found.len(), 1);
    assert!(found[0].title.contains("Shoes"));
}

#[test]
fn purple_matches_nothing_and_is_no_error() {
    let engine = engine_with(&three_products());
    let found = engine.search("Purple", 10);
    assert!(matches!(found, Ok(ref v) if v.is_empty()));
}

#[test]
fn limit_zero_returns_empty() {
    let engine = engine_with(&three_products());
    assert!(engine.search("Red", 0).unwrap().is_empty());
    assert!(engine.search("\"unterminated", 0).unwrap().is_empty());
}

#[test]
fn fewer_matches_than_limit_are_not_padded() {
    let engine = engine_with(&three_products());
    assert_eq!(engine.search("Shoes", 50).unwrap().len(), 2);
    assert_eq!(engine.search("Acme", 2).unwrap().len(), 2);
    assert_eq!(engine.search("hat", 3).unwrap().len(), 1);
}

#[test]
fn empty_query_matches_nothing() {
    let engine = engine_with(&three_products());
    assert!(engine.search("", 10).unwrap().is_empty());
}

#[test]
fn empty_index_answers_with_no_result() {
    let engine = SearchEngine::new().unwrap();
    assert!(engine.search("Red", 10).unwrap().is_empty());
}

#[test]
fn matching_ignores_case_and_searches_brand_and_description() {
    let mut with_description = product("Lamp", "Lumen");
    with_description.description = "A bright, red-shaded desk lamp".to_string();
    let mut batch = three_products();
    batch.push(with_description);
    let engine = engine_with(&batch);
    assert_eq!(engine.search("red", 10).unwrap().len(), 3);
    assert_eq!(titles(&engine.search("beta", 10).unwrap()), vec!["Red Hat".to_string()]);
    assert_eq!(titles(&engine.search("DESK", 10).unwrap()), vec!["Lamp".to_string()]);
}

#[test]
fn several_terms_are_combined_with_or() {
    let engine = engine_with(&three_products());
    let found = engine.search("hat blue", 10).unwrap();
    let mut got = titles(&found);
    got.sort();
    assert_eq!(got, vec!["Blue Shoes".to_string(), "Red Hat".to_string()]);
}

#[test]
fn more_matching_terms_rank_higher() {
    let engine = engine_with(&three_products());
    let found = engine.search("red hat", 10).unwrap();
    assert_eq!(titles(&found), vec!["Red Hat".to_string(), "Red Shoes".to_string()]);
}

#[test]
fn quoted_phrase_must_be_contiguous() {
    let batch = vec![product("Red Leather Shoes", "Acme"), product("Red Shoes", "Acme")];
    let engine = engine_with(&batch);
    assert_eq!(titles(&engine.search("\"red shoes\"", 10).unwrap()), vec!["Red Shoes".to_string()]);
}

#[test]
fn stored_only_fields_are_never_matched() {
    let mut p = product("Kettle", "Boil");
    p.currency = "EUR".to_string();
    p.availability = "instock".to_string();
    p.discount = "tenpercent".to_string();
    p.manufacturer = "Steamworks".to_string();
    p.category = "Kitchen".to_string();
    let engine = engine_with(&[p]);
    for term in ["EUR", "instock", "tenpercent", "Steamworks", "Kitchen"] {
        assert!(engine.search(term, 10).unwrap().is_empty());
    }
    assert_eq!(engine.search("kettle", 10).unwrap().len(), 1);
}

#[test]
fn stored_only_fields_come_back_unchanged() {
    let mut full = product("Kettle", "Boil");
    full.description = "Boils water".to_string();
    full.price = Some(19.99f64.to_bits());
    full.currency = "EUR".to_string();
    full.availability = "In Stock".to_string();
    full.reviews_count = Some(1234);
    full.rating = Some(4.5f64.to_bits());
    full.discount = "10%".to_string();
    full.manufacturer = "Steamworks".to_string();
    full.category = "Kitchen".to_string();
    let bare = product("Kettle Stand", "");
    let engine = engine_with(&[full.clone(), bare.clone()]);
    let found = engine.search("kettle", 10).unwrap();
    assert_eq!(found.len(), 2);
    let got_full = found.iter().find(|p| p.title == "Kettle").unwrap();
    let got_bare = found.iter().find(|p| p.title == "Kettle Stand").unwrap();
    assert!(same(got_full, &full));
    assert!(same(got_bare, &bare));
    assert_eq!(got_full.price.map(f64::from_bits), Some(19.99));
    assert_eq!(got_full.rating.map(f64::from_bits), Some(4.5));
    assert_eq!(got_full.reviews_count, Some(1234));
    assert_eq!(got_bare.price, None);
    assert_eq!(got_bare.reviews_count, None);
    assert_eq!(got_bare.rating, None);
}

#[test]
fn extreme_numbers_come_back_unchanged() {
    let mut low = product("Low", "");
    low.reviews_count = Some(i32::MIN);
    low.price = Some(0);
    low.rating = Some(u64::MAX);
    let mut high = product("High", "");
    high.reviews_count = Some(i32::MAX);
    high.price = Some((-0.0f64).to_bits());
    let engine = engine_with(&[low.clone(), high.clone()]);
    assert!(same(&engine.search("low", 1).unwrap()[0], &low));
    assert!(same(&engine.search("high", 1).unwrap()[0], &high));
}

#[test]
fn record_with_all_fields_empty_is_indexed_but_never_matched() {
    let engine = engine_with(&[product("", ""), product("Red Hat", "Beta")]);
    assert_eq!(titles(&engine.search("red", 10).unwrap()), vec!["Red Hat".to_string()]);
    assert!(engine.search("a", 10).unwrap().is_empty());
}

#[test]
fn repeated_search_gives_the_same_results() {
    let engine = engine_with(&three_products());
    let first = engine.search("shoes acme red", 10).unwrap();
    for _ in 0..5 {
        let again = engine.search("shoes acme red", 10).unwrap();
        assert_eq!(again.len(), first.len());
        assert!(again.iter().zip(first.iter()).all(|(a, b)| same(a, b)));
    }
}

#[test]
fn two_builds_of_the_same_batch_answer_alike() {
    let one = engine_with(&three_products());
    let two = engine_with(&three_products());
    for query in ["red", "shoes", "acme beta", "purple"] {
        let a = one.search(query, 10).unwrap();
        let b = two.search(query, 10).unwrap();
        assert_eq!(a.len(), b.len());
        assert!(a.iter().zip(b.iter()).all(|(x, y)| same(x, y)));
    }
}

#[test]
fn every_record_with_the_term_is_found() {
    let mut batch = Vec::new();
    for i in 0..40 {
        let title = if i % 4 == 0 { format!("Green Widget {}", i) } else { format!("Plain Widget {}", i) };
        batch.push(product(&title, "Acme"));
    }
    let engine = engine_with(&batch);
    let found = engine.search("green", 100).unwrap();
    let mut got = titles(&found);
    got.sort();
    let mut expected: Vec<String> = (0..40).filter(|i| i % 4 == 0).map(|i| format!("Green Widget {}", i)).collect();
    expected.sort();
    assert_eq!(got, expected);
}

#[test]
fn a_second_batch_is_added_behind_the_first() {
    let mut engine = engine_with(&three_products());
    engine.index_products(&[product("Red Scarf", "Gamma")]).unwrap();
    assert_eq!(
        titles(&engine.search("red", 10).unwrap()),
        vec!["Red Shoes".to_string(), "Red Hat".to_string(), "Red Scarf".to_string()]
    );
}

#[test]
fn empty_batch_leaves_the_index_as_it_was() {
    let mut engine = engine_with(&three_products());
    engine.index_products(&[]).unwrap();
    assert_eq!(engine.search("shoes", 10).unwrap().len(), 2);
}

#[test]
fn malformed_query_is_a_syntax_error() {
    let engine = engine_with(&three_products());
    assert!(matches!(engine.search("nosuchfield:red", 10), Err(EngineError::QuerySyntax(_))));
    assert!(matches!(engine.search("title:", 10), Err(EngineError::QuerySyntax(_))));
}

#[test]
fn a_failed_query_does_not_disturb_the_index() {
    let engine = engine_with(&three_products());
    assert!(engine.search("nosuchfield:red", 10).is_err());
    assert_eq!(engine.search("red", 10).unwrap().len(), 2);
}

#[test]
fn collect_products_of_no_address_is_empty() {
    let engine = engine_with(&three_products());
    let searcher = engine.index.reader().unwrap().searcher();
    assert!(collect_products(&searcher, &Vec::new()).unwrap().is_empty());
}

#[test]
fn collect_products_reads_in_the_order_of_the_addresses() {
    let engine = engine_with(&three_products());
    let searcher = engine.index.reader().unwrap().searcher();
    let found = collect_products(&searcher, &vec![(0, 2), (0, 0), (0, 1)]).unwrap();
    assert_eq!(
        titles(&found),
        vec!["Red Hat".to_string(), "Red Shoes".to_string(), "Blue Shoes".to_string()]
    );
}

#[test]
fn unbalanced_parenthesis_is_a_syntax_error() {
    let engine = engine_with(&three_products());
    assert!(matches!(engine.search("(red", 10), Err(EngineError::QuerySyntax(_))));
}

#[test]
fn price_bits_are_never_matched_as_text() {
    let mut p = product("Kettle", "Boil");
    p.price = Some(42);
    p.reviews_count = Some(42);
    let engine = engine_with(&[p]);
    assert!(engine.search("42", 10).unwrap().is_empty());
}

#[test]
fn results_never_exceed_the_limit() {
    let mut batch = Vec::new();
    for i in 0..25 {
        batch.push(product(&format!("Widget {}", i), "Acme"));
    }
    let engine = engine_with(&batch);
    for limit in [1usize, 2, 10, 24, 25, 26, 1000] {
        let found = engine.search("widget", limit).unwrap();
        assert_eq!(found.len(), limit.min(25));
    }
}

#[test]
fn equal_scores_come_in_input_order() {
    let mut batch = Vec::new();
    for i in 0..12 {
        batch.push(product("Widget", &format!("Brand{}", i)));
    }
    let engine = engine_with(&batch);
    let found = engine.search("widget", 5).unwrap();
    let brands: Vec<String> = found.iter().map(|p| p.brand.clone()).collect();
    assert_eq!(brands, vec!["Brand0", "Brand1", "Brand2", "Brand3", "Brand4"]);
}

#[test]
fn indexing_fails_while_another_writer_holds_the_index() {
    let mut engine = engine_with(&three_products());
    let other = engine.index.writer_with_num_threads(1, 50_000_000).unwrap();
    assert!(matches!(
        engine.index_products(&[product("Red Scarf", "Gamma")]), Err(EngineError::FatalIndex(_))));
    drop(other);
    assert_eq!(engine.search("red", 10).unwrap().len(), 2);
    engine.index_products(&[product("Red Scarf", "Gamma")]).unwrap();
    assert_eq!(engine.search("red", 10).unwrap().len(), 3);
}

#[test]
fn fresh_engine_has_the_catalog_schema() {
    let engine = SearchEngine::new().unwrap();
    let names: Vec<String> = engine.schema.fields().map(|(_, entry)| entry.name().to_string()).collect();
    assert_eq!(
        names,
        vec![
            "title", "brand", "description", "price", "currency", "availability",
            "reviews_count", "rating", "discount", "manufacturer", "category",
        ]
    );
    for (field, entry) in engine.schema.fields() {
        assert!(entry.is_stored());
        assert_eq!(entry.is_indexed(), field.field_id() < 3);
    }
    assert_eq!(engine.index.schema(), engine.schema);
}

#[test]
fn the_largest_limit_returns_every_match() {
    let engine = engine_with(&three_products());
    assert_eq!(engine.search("red", usize::MAX).unwrap().len(), 2);
    assert_eq!(engine.search("shoes acme", usize::MAX).unwrap().len(), 2);
    let empty = SearchEngine::new().unwrap();
    assert!(empty.search("red", usize::MAX).unwrap().is_empty());
}

#[test]
fn collect_products_rejects_an_address_outside_the_snapshot() {
    let engine = engine_with(&three_products());
    let searcher = engine.index.reader().unwrap().searcher();
    assert!(matches!(collect_products(&searcher, &vec![(0, 0), (5, 0)]), Err(EngineError::FatalIndex(_))));
    assert!(matches!(collect_products(&searcher, &vec![(0, 3)]), Err(EngineError::FatalIndex(_))));
    assert_eq!(collect_products(&searcher, &vec![(0, 2)]).unwrap().len(), 1);
}

#[test]
fn malformed_query_is_a_syntax_error_on_an_empty_index_too() {
    let engine = SearchEngine::new().unwrap();
    assert!(matches!(engine.search("(red", 10), Err(EngineError::QuerySyntax(_))));
}

#[test]
fn a_failed_build_changes_no_answer() {
    let mut engine = engine_with(&three_products());
    let before = titles(&engine.search("red shoes acme", 10).unwrap());
    let other = engine.index.writer_with_num_threads(1, 50_000_000).unwrap();
    assert!(engine.index_products(&[product("Red Scarf", "Acme")]).is_err());
    drop(other);
    assert_eq!(titles(&engine.search("red shoes acme", 10).unwrap()), before);
}

#[test]
fn errors_carry_a_message() {
    let engine = engine_with(&three_products());
    let syntax = engine.search("(red", 10).err().unwrap();
    assert!(!syntax.message().is_empty());
    let searcher = engine.index.reader().unwrap().searcher();
    let missing = collect_products(&searcher, &vec![(9, 9)]).err().unwrap();
    assert_eq!(missing.message(), "no document at this address");
}
