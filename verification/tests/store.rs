//! Tests of the query layer against a real in-memory database.

use rusqlite::Connection;
use spbased::db;
use spbased::queries::{item, review, tag};

fn init() -> Connection {
    let mut conn = Connection::open_in_memory().unwrap();
    db::apply_schema(&mut conn).unwrap();
    conn.execute("PRAGMA foreign_keys = ON", ()).unwrap();
    conn
}

fn strings(words: &[&str]) -> Vec<String> {
    words.iter().map(|w| w.to_string()).collect()
}

#[test]
fn run_migration() {
    init();
}

#[test]
fn test_add_item() {
    let mut c = init();
    assert_eq!(
        item::add(
            &mut c,
            "flashcard",
            r#"{"front":"foo","back":"bar"}"#,
            &strings(&["foo", "bar"]),
        )
        .unwrap(),
        1
    );
}

#[test]
fn test_edit_and_get_item() {
    let mut c = init();
    let id = item::add(
        &mut c,
        "flashcard",
        r#"{"front":"foo","back":"bar"}"#,
        &Vec::new(),
    )
    .unwrap();
    item::edit_data(&mut c, id, r#"{"front":"foobar","back":"barbaz"}"#).unwrap();
    item::edit_model(&mut c, id, "reading").unwrap();
    let it = item::get(&mut c, id).unwrap();
    assert_eq!(it.model, "reading");
    assert_eq!(
        serde_json::from_str::<serde_json::Value>(&it.data).unwrap(),
        serde_json::from_str::<serde_json::Value>(r#"{"front":"foobar","back":"barbaz"}"#).unwrap()
    );
}

#[test]
fn test_edit_tags_on_item() {
    let mut c = init();
    let id = item::add(
        &mut c,
        "flashcard",
        r#"{"front":"foo","back":"bar"}"#,
        &Vec::new(),
    )
    .unwrap();

    let tags_to_add = strings(&["test", "test2"]);
    item::add_tags(&mut c, id, &tags_to_add).unwrap();
    item::add_tags(&mut c, id, &tags_to_add).unwrap();
    let tags = item::get_tags(&mut c, id).unwrap();
    let tags: Vec<String> = tags.into_iter().map(|t| t.name).collect();
    assert_eq!(tags_to_add, tags);

    item::remove_tags(&mut c, id, &tags_to_add).unwrap();
    let tags = item::get_tags(&mut c, id).unwrap();
    assert!(tags.is_empty());

    let it = item::get(&mut c, id).unwrap();
    assert_eq!(
        serde_json::from_str::<serde_json::Value>(&it.data).unwrap(),
        serde_json::from_str::<serde_json::Value>(r#"{"front":"foo","back":"bar"}"#).unwrap()
    );
}

#[test]
fn test_query_item_based_on_tags() {
    let mut c = init();
    let item_1_tags = strings(&["test1", "test2"]);
    let id1 = item::add(
        &mut c,
        "flashcard",
        r#"{"front":"foo","back":"bar"}"#,
        &item_1_tags,
    )
    .unwrap();
    let item_2_tags = strings(&["test2", "test3"]);
    let id2 = item::add(
        &mut c,
        "flashcard",
        r#"{"front":"foo","back":"bar"}"#,
        &item_2_tags,
    )
    .unwrap();

    let item_tags: Vec<String> = item::get_tags(&mut c, id1)
        .unwrap()
        .into_iter()
        .map(|t| t.name)
        .collect();
    assert_eq!(item_1_tags, item_tags);

    let item_tags: Vec<String> = item::get_tags(&mut c, id2)
        .unwrap()
        .into_iter()
        .map(|t| t.name)
        .collect();
    assert_eq!(item_2_tags, item_tags);

    let items = item::query(&mut c, None, &strings(&["test1"]), &Vec::new()).unwrap();
    assert_eq!(items[0].id, id1);

    let items = item::query(&mut c, None, &strings(&["test3"]), &Vec::new()).unwrap();
    assert_eq!(items[0].id, id2);

    let items = item::query(&mut c, None, &Vec::new(), &strings(&["test2"])).unwrap();
    assert!(items.is_empty());
}

#[test]
fn test_add_tag() {
    let mut c = init();
    let id = tag::add(&mut c, "edan35").unwrap();
    assert!(id == 1);
}

#[test]
fn test_edit_tag() {
    let mut c = init();
    let id = tag::add(&mut c, "edan35").unwrap();
    assert!(id == 1);
    tag::edit(&mut c, "edan35", "edaf35").unwrap();
    let t = tag::get(&mut c, id).unwrap();
    assert_eq!(&t.name, "edaf35");
}

#[test]
fn duplicate_tag_is_an_error() {
    let mut c = init();
    tag::add(&mut c, "once").unwrap();
    let err = tag::add(&mut c, "once").unwrap_err();
    assert!(!err.message.is_empty());
}

#[test]
fn query_with_filter_expression() {
    let mut c = init();
    let id1 = item::add(&mut c, "flashcard", "{}", &Vec::new()).unwrap();
    let _id2 = item::add(&mut c, "reading", "{}", &Vec::new()).unwrap();
    let ast = spbased::parser::FilterLangParser::parse("model == 'flashcard'").unwrap();
    let items = item::query(&mut c, Some(ast), &Vec::new(), &Vec::new()).unwrap();
    assert_eq!(items.len(), 1);
    assert_eq!(items[0].id, id1);
}

#[test]
fn tag_query_with_filter_expression() {
    let mut c = init();
    tag::add(&mut c, "alpha").unwrap();
    tag::add(&mut c, "beta").unwrap();
    let ast = spbased::parser::FilterLangParser::parse("name == 'beta'").unwrap();
    let tags = tag::query(&mut c, Some(ast)).unwrap();
    assert_eq!(tags.len(), 1);
    assert_eq!(tags[0].name, "beta");
}

#[test]
fn review_flow_counts_and_views() {
    let mut c = init();
    let id = item::add(&mut c, "flashcard", "{}", &Vec::new()).unwrap();

    // A fresh item is new and not due.
    assert_eq!(review::query_n_new(&mut c, None).unwrap(), 1);
    assert_eq!(review::query_n_due(&mut c, None).unwrap(), 0);
    let next = review::study_new(&mut c, None).unwrap().unwrap();
    assert_eq!(next.id, id);
    assert!(review::study_due(&mut c, None).unwrap().is_none());

    // Promote it with a stability of two days, last reviewed long ago: due.
    review::set_maturity(&mut c, id, spbased::maturity::Maturity::Young).unwrap();
    review::set_sra_params(&mut c, id, "2.0", "5.0", "2020-01-01T00:00:00Z").unwrap();
    assert_eq!(review::query_n_new(&mut c, None).unwrap(), 0);
    assert_eq!(review::query_n_due(&mut c, None).unwrap(), 1);
    let due = review::study_due(&mut c, None).unwrap().unwrap();
    assert_eq!(due.id, id);
    assert_eq!(due.maturity, "young");
    assert_eq!(due.stability, "2.0");
    assert_eq!(due.last_review_date, "2020-01-01T00:00:00Z");

    // Counters move one at a time.
    review::increment_n_reviews(&mut c, id).unwrap();
    review::increment_n_reviews(&mut c, id).unwrap();
    review::increment_n_lapses(&mut c, id).unwrap();
    let it = item::get(&mut c, id).unwrap();
    assert_eq!(it.n_reviews, 2);
    assert_eq!(it.n_lapses, 1);
}

#[test]
fn delete_removes_item() {
    let mut c = init();
    let id = item::add(&mut c, "flashcard", "{}", &Vec::new()).unwrap();
    item::delete(&mut c, id).unwrap();
    assert!(item::get(&mut c, id).is_err());
}
