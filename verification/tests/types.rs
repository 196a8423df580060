use dbmcp::pagination::{Cursor, Pager};
use dbmcp::types::{ListTablesResponse, TableEntries};
use indexmap::IndexMap;
use serde_json::Value;

fn strings(v: &[&str]) -> Vec<String> {
    v.iter().map(|s| s.to_string()).collect()
}

#[test]
fn brief_response_trims_over_fetch() {
    let pager = Pager::new(None, 2);
    let r = ListTablesResponse::brief(strings(&["a", "b", "c"]), pager);
    assert_eq!(r.tables.as_brief().unwrap(), &["a".to_owned(), "b".to_owned()][..]);
    assert_eq!(r.next_cursor, Some(Cursor { offset: 2 }));
    assert_eq!(r.tables.len(), 2);
    assert!(!r.tables.is_empty());
    assert!(r.tables.as_detailed().is_none());
}

#[test]
fn detailed_response_keeps_first_position_and_last_value() {
    let pager = Pager::new(Some(Cursor { offset: 10 }), 5);
    let pairs = vec![
        ("c".to_owned(), Value::from(1)),
        ("a".to_owned(), Value::from(2)),
        ("c".to_owned(), Value::from(3)),
        ("b".to_owned(), Value::from(4)),
    ];
    let r = ListTablesResponse::detailed(pairs, pager);
    assert!(r.next_cursor.is_none());
    let m = r.tables.as_detailed().unwrap();
    let keys: Vec<&str> = m.keys().map(String::as_str).collect();
    assert_eq!(keys, ["c", "a", "b"]);
    assert_eq!(m["c"], Value::from(3));
    assert_eq!(m["a"], Value::from(2));
    assert_eq!(m["b"], Value::from(4));
    assert_eq!(r.tables.len(), 3);
    assert!(r.tables.into_brief().is_none());
}

#[test]
fn empty_listing_is_empty_in_both_modes() {
    let brief = TableEntries::Brief(vec![]);
    assert!(brief.is_empty());
    let detailed = ListTablesResponse::detailed(vec![], Pager::new(None, 3));
    assert!(detailed.tables.is_empty());
    assert_eq!(TableEntries::Brief(strings(&["x"])).into_brief(), Some(strings(&["x"])));
}

#[test]
fn helpers_unwrap_correct_variant() {
    let brief = TableEntries::Brief(vec!["a".into()]);
    assert_eq!(brief.len(), 1);
    assert!(!brief.is_empty());
    assert!(brief.as_brief().is_some());
    assert!(brief.as_detailed().is_none());

    let det = TableEntries::Detailed(IndexMap::from([("x".to_owned(), Value::from(1))]));
    assert_eq!(det.len(), 1);
    assert!(det.as_brief().is_none());
    assert!(det.as_detailed().is_some());
    assert_eq!(TableEntries::Brief(vec!["a".into()]).into_brief(), Some(vec!["a".to_owned()]));
}
