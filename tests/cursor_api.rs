use rincon_client::cursor::{Cursor, NewCursor};
use rincon_client::cursor_methods::{CreateCursor, DeleteCursor, ReadNextBatchFromCursor};
use rincon_client::cursor_store::CursorStore;
use rincon_client::error::Error;
use rincon_client::json::{Json, Number};
use rincon_client::method::{Operation, Prepare};
use rincon_client::query::{OptimizerRule, Query};

fn text(s: &str) -> Json {
    Json::Str(s.to_string())
}

fn num(n: i64) -> Json {
    Json::Number(Number::Int(n))
}

fn object(members: Vec<(&str, Json)>) -> Json {
    Json::Object(members.into_iter().map(|(k, v)| (k.to_string(), v)).collect())
}

fn member<'a>(j: &'a Json, key: &str) -> Option<&'a Json> {
    match j {
        Json::Object(m) => m.iter().find(|(k, _)| k == key).map(|(_, v)| v),
        _ => None,
    }
}

fn names(from: u32, to: u32) -> Vec<Json> {
    (from..=to).map(|i| text(&format!("No.{}", i))).collect()
}

fn sorted_matching_names() -> Vec<Json> {
    // the names of the 16 customers aged at most 37, sorted as strings
    let mut v: Vec<String> = (1..=16).map(|i| format!("No.{}", i)).collect();
    v.sort();
    v.into_iter().map(|s| Json::Str(s)).collect()
}

fn read(store: &mut CursorStore, id: &str) -> Result<Cursor, Error> {
    let method = ReadNextBatchFromCursor::with_id_ref(id);
    method.decode_response(store.read_next(id))
}

#[test]
fn query_returns_cursor_with_no_results() {
    let mut store = CursorStore::new();
    let method = CreateCursor::from_query(Query::new("FOR c IN cursor_customers01 RETURN c".to_string()));
    let envelope = store.create("1".to_string(), Vec::new(), 1000);
    let cursor = method.decode_response(envelope).unwrap();
    assert!(cursor.result().is_empty());
    assert_eq!(false, cursor.has_more());
    assert_eq!(None, cursor.id());
    assert!(!store.is_open("1"));
}

#[test]
fn query_reads_from_cursor_in_batches_of_5_results() {
    let mut store = CursorStore::new();
    let mut new_cursor = NewCursor::from_query(Query::new(
        "FOR c IN cursor_customers03 FILTER c.age <= 37 SORT c.name RETURN c.name".to_string(),
    ));
    new_cursor.set_batch_size(5);
    let method = CreateCursor::new(new_cursor);
    let batch_size = method.query().batch_size().unwrap() as usize;
    let rows = sorted_matching_names();
    let cursor = method.decode_response(store.create("77".to_string(), rows, batch_size)).unwrap();

    for name in ["No.1", "No.10", "No.11", "No.12", "No.13"] {
        assert!(cursor.result().contains(&text(name)));
    }
    assert_eq!(5, cursor.result().len());
    assert_eq!(true, cursor.has_more());
    let cursor_id = cursor.id().unwrap().to_string();

    let cursor = read(&mut store, cursor.id().unwrap()).unwrap();
    for name in ["No.14", "No.15", "No.16", "No.2", "No.3"] {
        assert!(cursor.result().contains(&text(name)));
    }
    assert_eq!(5, cursor.result().len());
    assert_eq!(true, cursor.has_more());
    assert_eq!(cursor_id, cursor.id().unwrap());

    let cursor = read(&mut store, cursor.id().unwrap()).unwrap();
    for name in ["No.4", "No.5", "No.6", "No.7", "No.8"] {
        assert!(cursor.result().contains(&text(name)));
    }
    assert_eq!(5, cursor.result().len());
    assert_eq!(true, cursor.has_more());
    assert_eq!(cursor_id, cursor.id().unwrap());

    let cursor = read(&mut store, cursor.id().unwrap()).unwrap();
    assert!(cursor.result().contains(&text("No.9")));
    assert_eq!(1, cursor.result().len());
    assert_eq!(false, cursor.has_more());
    assert_eq!(None, cursor.id());
    assert!(!store.is_open(&cursor_id));
}

#[test]
fn delete_cursor_before_fetching_all_results() {
    let mut store = CursorStore::new();
    let cursor = CreateCursor::new(NewCursor::new("FOR c IN cursor_customers04 RETURN c.name".to_string()))
        .decode_response(store.create("9".to_string(), sorted_matching_names(), 5))
        .unwrap();
    assert_eq!(5, cursor.result().len());
    assert_eq!(true, cursor.has_more());
    let cursor_id = cursor.id().unwrap().to_string();

    let cursor = read(&mut store, &cursor_id).unwrap();
    for name in ["No.14", "No.15", "No.16", "No.2", "No.3"] {
        assert!(cursor.result().contains(&text(name)));
    }
    assert_eq!(true, cursor.has_more());

    let method = cursor.delete().unwrap();
    assert_eq!(cursor_id, method.cursor_id());
    let deleted = method.decode_response(store.delete(method.cursor_id()));
    assert_eq!(Ok(()), deleted);

    let result = read(&mut store, &cursor_id);
    match result {
        Err(Error::Method(error)) => {
            assert_eq!(404, error.status_code());
            assert_eq!(1600, error.error_code());
            assert_eq!("cursor not found", error.message());
        },
        _ => panic!("Error::Method expected but got {:?}", result),
    };
}

#[test]
fn deleting_twice_is_not_found() {
    let mut store = CursorStore::new();
    store.create("5".to_string(), names(1, 10), 3);
    let first = DeleteCursor::with_id("5").decode_response(store.delete("5"));
    assert_eq!(Ok(()), first);
    match DeleteCursor::new("5".to_string()).decode_response(store.delete("5")) {
        Err(Error::Method(e)) => assert_eq!((404, 1600), (e.status_code(), e.error_code())),
        other => panic!("not-found expected but got {:?}", other),
    }
}

#[test]
fn batches_together_hold_every_row_once_in_order() {
    for n in 0..13u32 {
        for b in 1..6usize {
            let mut store = CursorStore::new();
            let rows = names(1, n);
            let mut seen: Vec<Json> = Vec::new();
            let mut cursor = CreateCursor::new(NewCursor::new("q".to_string()))
                .decode_response(store.create("c".to_string(), rows.clone(), b))
                .unwrap();
            let mut calls = 1;
            loop {
                assert!(cursor.result().len() <= b);
                assert_eq!(cursor.has_more(), cursor.id().is_some());
                seen.extend(cursor.result().iter().cloned());
                match cursor.next_batch() {
                    Some(m) => {
                        cursor = m.decode_response(store.read_next(m.cursor_id())).unwrap();
                        calls += 1;
                    },
                    None => break,
                }
            }
            assert_eq!(rows, seen);
            let expected_calls = if n == 0 { 1 } else { (n as usize + b - 1) / b };
            assert_eq!(expected_calls, calls);
            assert!(!store.is_open("c"));
        }
    }
}

#[test]
fn read_from_unknown_cursor_is_not_found() {
    let mut store = CursorStore::new();
    match read(&mut store, "404") {
        Err(Error::Method(e)) => {
            assert_eq!(404, e.status_code());
            assert_eq!(1600, e.error_code());
        },
        other => panic!("not-found expected but got {:?}", other),
    }
}

#[test]
fn cursor_methods_describe_their_calls() {
    let create = CreateCursor::new(NewCursor::new("RETURN 1".to_string()));
    assert_eq!(Operation::Create, create.operation());
    assert_eq!("/_api/cursor", create.path());
    assert!(create.content().is_some());
    assert!(create.parameters().is_empty());
    assert!(create.header().is_empty());

    let read = ReadNextBatchFromCursor::with_id("12345");
    assert_eq!(Operation::Replace, read.operation());
    assert_eq!("/_api/cursor/12345", read.path());
    assert!(read.content().is_none());
    assert_eq!("12345", read.cursor_id());

    let delete = DeleteCursor::with_id_ref("678");
    assert_eq!(Operation::Delete, delete.operation());
    assert_eq!("/_api/cursor/678", delete.path());
    assert!(delete.content().is_none());
    assert_eq!("678", delete.cursor_id());
}

#[test]
fn new_cursor_wire_shape() {
    let mut query = Query::new("FOR c IN @@col RETURN c".to_string());
    query.set_parameter("@col".to_string(), text("customers"));
    let mut new_cursor = NewCursor::from_query(query);
    new_cursor.set_batch_size(5);
    new_cursor.set_count(true);
    new_cursor.disable_rule(OptimizerRule::All);
    new_cursor.enable_rule(OptimizerRule::Named("move-filters-up".to_string()));
    let j = new_cursor.to_json();
    assert_eq!(Some(&text("FOR c IN @@col RETURN c")), member(&j, "query"));
    assert_eq!(Some(&object(vec![("@col", text("customers"))])), member(&j, "bindVars"));
    assert_eq!(Some(&num(5)), member(&j, "batchSize"));
    assert_eq!(Some(&Json::Bool(true)), member(&j, "count"));
    let rules = member(member(member(&j, "options").unwrap(), "optimizer").unwrap(), "rules");
    assert_eq!(Some(&Json::Array(vec![text("-all"), text("+move-filters-up")])), rules);
}

#[test]
fn cursor_decoding_keeps_members() {
    let envelope = object(vec![
        ("result", Json::Array(vec![text("No.1")])),
        ("hasMore", Json::Bool(true)),
        ("id", text("4711")),
        ("count", num(16)),
        ("cached", Json::Bool(false)),
        (
            "extra",
            object(vec![(
                "stats",
                object(vec![
                    ("writesExecuted", num(0)),
                    ("writesIgnored", num(0)),
                    ("scannedFull", num(21)),
                    ("scannedIndex", num(0)),
                    ("filtered", num(5)),
                ]),
            )]),
        ),
        ("error", Json::Bool(false)),
        ("code", num(201)),
    ]);
    let cursor = CreateCursor::new(NewCursor::new("q".to_string())).decode_response(envelope).unwrap();
    assert_eq!(&vec![text("No.1")], cursor.result());
    assert_eq!(Some("4711"), cursor.id());
    assert_eq!(Some(16), cursor.count());
    let stats = cursor.extra().unwrap().stats();
    assert_eq!(21, stats.scanned_full());
    assert_eq!(5, stats.filtered());
    assert_eq!(0, stats.writes_executed());
}

#[test]
fn cursor_round_trip_keeps_paging_state() {
    let wire = object(vec![
        ("result", Json::Array(vec![num(1), num(2)])),
        ("hasMore", Json::Bool(true)),
        ("id", text("99")),
    ]);
    let cursor = Cursor::from_json(wire).unwrap();
    let again = cursor.to_json();
    assert_eq!(Some(&Json::Bool(true)), member(&again, "hasMore"));
    assert_eq!(Some(&text("99")), member(&again, "id"));
    assert_eq!(Some(&Json::Array(vec![num(1), num(2)])), member(&again, "result"));

    let last = Cursor::from_json(object(vec![("result", Json::Array(vec![])), ("hasMore", Json::Bool(false))]))
        .unwrap();
    let again = last.to_json();
    assert_eq!(Some(&Json::Bool(false)), member(&again, "hasMore"));
    assert_eq!(None, member(&again, "id"));
}

#[test]
fn identifier_without_more_rows_is_a_decoding_error() {
    let wire = object(vec![
        ("result", Json::Array(vec![])),
        ("hasMore", Json::Bool(false)),
        ("id", text("3")),
    ]);
    assert!(matches!(Cursor::from_json(wire), Err(Error::Deserialization(_))));
    let wire = object(vec![("result", Json::Array(vec![])), ("hasMore", Json::Bool(true))]);
    assert!(matches!(Cursor::from_json(wire), Err(Error::Deserialization(_))));
    let wire = object(vec![("hasMore", Json::Bool(false))]);
    assert!(matches!(Cursor::from_json(wire), Err(Error::Deserialization(_))));
}
