use sub_watcher::keywords::MatchOutcome;
use sub_watcher::pipeline::{
    after_insert, after_lookup, decide_unseen, process_item, process_slot, ForwardAction, Item, ItemOutcome, KeywordSet,
    StreamError,
};
use sub_watcher::store::{
    classify_failure, create_db, settle_setup, settle_write, db_path_or_default, get_by_permalink, insert_by_permalink, StoreError,
    DEFAULT_DB_PATH,
};

fn fresh_db(name: &str) -> String {
    let path = format!("/tmp/sub_watcher_test_{}.db", name);
    let conn = rusqlite::Connection::open(&path).unwrap();
    conn.execute("DROP TABLE IF EXISTS seen_posts", []).unwrap();
    drop(conn);
    create_db(Some(&path)).unwrap()
}

fn row_count(path: &str) -> i64 {
    let conn = rusqlite::Connection::open(path).unwrap();
    conn.query_row("SELECT COUNT(*) FROM seen_posts", [], |row| row.get(0)).unwrap()
}

fn words(items: &[&str]) -> Vec<String> {
    items.iter().map(|s| s.to_string()).collect()
}

fn gpu_offer() -> Item {
    Item {
        identifier: Some("p1".to_string()),
        title: Some("Free GPU offer!!".to_string()),
        locator: Some("http://x/p1".to_string()),
    }
}

#[test]
fn default_path_is_used_when_none_is_configured() {
    assert_eq!(db_path_or_default(None), DEFAULT_DB_PATH);
    assert_eq!(db_path_or_default(Some("/data/x.db")), "/data/x.db");
}

#[test]
fn second_insert_is_a_duplicate() {
    let db = fresh_db("dup");
    assert_eq!(get_by_permalink(&db, "/r/a/1"), Ok(false));
    assert_eq!(insert_by_permalink(&db, "/r/a/1"), Ok(()));
    assert_eq!(get_by_permalink(&db, "/r/a/1"), Ok(true));
    assert_eq!(insert_by_permalink(&db, "/r/a/1"), Err(StoreError::DuplicateKey));
    assert_eq!(get_by_permalink(&db, "/r/a/1"), Ok(true));
    assert_eq!(get_by_permalink(&db, "/r/a/2"), Ok(false));
    assert_eq!(row_count(&db), 1);
}

#[test]
fn create_db_is_idempotent() {
    let db = fresh_db("idem");
    insert_by_permalink(&db, "k").unwrap();
    assert_eq!(create_db(Some(&db)), Ok(db.clone()));
    assert_eq!(get_by_permalink(&db, "k"), Ok(true));
}

#[test]
fn unusable_store_is_an_error() {
    let r = create_db(Some("/nonexistent_dir_for_sub_watcher/x.db"));
    assert!(matches!(r, Err(StoreError::Backend(_))));
}

#[test]
fn matching_new_item_is_forwarded_once() {
    let db = fresh_db("forward_once");
    let policy = KeywordSet { desired: words(&["gpu"]), undesired: None };
    let r = process_slot(&db, Ok(gpu_offer()), &policy);
    assert_eq!(
        r,
        Ok(ItemOutcome::Forwarded(
            "gpu".to_string(),
            ForwardAction {
                title: "Free GPU offer!!".to_string(),
                locator: Some("http://x/p1".to_string()),
            }
        ))
    );
    assert_eq!(get_by_permalink(&db, "p1"), Ok(true));
    assert_eq!(row_count(&db), 1);
}

#[test]
fn replayed_item_after_restart_is_not_forwarded() {
    let db = fresh_db("replay");
    let policy = KeywordSet { desired: words(&["gpu"]), undesired: None };
    let first = process_item(&db, &gpu_offer(), &policy).unwrap();
    assert!(matches!(first, ItemOutcome::Forwarded(_, _)));
    let reopened = create_db(Some(&db)).unwrap();
    let again = process_item(&reopened, &gpu_offer(), &policy);
    assert_eq!(again, Ok(ItemOutcome::AlreadySeen));
    assert_eq!(row_count(&db), 1);
}

#[test]
fn undesired_title_is_filtered() {
    let db = fresh_db("undesired");
    let policy = KeywordSet { desired: words(&["gpu"]), undesired: Some(words(&["spam"])) };
    let item = Item {
        identifier: Some("post2".to_string()),
        title: Some("spam bot post".to_string()),
        locator: Some("http://x/post2".to_string()),
    };
    let r = process_item(&db, &item, &policy);
    assert_eq!(
        r,
        Ok(ItemOutcome::Filtered(MatchOutcome::RejectedByUndesired("spam".to_string())))
    );
    assert_eq!(get_by_permalink(&db, "post2"), Ok(true));
}

#[test]
fn item_without_identifier_touches_nothing() {
    let db = fresh_db("no_identifier");
    let policy = KeywordSet { desired: words(&["gpu"]), undesired: None };
    let item = Item { identifier: None, title: Some("GPU".to_string()), locator: None };
    assert_eq!(process_item(&db, &item, &policy), Ok(ItemOutcome::NoIdentifier));
    assert_eq!(row_count(&db), 0);
    let next = process_slot(&db, Ok(gpu_offer()), &policy);
    assert!(matches!(next, Ok(ItemOutcome::Forwarded(_, _))));
}

#[test]
fn stream_error_is_passed_over() {
    let db = fresh_db("stream_err");
    let policy = KeywordSet { desired: words(&["gpu"]), undesired: None };
    let r = process_slot(&db, Err(StreamError { message: "timeout".to_string() }), &policy);
    assert_eq!(r, Ok(ItemOutcome::StreamFault));
    assert_eq!(row_count(&db), 0);
    let next = process_slot(&db, Ok(gpu_offer()), &policy);
    assert!(matches!(next, Ok(ItemOutcome::Forwarded(_, _))));
}

#[test]
fn untitled_item_is_recorded_but_not_sent() {
    let db = fresh_db("untitled");
    let policy = KeywordSet { desired: words(&["gpu"]), undesired: None };
    let item = Item { identifier: Some("post3".to_string()), title: None, locator: None };
    assert_eq!(process_item(&db, &item, &policy), Ok(ItemOutcome::Untitled));
    assert_eq!(get_by_permalink(&db, "post3"), Ok(true));
}

#[test]
fn unmatched_title_is_filtered_without_keyword() {
    let policy = KeywordSet { desired: words(&["gpu"]), undesired: Some(words(&["spam"])) };
    let item = Item {
        identifier: Some("post4".to_string()),
        title: Some("Cheap CPU".to_string()),
        locator: None,
    };
    assert_eq!(decide_unseen(&item, &policy), ItemOutcome::Filtered(MatchOutcome::NoMatch));
}

#[test]
fn lookup_answers_are_settled() {
    assert_eq!(after_lookup(Ok(true)), Some(Ok(ItemOutcome::AlreadySeen)));
    assert_eq!(after_lookup(Ok(false)), None);
    assert_eq!(
        after_lookup(Err(StoreError::Backend("locked".to_string()))),
        Some(Err(StoreError::Backend("locked".to_string())))
    );
}

#[test]
fn duplicate_on_insert_counts_as_seen() {
    let policy = KeywordSet { desired: words(&["gpu"]), undesired: None };
    assert_eq!(
        after_insert(Err(StoreError::DuplicateKey), &gpu_offer(), &policy),
        Ok(ItemOutcome::AlreadySeen)
    );
    assert_eq!(
        after_insert(Err(StoreError::Backend("disk full".to_string())), &gpu_offer(), &policy),
        Err(StoreError::Backend("disk full".to_string()))
    );
    assert!(matches!(
        after_insert(Ok(()), &gpu_offer(), &policy),
        Ok(ItemOutcome::Forwarded(k, _)) if k == "gpu"
    ));
}

#[test]
fn refused_constraint_is_a_duplicate() {
    assert_eq!(classify_failure(true, "UNIQUE constraint failed".to_string()), StoreError::DuplicateKey);
    assert_eq!(
        classify_failure(false, "no such table".to_string()),
        StoreError::Backend("no such table".to_string())
    );
}

#[test]
fn write_outcomes_are_settled() {
    assert_eq!(
        settle_write(Some("unable to open database file".to_string()), None),
        Err(StoreError::Backend("unable to open database file".to_string()))
    );
    assert_eq!(
        settle_write(None, Some((true, "UNIQUE constraint failed".to_string()))),
        Err(StoreError::DuplicateKey)
    );
    assert_eq!(
        settle_write(None, Some((false, "disk I/O error".to_string()))),
        Err(StoreError::Backend("disk I/O error".to_string()))
    );
    assert_eq!(settle_write(None, None), Ok(()));
}

#[test]
fn setup_outcomes_are_settled() {
    let path = "/data/seen.db".to_string();
    assert_eq!(
        settle_setup(path.clone(), Some("cannot open".to_string()), None),
        Err(StoreError::Backend("cannot open".to_string()))
    );
    assert_eq!(
        settle_setup(path.clone(), None, Some("readonly database".to_string())),
        Err(StoreError::Backend("readonly database".to_string()))
    );
    assert_eq!(settle_setup(path.clone(), None, None), Ok(path));
}

#[test]
fn unwritable_store_fails_insert() {
    let r = insert_by_permalink("/nonexistent_dir_for_sub_watcher/x.db", "k");
    assert!(matches!(r, Err(StoreError::Backend(_))));
}
