use oreally::{
    assert_readiness, enqueue, identity_from_rowid, initialize, records_from_rows, BookRecord,
    QueueError, Storage,
};

static URL: &str = "https://learning.oreilly.com/library/view/learn-postgresql/9781838985288";

fn temp_storage() -> Storage {
    Storage::new(Some(format!("/tmp/oreally_test_{}.db", uuid::Uuid::new_v4())))
}

fn around(f: impl Fn(&Storage)) {
    let storage = temp_storage();
    storage.flush().unwrap();
    f(&storage);
    storage.drop().unwrap();
}

#[test]
fn book_record_new() {
    let url = "https://www.oreilly.com/library/view/".to_string();
    let r = BookRecord::new(&url);
    assert_eq!(r.id, None);
    assert_eq!(r.url, url);
}

#[test]
fn book_record_insert() {
    around(|storage| {
        let url = "https://www.oreilly.com/library/view/".to_string();
        let mut r = BookRecord::new(&url);
        r.insert(storage).unwrap();
        assert_eq!(r.id, Some(1));
        assert_eq!(r.url, url);
    })
}

#[test]
fn book_record_all() {
    around(|storage| {
        let url = "https://www.oreilly.com/library/view/".to_string();
        let mut r = BookRecord::new(&url);
        r.insert(storage).unwrap();
        let books = BookRecord::all(storage).unwrap();
        assert_eq!(books.len(), 1);
        assert_eq!(books[0].id, r.id);
        assert_eq!(books[0].url, r.url);
    })
}

#[test]
fn book_record_delete() {
    around(|storage| {
        let url = "https://www.oreilly.com/library/view/".to_string();
        let mut r = BookRecord::new(&url);
        r.insert(storage).unwrap();
        let books = BookRecord::all(storage).unwrap();
        assert_eq!(books.len(), 1);
        r.delete(storage).unwrap();
        let books = BookRecord::all(storage).unwrap();
        assert!(books.is_empty());
    })
}

#[test]
fn insert_is_idempotent_on_identified_records() {
    around(|storage| {
        let mut r = BookRecord::new(URL);
        r.insert(storage).unwrap();
        let first_id = r.id;
        assert!(first_id.is_some());
        r.insert(storage).unwrap();
        assert_eq!(r.id, first_id);
        let books = BookRecord::all(storage).unwrap();
        assert_eq!(books.len(), 1);
    })
}

#[test]
fn delete_of_unknown_identity_is_a_no_op() {
    around(|storage| {
        let ghostless = BookRecord { id: Some(4242), url: URL.to_string() };
        ghostless.delete(storage).unwrap();
        ghostless.delete(storage).unwrap();
        let unpersisted = BookRecord::new(URL);
        unpersisted.delete(storage).unwrap();
        assert!(BookRecord::all(storage).unwrap().is_empty());
    })
}

#[test]
fn delete_twice_after_insert_is_a_no_op() {
    around(|storage| {
        let mut r = BookRecord::new(URL);
        r.insert(storage).unwrap();
        r.delete(storage).unwrap();
        r.delete(storage).unwrap();
        assert!(BookRecord::all(storage).unwrap().is_empty());
    })
}

#[test]
fn all_returns_records_in_identity_order() {
    around(|storage| {
        let mut a = BookRecord::new("https://learning.oreilly.com/library/view/a/1");
        let mut b = BookRecord::new("https://learning.oreilly.com/library/view/b/2");
        let mut c = BookRecord::new("https://learning.oreilly.com/library/view/c/3");
        a.insert(storage).unwrap();
        b.insert(storage).unwrap();
        c.insert(storage).unwrap();
        let books = BookRecord::all(storage).unwrap();
        assert_eq!(books.len(), 3);
        assert!(books[0].id < books[1].id && books[1].id < books[2].id);
        assert_eq!(books[0].url, a.url);
        assert_eq!(books[2].url, c.url);
    })
}

#[test]
fn storage_db_path() {
    let storage = Storage::new(Some("tmp/test.db".to_string()));
    assert_eq!(storage.db_path(), Some("tmp/test.db".to_string()));
    let storage = Storage::new(None);
    let home = dirs::home_dir().unwrap();
    let expected = format!("{}/.oreally/database.db", home.to_str().unwrap());
    assert_eq!(storage.db_path(), Some(expected));
}

#[test]
fn storage_is_ready() {
    around(|storage| {
        assert!(storage.is_ready());
    });
    let storage = temp_storage();
    assert_eq!(storage.is_ready(), false);
}

#[test]
fn storage_setup() {
    around(|storage| assert!(storage.setup().is_err()));
    let storage = temp_storage();
    storage.drop().unwrap();
    assert!(storage.setup().is_ok());
    storage.drop().unwrap();
}

#[test]
fn readiness_gate_round_trip() {
    let storage = temp_storage();
    assert!(!storage.is_ready());
    initialize(&storage).unwrap();
    assert!(storage.is_ready());
    assert_eq!(initialize(&storage), Err(QueueError::AlreadyInitialized));
    assert_eq!(storage.setup(), Err(QueueError::AlreadyInitialized));
    storage.drop().unwrap();
    assert!(!storage.is_ready());
    storage.setup().unwrap();
    assert!(storage.is_ready());
    storage.drop().unwrap();
}

#[test]
fn commands_run_queue() {
    around(|storage| {
        let url = URL.to_string();
        enqueue(storage, &url).unwrap();
        let list = BookRecord::all(storage).unwrap();
        assert_eq!(list.len(), 1);
        assert_eq!(list[0].url, url);
    })
}

#[test]
fn commands_run_init() {
    let storage = temp_storage();
    initialize(&storage).unwrap();
    assert_readiness(&storage).unwrap();
    storage.drop().unwrap();
}

#[test]
fn enqueue_lists_exactly_one_item() {
    around(|storage| {
        let url = "https://learning.example.com/library/view/learn-postgresql/9781838985288";
        let record = enqueue(storage, url).unwrap();
        assert!(record.id.is_some());
        let list = BookRecord::all(storage).unwrap();
        assert_eq!(list.len(), 1);
        assert_eq!(list[0].url, url);
        assert!(list[0].id.is_some());
    })
}

#[test]
fn setup_creates_parent_directories() {
    let storage = Storage::new(Some(format!(
        "/tmp/oreally_nested_{}/deeper/queue.db",
        uuid::Uuid::new_v4()
    )));
    assert!(!storage.is_ready());
    storage.setup().unwrap();
    assert!(storage.is_ready());
    storage.drop().unwrap();
    assert!(!storage.is_ready());
}

#[test]
fn identity_from_rowid_accepts_exactly_the_identity_range() {
    assert_eq!(identity_from_rowid(1), Ok(1));
    assert_eq!(identity_from_rowid(42), Ok(42));
    assert_eq!(identity_from_rowid(i32::MAX as i64), Ok(i32::MAX));
    assert_eq!(identity_from_rowid(0), Err(QueueError::Store));
    assert_eq!(identity_from_rowid(-7), Err(QueueError::Store));
    assert_eq!(identity_from_rowid(i32::MAX as i64 + 1), Err(QueueError::Store));
}

#[test]
fn records_from_rows_converts_well_formed_rows() {
    let rows = vec![
        (1i64, "a".to_string()),
        (2i64, "b".to_string()),
        (9i64, "c".to_string()),
    ];
    let records = records_from_rows(rows).unwrap();
    assert_eq!(records.len(), 3);
    assert_eq!(records[0].id, Some(1));
    assert_eq!(records[0].url, "a");
    assert_eq!(records[2].id, Some(9));
    assert_eq!(records[2].url, "c");
}

#[test]
fn records_from_rows_rejects_malformed_rows() {
    let duplicate = vec![(1i64, "a".to_string()), (1i64, "b".to_string())];
    assert!(matches!(records_from_rows(duplicate), Err(QueueError::Store)));
    let unordered = vec![(2i64, "a".to_string()), (1i64, "b".to_string())];
    assert!(matches!(records_from_rows(unordered), Err(QueueError::Store)));
    let nonpositive = vec![(0i64, "a".to_string())];
    assert!(matches!(records_from_rows(nonpositive), Err(QueueError::Store)));
    let oversized = vec![(i32::MAX as i64 + 1, "a".to_string())];
    assert!(matches!(records_from_rows(oversized), Err(QueueError::Store)));
}

#[test]
fn enqueue_on_uninitialized_store_fails() {
    let storage = temp_storage();
    let r = enqueue(&storage, URL);
    assert!(matches!(r, Err(QueueError::NotInitialized)));
}

#[test]
fn enqueue_with_invalid_url_fails() {
    around(|storage| {
        let r = enqueue(storage, "nonsense");
        assert!(matches!(r, Err(QueueError::InvalidUrl)));
        assert!(BookRecord::all(storage).unwrap().is_empty());
    })
}
