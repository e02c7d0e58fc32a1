use smartpaste::clipboard::{
    get_last_inserted, set_last_inserted, take_last_inserted, text_item, ClipboardItem,
    FolderItem, LastInserted,
};
use smartpaste::storage::{
    build_delete_all_query, build_favorite_filter_query, build_insert_query, build_search_query,
    build_type_filter_query, expiry_cutoff, favorite_toggle, favorite_toggle_message,
    history_excess, like_pattern, notify_cleanup, plan_removal, record_params, require_found,
    reset_cleanup_sender, resolve_stored_file_path, rewrite_stored_path, rewrite_stored_paths,
    set_cleanup_sender, sync_statements, trigger_cleanup, cleanup_reply, CleanupSignal, ExtendedData,
    FavoriteToggle, FolderItemRelation, PathFacts, Removal, SqlValue, SyncData,
    FILTER_BY_FAVORITE, FILTER_BY_TYPE, FILTER_FILES_AND_FOLDERS, INSERT_EXTENDED_IF_NEW,
    INSERT_FOLDER_IF_NEW, INSERT_LINK_IF_NEW, INSERT_OR_REPLACE_RECORD, INSERT_RECORD_IF_NEW,
    SEARCH_BASE,
};
use std::sync::mpsc;
use std::time::Duration;

fn t(s: &str) -> SqlValue {
    SqlValue::Text(s.to_string())
}

#[test]
fn test_cleanup_notification_flow() {
    let mut signal = CleanupSignal::new();
    let (tx, rx) = mpsc::channel();

    set_cleanup_sender(&mut signal, tx);

    let result = trigger_cleanup(&signal);
    assert!(result.is_ok());
    assert_eq!(result.unwrap(), "cleanup triggered");

    let msg = rx.recv_timeout(Duration::from_secs(1));
    assert!(msg.is_ok());

    notify_cleanup(&signal);
    let msg2 = rx.recv_timeout(Duration::from_secs(1));
    assert!(msg2.is_ok());
}

#[test]
fn test_trigger_cleanup_without_sender() {
    let mut signal = CleanupSignal::new();
    let (tx, _rx) = mpsc::channel();
    set_cleanup_sender(&mut signal, tx);

    reset_cleanup_sender(&mut signal);

    let result = trigger_cleanup(&signal);
    assert!(result.is_err());
    assert_eq!(result.err().unwrap(), "cleanup worker not started");
}

#[test]
fn trigger_cleanup_reports_a_closed_channel() {
    let mut signal = CleanupSignal::new();
    let (tx, rx) = mpsc::channel::<()>();
    set_cleanup_sender(&mut signal, tx);
    drop(rx);
    assert_eq!(trigger_cleanup(&signal), Err("sending on a closed channel".to_string()));
    notify_cleanup(&signal);
}

#[test]
fn search_query_without_filters() {
    let q = build_search_query("abc", None, None, None);
    assert_eq!(
        q.sql,
        format!(
            "{} WHERE (data.content LIKE ?1 OR data.notes LIKE ?1 OR extended_data.ocr_text LIKE ?1) ORDER BY data.timestamp DESC",
            SEARCH_BASE
        )
    );
    assert_eq!(q.params, vec![t("%abc%")]);
    assert_eq!(like_pattern("x"), "%x%");
}

#[test]
fn search_query_by_kind_folder_private_and_window() {
    let q = build_search_query("a", Some("image"), Some(10), Some(20));
    assert!(q.sql.ends_with(" AND data.item_type = ?2 AND data.timestamp BETWEEN ?3 AND ?4 ORDER BY data.timestamp DESC"));
    assert!(!q.sql.contains("JOIN folder_items"));
    assert_eq!(q.params, vec![t("%a%"), t("image"), SqlValue::Integer(10), SqlValue::Integer(20)]);

    let q = build_search_query("a", Some("folder-123"), None, Some(20));
    assert!(q.sql.contains(" JOIN folder_items ON data.id = folder_items.item_id WHERE"));
    assert!(q.sql.ends_with(" AND folder_items.folder_id = ?2 ORDER BY data.timestamp DESC"));
    assert_eq!(q.params, vec![t("%a%"), t("folder-123")]);

    let q = build_search_query("", Some("private"), Some(1), Some(2));
    assert!(q.sql.contains(" JOIN private_data ON data.id = private_data.item_id WHERE"));
    assert!(q.sql.ends_with(" AND data.timestamp BETWEEN ?2 AND ?3 ORDER BY data.timestamp DESC"));
    assert_eq!(q.params, vec![t("%%"), SqlValue::Integer(1), SqlValue::Integer(2)]);
}

#[test]
fn delete_all_queries() {
    let q = build_delete_all_query(None, false);
    assert_eq!(q.sql, "DELETE FROM data WHERE id IN (SELECT data.id FROM data WHERE 1=1)");
    assert!(q.params.is_empty());

    let q = build_delete_all_query(Some("text"), true);
    assert_eq!(
        q.sql,
        "DELETE FROM data WHERE id IN (SELECT data.id FROM data WHERE 1=1 AND data.item_type = ?1 AND data.is_favorite = 0)"
    );
    assert_eq!(q.params, vec![t("text")]);

    let q = build_delete_all_query(Some("f1"), false);
    assert_eq!(
        q.sql,
        "DELETE FROM data WHERE id IN (SELECT data.id FROM data JOIN folder_items ON data.id = folder_items.item_id WHERE 1=1 AND folder_items.folder_id = ?1)"
    );
    assert_eq!(q.params, vec![t("f1")]);

    let q = build_delete_all_query(Some("private"), true);
    assert_eq!(
        q.sql,
        "DELETE FROM data WHERE id IN (SELECT data.id FROM data JOIN private_data ON data.id = private_data.item_id WHERE 1=1 AND data.is_favorite = 0)"
    );
    assert!(q.params.is_empty());
}

#[test]
fn filter_queries() {
    let q = build_type_filter_query("folder");
    assert_eq!(q.sql, FILTER_FILES_AND_FOLDERS);
    assert!(q.params.is_empty());
    let q = build_type_filter_query("file");
    assert_eq!(q.sql, FILTER_FILES_AND_FOLDERS);
    let q = build_type_filter_query("text");
    assert_eq!(q.sql, FILTER_BY_TYPE);
    assert_eq!(q.params, vec![t("text")]);

    let q = build_favorite_filter_query(true);
    assert_eq!(q.sql, FILTER_BY_FAVORITE);
    assert_eq!(q.params, vec![SqlValue::Integer(1)]);
    assert_eq!(build_favorite_filter_query(false).params, vec![SqlValue::Integer(0)]);
}

#[test]
fn favorite_toggling() {
    assert_eq!(favorite_toggle(Some(0)), Ok(FavoriteToggle::Favorite));
    assert_eq!(favorite_toggle(Some(1)), Ok(FavoriteToggle::Unfavorite));
    assert_eq!(favorite_toggle(Some(7)), Ok(FavoriteToggle::Unfavorite));
    assert_eq!(favorite_toggle(None), Err("Item not found".to_string()));
    assert_eq!(favorite_toggle_message(FavoriteToggle::Favorite), "favorited");
    assert_eq!(favorite_toggle_message(FavoriteToggle::Unfavorite), "unfavorited");
    assert_eq!(require_found("null".to_string()), Err("Item not found after update".to_string()));
    assert_eq!(require_found("{}".to_string()), Ok("{}".to_string()));
}

#[test]
fn stored_file_paths_resolve_under_the_files_folder() {
    assert_eq!(resolve_stored_file_path(".\\files\\a.png", "/s"), "/s/files/a.png");
    assert_eq!(resolve_stored_file_path("files\\b.png", "/s"), "/s/files/b.png");
    assert_eq!(resolve_stored_file_path("files/c.png", "/s"), "/s/files/c.png");
    assert_eq!(resolve_stored_file_path("./files/test2.txt", "/s"), "/s/files/test2.txt");
    assert_eq!(resolve_stored_file_path("files/test3.txt", "/s"), "/s/files/test3.txt");
    assert_eq!(resolve_stored_file_path("./files/sub/e.txt", "/s"), "/s/files/sub/e.txt");
    assert_eq!(resolve_stored_file_path(".\\files\\a\\files\\b.txt", "/s"), "/s/files/b.txt");
    assert_eq!(resolve_stored_file_path("files\\x\\files\\y.txt", "/s"), "/s/files/y.txt");
    assert_eq!(resolve_stored_file_path("/abs/d.png", "/s"), "/abs/d.png");
}

#[test]
fn removal_plans() {
    let yes_dir = PathFacts { exists: true, is_dir: true, is_file: false };
    let yes_file = PathFacts { exists: true, is_dir: false, is_file: true };
    let none = PathFacts { exists: false, is_dir: false, is_file: false };
    assert_eq!(plan_removal("folder", yes_file, none), Removal::ResolvedDir);
    assert_eq!(plan_removal("text", yes_dir, none), Removal::ResolvedDir);
    assert_eq!(plan_removal("image", yes_file, none), Removal::ResolvedFile);
    assert_eq!(
        plan_removal("text", PathFacts { exists: true, is_dir: false, is_file: false }, none),
        Removal::Keep
    );
    assert_eq!(plan_removal("text", none, yes_dir), Removal::StoredDir);
    assert_eq!(plan_removal("text", none, yes_file), Removal::StoredFile);
    assert_eq!(plan_removal("file", none, none), Removal::Keep);
}

#[test]
fn stored_paths_follow_the_storage_directory() {
    assert_eq!(rewrite_stored_path("/old/files/a.png", "/old", "/new"), Some("/new/files/a.png".to_string()));
    assert_eq!(rewrite_stored_path("C:\\old\\files\\a.png", "C:/old", "D:/new"), Some("C:\\old\\files\\a.png".to_string()));
    assert_eq!(rewrite_stored_path("files/a.png", "/old", "/new"), None);
    assert_eq!(rewrite_stored_path("./files/a.png", "/old", "/new"), None);
    assert_eq!(rewrite_stored_path("/elsewhere/files/x/y.txt", "/old", "/new"), Some("/new/files/x/y.txt".to_string()));
    assert_eq!(rewrite_stored_path("/elsewhere/z.txt", "/old", "/new"), None);

    let rows = vec![
        ("1".to_string(), "/old/files/a.png".to_string()),
        ("2".to_string(), "files/b.png".to_string()),
        ("3".to_string(), "/x/files/c".to_string()),
    ];
    let updates = rewrite_stored_paths(&rows, "/old", "/new");
    assert_eq!(
        updates,
        vec![
            ("1".to_string(), "/new/files/a.png".to_string()),
            ("3".to_string(), "/new/files/c".to_string()),
        ]
    );
}

#[test]
fn a_new_channel_replaces_the_old_one() {
    let mut signal = CleanupSignal::new();
    let (tx1, rx1) = mpsc::channel::<()>();
    let (tx2, rx2) = mpsc::channel::<()>();
    set_cleanup_sender(&mut signal, tx1);
    set_cleanup_sender(&mut signal, tx2);
    assert_eq!(trigger_cleanup(&signal), Ok("cleanup triggered".to_string()));
    notify_cleanup(&signal);
    assert!(rx2.recv_timeout(Duration::from_millis(100)).is_ok());
    assert!(rx2.recv_timeout(Duration::from_millis(100)).is_ok());
    assert!(rx1.try_recv().is_err());
}

#[test]
fn cleanup_replies() {
    assert_eq!(cleanup_reply(Ok(())), Ok("cleanup triggered".to_string()));
    assert_eq!(cleanup_reply(Err("closed".to_string())), Err("closed".to_string()));
}

#[test]
fn cleanup_arithmetic() {
    assert_eq!(expiry_cutoff(1_000_000, 1), 1_000_000 - 86400);
    assert_eq!(expiry_cutoff(0, 0), 0);
    assert_eq!(history_excess(10, 0), 0);
    assert_eq!(history_excess(10, 10), 0);
    assert_eq!(history_excess(15, 10), 5);
}

#[test]
fn last_inserted_slot() {
    let mut slot = LastInserted::new();
    assert_eq!(get_last_inserted(&slot), None);
    let item = text_item("id-1".to_string(), "hello", 5);
    set_last_inserted(&mut slot, item.clone());
    assert_eq!(get_last_inserted(&slot), Some(item.clone()));
    assert_eq!(take_last_inserted(&mut slot), Some(item));
    assert_eq!(take_last_inserted(&mut slot), None);
}

#[test]
fn record_rows_and_inserts() {
    let mut item: ClipboardItem = text_item("r1".to_string(), "héllo", 99);
    assert_eq!(item.size, Some(6));
    item.is_favorite = true;
    item.notes = "n".to_string();
    assert_eq!(
        record_params(&item),
        vec![t("r1"), t("text"), t("héllo"), SqlValue::Integer(6), SqlValue::Integer(1), t("n"), SqlValue::Integer(99)]
    );
    item.size = None;
    let q = build_insert_query(&item);
    assert_eq!(q.sql, INSERT_OR_REPLACE_RECORD);
    assert_eq!(q.params[3], SqlValue::Integer(0));
}

#[test]
fn sync_statements_in_order() {
    let d = SyncData {
        data: vec![text_item("a".to_string(), "x", 1)],
        folders: vec![FolderItem { id: "f".to_string(), name: "Work".to_string(), num_items: 3 }],
        folder_items: vec![FolderItemRelation { folder_id: "f".to_string(), item_id: "a".to_string() }],
        extended_data: vec![ExtendedData { item_id: "a".to_string(), ocr_text: Some("t".to_string()), icon_data: None }],
    };
    let s = sync_statements(&d);
    assert_eq!(s.len(), 4);
    assert_eq!(s[0].sql, INSERT_RECORD_IF_NEW);
    assert_eq!(s[1].sql, INSERT_FOLDER_IF_NEW);
    assert_eq!(s[1].params, vec![t("f"), t("Work"), SqlValue::Integer(3)]);
    assert_eq!(s[2].sql, INSERT_LINK_IF_NEW);
    assert_eq!(s[2].params, vec![t("f"), t("a")]);
    assert_eq!(s[3].sql, INSERT_EXTENDED_IF_NEW);
    assert_eq!(s[3].params, vec![t("a"), t("t"), SqlValue::Null]);
}

#[test]
fn cutoff_from_the_clock() {
    let (now, cutoff) = smartpaste::storage::expiry_cutoff_now(2).unwrap();
    assert_eq!(cutoff, now - 2 * 86400);
}

#[test]
fn checked_cutoffs() {
    assert_eq!(smartpaste::storage::expiry_cutoff_at(1_000_000, 1), Some((1_000_000, 1_000_000 - 86400)));
    assert_eq!(smartpaste::storage::expiry_cutoff_at(i64::MIN, 0), Some((i64::MIN, i64::MIN)));
    assert_eq!(smartpaste::storage::expiry_cutoff_at(i64::MIN + 86399, 1), None);
    assert_eq!(smartpaste::storage::expiry_cutoff_at(i64::MIN + 86400, 1), Some((i64::MIN + 86400, i64::MIN)));
    assert!(smartpaste::storage::expiry_cutoff_now(0).is_some());
}

/// The records the move looks at: files, images and folders, as the query selects them.
fn path_rows(items: &[(&str, &str, &str)]) -> Vec<(String, String)> {
    items
        .iter()
        .filter(|(_, kind, _)| *kind == "file" || *kind == "image" || *kind == "folder")
        .map(|(id, _, content)| (id.to_string(), content.to_string()))
        .collect()
}

fn content_after(items: &[(&str, &str, &str)], updates: &[(String, String)], id: &str) -> String {
    match updates.iter().find(|(u, _)| u == id) {
        Some((_, c)) => c.clone(),
        None => items.iter().find(|(i, _, _)| *i == id).unwrap().2.to_string(),
    }
}

#[test]
fn test_update_data_path() {
    let items = [
        ("udp-1", "file", "/old/root/doc.pdf"),
        ("udp-2", "folder", "/old/root/subfolder"),
        ("udp-3", "image", "/old/root/img.png"),
        ("udp-4", "text", "/old/root/note.txt"),
        ("udp-5", "file", "/other/root/doc.pdf"),
        ("udp-6", "file", "/old/root_suffix/file"),
    ];
    let old_path = "/old/root";
    let new_path = "/new/root";
    let updates = rewrite_stored_paths(&path_rows(&items), old_path, new_path);
    let count = updates.len();

    assert_eq!(count, 4, "expected 4 items to be updated");
    assert_eq!(content_after(&items, &updates, "udp-1"), "/new/root/doc.pdf");
    assert_eq!(content_after(&items, &updates, "udp-2"), "/new/root/subfolder");
    assert_eq!(content_after(&items, &updates, "udp-3"), "/new/root/img.png");
    assert_eq!(content_after(&items, &updates, "udp-6"), "/new/root_suffix/file");
    assert_eq!(content_after(&items, &updates, "udp-4"), "/old/root/note.txt");
}

#[test]
fn test_update_data_path_coverage() {
    let items = [
        ("up-1", "file", "/old/path/file1.txt"),
        ("up-2", "file", "files/file2.txt"),
        ("up-3", "file", "/some/other/path/files/file3.txt"),
    ];
    let updates = rewrite_stored_paths(&path_rows(&items), "/old/path", "/new/path");
    let _count = updates.len();

    assert!(content_after(&items, &updates, "up-1").contains("/new/path/file1.txt"));
    assert_eq!(content_after(&items, &updates, "up-2"), "files/file2.txt");
    assert!(content_after(&items, &updates, "up-3").contains("/new/path/files/file3.txt"));
}

fn memory_db() -> rusqlite::Connection {
    let conn = rusqlite::Connection::open_in_memory().unwrap();
    conn.execute_batch(
        "CREATE TABLE data (id TEXT PRIMARY KEY NOT NULL, item_type TEXT NOT NULL, content TEXT NOT NULL,
            size INTEGER NOT NULL, is_favorite INTEGER NOT NULL, notes TEXT, timestamp INTEGER NOT NULL);
         CREATE TABLE folders (id TEXT PRIMARY KEY NOT NULL, name TEXT NOT NULL, num_items INTEGER NOT NULL DEFAULT 0);
         CREATE TABLE folder_items (folder_id TEXT NOT NULL, item_id TEXT NOT NULL, PRIMARY KEY (folder_id, item_id));
         CREATE TABLE extended_data (item_id TEXT PRIMARY KEY NOT NULL, ocr_text TEXT, icon_data TEXT);
         CREATE TABLE private_data (item_id TEXT PRIMARY KEY NOT NULL);",
    )
    .unwrap();
    conn
}

fn run(conn: &rusqlite::Connection, q: &smartpaste::storage::SqlQuery) -> usize {
    let params: Vec<rusqlite::types::Value> = q
        .params
        .iter()
        .map(|p| match p {
            SqlValue::Text(s) => rusqlite::types::Value::Text(s.clone()),
            SqlValue::Integer(i) => rusqlite::types::Value::Integer(*i),
            SqlValue::Null => rusqlite::types::Value::Null,
        })
        .collect();
    conn.execute(&q.sql, rusqlite::params_from_iter(params)).unwrap()
}

fn ids(conn: &rusqlite::Connection) -> Vec<String> {
    let mut stmt = conn.prepare("SELECT id FROM data ORDER BY id").unwrap();
    let v = stmt.query_map([], |r| r.get::<_, String>(0)).unwrap().map(|r| r.unwrap()).collect();
    v
}

fn make_item(id: &str, item_type: &str, content: &str) -> ClipboardItem {
    let mut i = text_item(id.to_string(), content, 1);
    i.item_type = item_type.to_string();
    i
}

#[test]
fn test_delete_all_data_variants() {
    let conn = memory_db();
    let t1 = make_item("t1", "text", "text1");
    let mut t2_fav = make_item("t2", "text", "text2");
    t2_fav.is_favorite = true;
    let i1 = make_item("i1", "image", "img1");
    for it in [&t1, &t2_fav, &i1] {
        run(&conn, &build_insert_query(it));
    }

    let count = run(&conn, &build_delete_all_query(Some("image"), false));
    assert_eq!(count, 1);
    let all = ids(&conn);
    assert!(!all.contains(&"i1".to_string()));
    assert!(all.contains(&"t1".to_string()));

    let count2 = run(&conn, &build_delete_all_query(Some("text"), true));
    assert_eq!(count2, 1);
    let all2 = ids(&conn);
    assert!(!all2.contains(&"t1".to_string()));
    assert!(all2.contains(&"t2".to_string()));

    let fid = "folder-F1";
    conn.execute("INSERT INTO folders (id, name, num_items) VALUES (?1, 'F1', 0)", [fid]).unwrap();
    let t3 = make_item("t3", "text", "text3");
    run(&conn, &build_insert_query(&t3));
    conn.execute("INSERT INTO folder_items (folder_id, item_id) VALUES (?1, 't3')", [fid]).unwrap();

    let count3 = run(&conn, &build_delete_all_query(Some(fid), false));
    assert_eq!(count3, 1);
    let all3 = ids(&conn);
    assert!(!all3.contains(&"t3".to_string()));
}

#[test]
fn search_queries_run_on_a_database() {
    let conn = memory_db();
    let mut a = make_item("a", "text", "hello world");
    a.timestamp = 10;
    let mut b = make_item("b", "image", "files/hello.png");
    b.timestamp = 20;
    let mut c = make_item("c", "text", "nothing");
    c.notes = "say hello".to_string();
    c.timestamp = 30;
    for it in [&a, &b, &c] {
        run(&conn, &build_insert_query(it));
    }
    conn.execute("INSERT INTO private_data (item_id) VALUES ('c')", []).unwrap();
    let found = |q: &smartpaste::storage::SqlQuery| -> Vec<String> {
        let params: Vec<rusqlite::types::Value> = q
            .params
            .iter()
            .map(|p| match p {
                SqlValue::Text(s) => rusqlite::types::Value::Text(s.clone()),
                SqlValue::Integer(i) => rusqlite::types::Value::Integer(*i),
                SqlValue::Null => rusqlite::types::Value::Null,
            })
            .collect();
        let mut stmt = conn.prepare(&q.sql).unwrap();
        let v = stmt
            .query_map(rusqlite::params_from_iter(params), |r| r.get::<_, String>(0))
            .unwrap()
            .map(|r| r.unwrap())
            .collect();
        v
    };
    assert_eq!(found(&build_search_query("hello", None, None, None)), vec!["c", "b", "a"]);
    assert_eq!(found(&build_search_query("hello", Some("text"), None, None)), vec!["c", "a"]);
    assert_eq!(found(&build_search_query("hello", Some("private"), None, None)), vec!["c"]);
    assert_eq!(found(&build_search_query("hello", None, Some(15), Some(25))), vec!["b"]);
    assert_eq!(found(&build_search_query("hello", Some("image"), Some(0), Some(15))), Vec::<String>::new());
    assert_eq!(found(&build_type_filter_query("text")), vec!["c", "a"]);
}
