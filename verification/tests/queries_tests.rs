use smartpaste::clipboard::text_item;
use smartpaste::privacy::PrivacyKind;
use smartpaste::queries::{
    all_folders_query, all_records_query, clear_private_query, count_followup,
    create_folder_query, delete_folder_query, delete_record_query, favorite_count_query,
    favorite_flag_query, favorite_query, folder_records_query, icon_query, insert_icon_query,
    insert_ocr_text_query, item_folders_query, link_item_query, new_folder, notes_query,
    ocr_search_query, ocr_text_query, private_count_query, private_mark_query,
    private_source_query, record_by_id_query, rename_folder_query, stored_file_query,
    stored_paths_query, top_now_query, top_query, unfavorite_query, unlink_item_query,
    update_content_query, COUNT_DOWN, COUNT_UP, SELECT_TEXT_CONTENT, SELECT_TEXT_NOTES,
};
use smartpaste::storage::{
    build_insert_query, expiry_cutoff, history_excess, SqlQuery, SqlValue, COUNT_NON_FAVORITES,
    DELETE_EXPIRED, DELETE_OLDEST,
};

fn t(s: &str) -> SqlValue {
    SqlValue::Text(s.to_string())
}

fn memory_db() -> rusqlite::Connection {
    let conn = rusqlite::Connection::open_in_memory().unwrap();
    conn.execute_batch(
        "CREATE TABLE data (id TEXT PRIMARY KEY NOT NULL, item_type TEXT NOT NULL, content TEXT NOT NULL,
            size INTEGER NOT NULL, is_favorite INTEGER NOT NULL, notes TEXT, timestamp INTEGER NOT NULL);
         CREATE TABLE folders (id TEXT PRIMARY KEY NOT NULL, name TEXT NOT NULL, num_items INTEGER NOT NULL DEFAULT 0);
         CREATE TABLE folder_items (folder_id TEXT NOT NULL, item_id TEXT NOT NULL, PRIMARY KEY (folder_id, item_id));
         CREATE TABLE extended_data (item_id TEXT PRIMARY KEY NOT NULL, ocr_text TEXT, icon_data TEXT);
         CREATE TABLE private_data (item_id TEXT PRIMARY KEY NOT NULL);",
    )
    .unwrap();
    conn
}

fn values(q: &SqlQuery) -> Vec<rusqlite::types::Value> {
    q.params
        .iter()
        .map(|p| match p {
            SqlValue::Text(s) => rusqlite::types::Value::Text(s.clone()),
            SqlValue::Integer(i) => rusqlite::types::Value::Integer(*i),
            SqlValue::Null => rusqlite::types::Value::Null,
        })
        .collect()
}

fn run(conn: &rusqlite::Connection, q: &SqlQuery) -> usize {
    conn.execute(&q.sql, rusqlite::params_from_iter(values(q))).unwrap()
}

fn record_ids(conn: &rusqlite::Connection, q: &SqlQuery) -> Vec<String> {
    let mut stmt = conn.prepare(&q.sql).unwrap();
    let v = stmt
        .query_map(rusqlite::params_from_iter(values(q)), |r| r.get::<_, String>(0))
        .unwrap()
        .map(|r| r.unwrap())
        .collect();
    v
}

fn folders(conn: &rusqlite::Connection, q: &SqlQuery) -> Vec<(String, String, i64)> {
    let mut stmt = conn.prepare(&q.sql).unwrap();
    let v = stmt
        .query_map(rusqlite::params_from_iter(values(q)), |r| {
            Ok((r.get::<_, String>(0)?, r.get::<_, String>(1)?, r.get::<_, i64>(2)?))
        })
        .unwrap()
        .map(|r| r.unwrap())
        .collect();
    v
}

fn count_of(list: &[(String, String, i64)], id: &str) -> i64 {
    list.iter().find(|f| f.0 == id).map(|f| f.2).unwrap()
}

fn insert(conn: &rusqlite::Connection, id: &str, kind: &str, content: &str) {
    let mut item = text_item(id.to_string(), content, 1);
    item.item_type = kind.to_string();
    run(conn, &build_insert_query(&item));
}

fn add(conn: &rusqlite::Connection, folder: &str, item: &str) {
    let rows = run(conn, &link_item_query(folder, item));
    if let Some(q) = count_followup(true, rows, folder) {
        run(conn, &q);
    }
}

fn remove(conn: &rusqlite::Connection, folder: &str, item: &str) {
    let rows = run(conn, &unlink_item_query(folder, item));
    if let Some(q) = count_followup(false, rows, folder) {
        run(conn, &q);
    }
}

#[test]
fn record_statements_bind_their_values() {
    assert_eq!(all_records_query().params, vec![]);
    assert!(all_records_query().sql.ends_with("ORDER BY timestamp DESC"));
    assert_eq!(record_by_id_query("a").params, vec![t("a")]);
    assert_eq!(stored_file_query("a").sql, "SELECT item_type, content FROM data WHERE id = ?1");
    assert_eq!(delete_record_query("a").sql, "DELETE FROM data WHERE id = ?1");
    assert_eq!(update_content_query("a", "new").params, vec![t("new"), t("a")]);
    assert_eq!(favorite_flag_query("a").params, vec![t("a")]);
    assert_eq!(favorite_query("a").sql, "UPDATE data SET is_favorite = 1 WHERE id = ?1");
    assert_eq!(unfavorite_query("a").sql, "UPDATE data SET is_favorite = 0 WHERE id = ?1");
    assert_eq!(favorite_count_query().sql, "SELECT COUNT(*) FROM data WHERE is_favorite = 1");
    assert_eq!(notes_query("a", "n").params, vec![t("n"), t("a")]);
    assert_eq!(top_query("a", 42).params, vec![SqlValue::Integer(42), t("a")]);
    let now = top_now_query("a");
    assert_eq!(now.sql, "UPDATE data SET timestamp = ?1 WHERE id = ?2");
    assert_eq!(now.params[1], t("a"));
    assert!(matches!(now.params[0], SqlValue::Integer(ms) if ms > 1_600_000_000_000));
    assert!(stored_paths_query().sql.contains("('file', 'image', 'folder')"));
}

#[test]
fn extended_and_privacy_statements() {
    assert_eq!(insert_ocr_text_query("i", "words").params, vec![t("i"), t("words")]);
    assert_eq!(ocr_text_query("i").params, vec![t("i")]);
    assert_eq!(ocr_search_query("inv").params, vec![t("%inv%")]);
    assert_eq!(insert_icon_query("i", "b64").params, vec![t("i"), t("b64")]);
    assert_eq!(icon_query("i").params, vec![t("i")]);
    assert_eq!(private_source_query(PrivacyKind::Password).sql, SELECT_TEXT_NOTES);
    assert_eq!(private_source_query(PrivacyKind::PhoneNumber).sql, SELECT_TEXT_CONTENT);
    assert_eq!(
        private_mark_query("i", true).sql,
        "INSERT OR IGNORE INTO private_data (item_id) VALUES (?1)"
    );
    assert_eq!(private_mark_query("i", false).sql, "DELETE FROM private_data WHERE item_id = ?1");
    assert_eq!(private_count_query("i").params, vec![t("i")]);
    assert_eq!(clear_private_query().sql, "DELETE FROM private_data");
}

#[test]
fn folder_statements_and_count_followups() {
    let q = create_folder_query("f", "Work");
    assert_eq!(q.params, vec![t("f"), t("Work"), SqlValue::Integer(0)]);
    let (id, q) = new_folder("Home");
    assert_eq!(id.len(), 36);
    assert_eq!(q.params, vec![t(&id), t("Home"), SqlValue::Integer(0)]);
    assert_eq!(rename_folder_query("f", "New").params, vec![t("New"), t("f")]);
    assert_eq!(delete_folder_query("f").params, vec![t("f")]);
    assert!(all_folders_query().params.is_empty());
    assert_eq!(link_item_query("f", "i").params, vec![t("f"), t("i")]);
    assert_eq!(unlink_item_query("f", "i").params, vec![t("f"), t("i")]);
    assert_eq!(count_followup(true, 0, "f"), None);
    assert_eq!(count_followup(false, 0, "f"), None);
    let up = count_followup(true, 1, "f").unwrap();
    assert_eq!((up.sql.as_str(), up.params), (COUNT_UP, vec![t("f")]));
    let down = count_followup(false, 1, "f").unwrap();
    assert_eq!((down.sql.as_str(), down.params), (COUNT_DOWN, vec![t("f")]));
    assert_eq!(folder_records_query("Work").params, vec![t("Work")]);
    assert_eq!(item_folders_query("i").params, vec![t("i")]);
}

#[test]
fn folder_workflow_on_a_database() {
    let conn = memory_db();
    for (id, kind, content) in [
        ("f-1", "text", "one"),
        ("f-2", "text", "two"),
        ("f-3", "image", "/tmp/img1"),
        ("f-4", "text", "four"),
        ("f-5", "image", "/tmp/img2"),
        ("f-6", "text", "six"),
        ("f-7", "image", "/tmp/img3"),
    ] {
        insert(&conn, id, kind, content);
    }
    let (a, qa) = new_folder("FolderA");
    run(&conn, &qa);
    let (b, qb) = new_folder("FolderB");
    run(&conn, &qb);
    let all = folders(&conn, &all_folders_query());
    assert_eq!(count_of(&all, &a), 0);
    assert_eq!(count_of(&all, &b), 0);

    for id in ["f-1", "f-2", "f-3", "f-4", "f-5"] {
        add(&conn, &a, id);
    }
    for id in ["f-6", "f-7"] {
        add(&conn, &b, id);
    }
    add(&conn, &a, "f-1");
    add(&conn, &b, "f-2");
    let all = folders(&conn, &all_folders_query());
    assert_eq!(count_of(&all, &a), 5);
    assert_eq!(count_of(&all, &b), 3);

    let in_a = record_ids(&conn, &folder_records_query("FolderA"));
    assert_eq!(in_a.len(), 5);
    assert!(!in_a.contains(&"f-6".to_string()));
    let of_f2 = folders(&conn, &item_folders_query("f-2"));
    assert_eq!(count_of(&of_f2, &a), 5);
    assert_eq!(count_of(&of_f2, &b), 3);

    remove(&conn, &a, "f-3");
    remove(&conn, &a, "f-3");
    let all = folders(&conn, &all_folders_query());
    assert_eq!(count_of(&all, &a), 4);
    assert_eq!(count_of(&all, &b), 3);

    run(&conn, &rename_folder_query(&a, "FolderA_Renamed"));
    let renamed = record_ids(&conn, &folder_records_query("FolderA_Renamed"));
    assert_eq!(renamed.len(), 4);
    assert!(!renamed.contains(&"f-3".to_string()));

    run(&conn, &delete_folder_query(&b));
    assert!(record_ids(&conn, &folder_records_query("FolderB")).is_empty());
    assert!(folders(&conn, &all_folders_query()).iter().all(|f| f.0 != b));
}

#[test]
fn record_updates_on_a_database() {
    let conn = memory_db();
    insert(&conn, "r-1", "text", "hello");
    insert(&conn, "r-2", "text", "world");
    assert_eq!(record_ids(&conn, &record_by_id_query("r-1")), vec!["r-1".to_string()]);
    assert_eq!(run(&conn, &favorite_query("r-1")), 1);
    let n: i64 = conn.query_row(&favorite_count_query().sql, [], |r| r.get(0)).unwrap();
    assert_eq!(n, 1);
    assert_eq!(run(&conn, &unfavorite_query("r-1")), 1);
    run(&conn, &notes_query("r-2", "a note"));
    run(&conn, &update_content_query("r-2", "changed"));
    let (notes, content): (String, String) = conn
        .query_row("SELECT notes, content FROM data WHERE id = 'r-2'", [], |r| {
            Ok((r.get(0)?, r.get(1)?))
        })
        .unwrap();
    assert_eq!((notes.as_str(), content.as_str()), ("a note", "changed"));
    run(&conn, &top_query("r-1", 99));
    assert_eq!(record_ids(&conn, &all_records_query())[0], "r-1");
    run(&conn, &insert_ocr_text_query("r-1", "invoice 42"));
    assert_eq!(record_ids(&conn, &ocr_search_query("voice")), vec!["r-1".to_string()]);
    assert_eq!(run(&conn, &delete_record_query("r-2")), 1);
    assert_eq!(record_ids(&conn, &all_records_query()), vec!["r-1".to_string()]);
}

fn insert_at(conn: &rusqlite::Connection, id: &str, favorite: bool, ts: i64) {
    let mut item = text_item(id.to_string(), id, ts);
    item.is_favorite = favorite;
    run(conn, &build_insert_query(&item));
}

#[test]
fn expiry_cleanup_on_a_database() {
    let conn = memory_db();
    let now: i64 = 1_700_000_000;
    let day = 86400;
    insert_at(&conn, "expired", false, now - 8 * day);
    insert_at(&conn, "fresh", false, now - day);
    insert_at(&conn, "expired_fav", true, now - 8 * day);
    let cutoff = expiry_cutoff(now, 7);
    let deleted = conn.execute(DELETE_EXPIRED, [cutoff]).unwrap();
    assert_eq!(deleted, 1);
    let mut left = record_ids(&conn, &all_records_query());
    left.sort();
    assert_eq!(left, vec!["expired_fav".to_string(), "fresh".to_string()]);
}

#[test]
fn history_cap_on_a_database() {
    let conn = memory_db();
    let now: i64 = 1_700_000_000;
    insert_at(&conn, "1", false, now - 1000);
    insert_at(&conn, "2", true, now - 900);
    insert_at(&conn, "3", false, now - 800);
    insert_at(&conn, "4", false, now - 700);
    insert_at(&conn, "5", false, now - 600);
    let total: u32 = conn.query_row(COUNT_NON_FAVORITES, [], |r| r.get(0)).unwrap();
    let excess = history_excess(total, 2);
    assert_eq!(excess, 2);
    assert_eq!(conn.execute(DELETE_OLDEST, [excess]).unwrap(), 2);
    let mut left = record_ids(&conn, &all_records_query());
    left.sort();
    assert_eq!(left, vec!["2".to_string(), "4".to_string(), "5".to_string()]);
}
