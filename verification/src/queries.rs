//! The statements of the history database's record, favourite, note, folder,
//! recognised-text, icon and privacy commands, each with the values bound to it, and
//! the replies those commands give.
use vstd::prelude::*;
use crate::clipboard::{new_uuid_string, now_millis};
use crate::privacy::PrivacyKind;
use crate::storage::{like_pattern, spec_like_pattern, values_view, SqlQuery, SqlValue, SqlValueModel};

verus! {

// ---------------------------------------------------------------- statements

/// Every record, newest first.
pub const SELECT_ALL_RECORDS: &'static str =
    "SELECT id, item_type, content, size, is_favorite, notes, timestamp FROM data ORDER BY timestamp DESC";

/// The record whose identifier is bound first.
pub const SELECT_RECORD_BY_ID: &'static str =
    "SELECT id, item_type, content, size, is_favorite, notes, timestamp \n             FROM data \n             WHERE id = ?1";

/// The kind and content of the record whose identifier is bound first.
pub const SELECT_KIND_AND_CONTENT: &'static str = "SELECT item_type, content FROM data WHERE id = ?1";

/// Removes the record whose identifier is bound first.
pub const DELETE_RECORD: &'static str = "DELETE FROM data WHERE id = ?1";

/// Sets the content (first value) of the record whose identifier is bound second.
pub const UPDATE_CONTENT: &'static str = "UPDATE data SET content = ?1 WHERE id = ?2";

/// The favourite flag of the record whose identifier is bound first.
pub const SELECT_FAVORITE_FLAG: &'static str = "SELECT is_favorite FROM data WHERE id = ?1";

/// Marks the record whose identifier is bound first as a favourite.
pub const SET_FAVORITE: &'static str = "UPDATE data SET is_favorite = 1 WHERE id = ?1";

/// Clears the favourite flag of the record whose identifier is bound first.
pub const CLEAR_FAVORITE: &'static str = "UPDATE data SET is_favorite = 0 WHERE id = ?1";

/// The number of favourites.
pub const COUNT_FAVORITES: &'static str = "SELECT COUNT(*) FROM data WHERE is_favorite = 1";

/// Sets the notes (first value) of the record whose identifier is bound second.
pub const UPDATE_NOTES: &'static str = "UPDATE data SET notes = ?1 WHERE id = ?2";

/// Sets the time (first value) of the record whose identifier is bound second.
pub const UPDATE_TIMESTAMP: &'static str = "UPDATE data SET timestamp = ?1 WHERE id = ?2";

/// The identifiers and contents of the records that stand for files on disk.
pub const SELECT_STORED_PATHS: &'static str =
    "SELECT id, content FROM data WHERE item_type IN ('file', 'image', 'folder')";

/// Stores the recognised text (second value) of the record bound first.
pub const UPSERT_OCR_TEXT: &'static str =
    "INSERT OR REPLACE INTO extended_data (item_id, ocr_text) VALUES (?1, ?2)";

/// The recognised text of the record bound first.
pub const SELECT_OCR_TEXT: &'static str = "SELECT ocr_text FROM extended_data WHERE item_id = ?1";

/// The records whose recognised text is like the pattern bound first.
pub const SEARCH_OCR_TEXT: &'static str =
    "SELECT d.id, d.item_type, d.content, d.size, d.is_favorite, d.notes, d.timestamp\n             FROM data d\n             JOIN extended_data ed ON d.id = ed.item_id\n             WHERE ed.ocr_text LIKE ?1";

/// Stores the icon (second value) of the record bound first.
pub const UPSERT_ICON_DATA: &'static str =
    "INSERT OR REPLACE INTO extended_data (item_id, icon_data) VALUES (?1, ?2)";

/// The icon of the record bound first.
pub const SELECT_ICON_DATA: &'static str = "SELECT icon_data FROM extended_data WHERE item_id = ?1";

/// Creates a folder from its identifier, name and count.
pub const INSERT_FOLDER: &'static str = "INSERT INTO folders (id, name, num_items) VALUES (?1, ?2, ?3)";

/// Renames (first value) the folder whose identifier is bound second.
pub const RENAME_FOLDER: &'static str = "UPDATE folders SET name = ?1 WHERE id = ?2";

/// Removes the folder whose identifier is bound first.
pub const DELETE_FOLDER: &'static str = "DELETE FROM folders WHERE id = ?1";

/// Every folder with its count.
pub const SELECT_FOLDERS: &'static str = "SELECT id, name , num_items FROM folders";

/// Puts the record bound second into the folder bound first, unless it is there.
pub const LINK_ITEM: &'static str =
    "INSERT OR IGNORE INTO folder_items (folder_id, item_id) VALUES (?1, ?2)";

/// Takes the record bound second out of the folder bound first.
pub const UNLINK_ITEM: &'static str = "DELETE FROM folder_items WHERE folder_id = ?1 AND item_id = ?2";

/// Raises the count of the folder bound first by one.
pub const COUNT_UP: &'static str = "UPDATE folders SET num_items = num_items + 1 WHERE id = ?1";

/// Lowers the count of the folder bound first by one, never below zero.
pub const COUNT_DOWN: &'static str =
    "UPDATE folders SET num_items = num_items - 1 WHERE id = ?1 AND num_items > 0";

/// The records in the folder whose name is bound first.
pub const SELECT_FOLDER_RECORDS: &'static str =
    "SELECT d.id, d.item_type, d.content, d.size, d.is_favorite, d.notes, d.timestamp\n             FROM data d\n             JOIN folder_items fi ON d.id = fi.item_id\n             JOIN folders f ON fi.folder_id = f.id\n             WHERE f.name = ?1";

/// The folders that hold the record bound first.
pub const SELECT_ITEM_FOLDERS: &'static str =
    "SELECT f.id, f.name, f.num_items\n             FROM folders f\n             JOIN folder_items fi ON f.id = fi.folder_id\n             WHERE fi.item_id = ?1";

/// The identifiers and notes of the text records.
pub const SELECT_TEXT_NOTES: &'static str = "SELECT id, notes FROM data WHERE item_type = 'text'";

/// The identifiers and contents of the text records.
pub const SELECT_TEXT_CONTENT: &'static str = "SELECT id, content FROM data WHERE item_type = 'text'";

/// Marks the record bound first as private.
pub const MARK_PRIVATE: &'static str = "INSERT OR IGNORE INTO private_data (item_id) VALUES (?1)";

/// Takes the private mark off the record bound first.
pub const UNMARK_PRIVATE: &'static str = "DELETE FROM private_data WHERE item_id = ?1";

/// Whether the record bound first is marked private, as a count.
pub const COUNT_PRIVATE_MARKS: &'static str = "SELECT COUNT(*) FROM private_data WHERE item_id = ?1";

/// Takes every private mark off.
pub const CLEAR_PRIVATE: &'static str = "DELETE FROM private_data";

// ---------------------------------------------------------------- replies

/// The reply of a rename.
pub const FOLDER_RENAMED: &'static str = "renamed";

/// The reply of a folder's removal.
pub const FOLDER_DELETED: &'static str = "deleted";

/// The reply of putting a record into a folder.
pub const ADDED_TO_FOLDER: &'static str = "added to folder";

/// The reply of taking a record out of a folder.
pub const REMOVED_FROM_FOLDER: &'static str = "removed from folder";

/// The reply of storing recognised text.
pub const OCR_INSERTED: &'static str = "ocr inserted";

/// The reply of storing an icon.
pub const ICON_INSERTED: &'static str = "icon_data inserted";

// ---------------------------------------------------------------- building

/// The statement `sql` with no values.
fn plain(sql: &str) -> (res: SqlQuery)
    ensures
        res.sql@ == sql@,
        res.params@.len() == 0,
{
    SqlQuery { sql: sql.to_string(), params: Vec::new() }
}

/// The statement `sql` with one text value.
fn with_text(sql: &str, a: &str) -> (res: SqlQuery)
    ensures
        res.sql@ == sql@,
        values_view(res.params@) == seq![SqlValueModel::Text(a@)],
{
    let mut params: Vec<SqlValue> = Vec::new();
    params.push(SqlValue::Text(a.to_string()));
    assert(values_view(params@) =~= seq![SqlValueModel::Text(a@)]);
    SqlQuery { sql: sql.to_string(), params }
}

/// The statement `sql` with two text values, in order.
fn with_texts(sql: &str, a: &str, b: &str) -> (res: SqlQuery)
    ensures
        res.sql@ == sql@,
        values_view(res.params@) == seq![SqlValueModel::Text(a@), SqlValueModel::Text(b@)],
{
    let mut params: Vec<SqlValue> = Vec::new();
    params.push(SqlValue::Text(a.to_string()));
    params.push(SqlValue::Text(b.to_string()));
    assert(values_view(params@) =~= seq![SqlValueModel::Text(a@), SqlValueModel::Text(b@)]);
    SqlQuery { sql: sql.to_string(), params }
}

/// The listing of every record, newest first.
pub fn all_records_query() -> (res: SqlQuery)
    ensures
        res.sql@ == SELECT_ALL_RECORDS@,
        res.params@.len() == 0,
{
    plain(SELECT_ALL_RECORDS)
}

/// The lookup of the record `id`.
pub fn record_by_id_query(id: &str) -> (res: SqlQuery)
    ensures
        res.sql@ == SELECT_RECORD_BY_ID@,
        values_view(res.params@) == seq![SqlValueModel::Text(id@)],
{
    with_text(SELECT_RECORD_BY_ID, id)
}

/// The lookup of the kind and content of the record `id`, read before it is removed.
pub fn stored_file_query(id: &str) -> (res: SqlQuery)
    ensures
        res.sql@ == SELECT_KIND_AND_CONTENT@,
        values_view(res.params@) == seq![SqlValueModel::Text(id@)],
{
    with_text(SELECT_KIND_AND_CONTENT, id)
}

/// The removal of the record `id`.
pub fn delete_record_query(id: &str) -> (res: SqlQuery)
    ensures
        res.sql@ == DELETE_RECORD@,
        values_view(res.params@) == seq![SqlValueModel::Text(id@)],
{
    with_text(DELETE_RECORD, id)
}

/// The change of the content of the record `id` to `new_content`.
pub fn update_content_query(id: &str, new_content: &str) -> (res: SqlQuery)
    ensures
        res.sql@ == UPDATE_CONTENT@,
        values_view(res.params@) == seq![
            SqlValueModel::Text(new_content@),
            SqlValueModel::Text(id@),
        ],
{
    with_texts(UPDATE_CONTENT, new_content, id)
}

/// The lookup of the favourite flag of the record `id`.
pub fn favorite_flag_query(id: &str) -> (res: SqlQuery)
    ensures
        res.sql@ == SELECT_FAVORITE_FLAG@,
        values_view(res.params@) == seq![SqlValueModel::Text(id@)],
{
    with_text(SELECT_FAVORITE_FLAG, id)
}

/// Marking the record `id` as a favourite.
pub fn favorite_query(id: &str) -> (res: SqlQuery)
    ensures
        res.sql@ == SET_FAVORITE@,
        values_view(res.params@) == seq![SqlValueModel::Text(id@)],
{
    with_text(SET_FAVORITE, id)
}

/// Clearing the favourite flag of the record `id`.
pub fn unfavorite_query(id: &str) -> (res: SqlQuery)
    ensures
        res.sql@ == CLEAR_FAVORITE@,
        values_view(res.params@) == seq![SqlValueModel::Text(id@)],
{
    with_text(CLEAR_FAVORITE, id)
}

/// The count of favourites.
pub fn favorite_count_query() -> (res: SqlQuery)
    ensures
        res.sql@ == COUNT_FAVORITES@,
        res.params@.len() == 0,
{
    plain(COUNT_FAVORITES)
}

/// Setting the notes of the record `id`.
pub fn notes_query(id: &str, notes: &str) -> (res: SqlQuery)
    ensures
        res.sql@ == UPDATE_NOTES@,
        values_view(res.params@) == seq![SqlValueModel::Text(notes@), SqlValueModel::Text(id@)],
{
    with_texts(UPDATE_NOTES, notes, id)
}

/// The statement that moves the record `id` to the top at time `timestamp`.
pub open spec fn spec_top_query(id: Seq<char>, timestamp: i64) -> (Seq<char>, Seq<SqlValueModel>) {
    (UPDATE_TIMESTAMP@, seq![SqlValueModel::Integer(timestamp), SqlValueModel::Text(id)])
}

/// Moving the record `id` to the top: its time becomes `timestamp`.
pub fn top_query(id: &str, timestamp: i64) -> (res: SqlQuery)
    ensures
        query_parts(res) == spec_top_query(id@, timestamp),
{
    let mut params: Vec<SqlValue> = Vec::new();
    params.push(SqlValue::Integer(timestamp));
    params.push(SqlValue::Text(id.to_string()));
    assert(values_view(params@) =~= seq![
        SqlValueModel::Integer(timestamp),
        SqlValueModel::Text(id@),
    ]);
    SqlQuery { sql: UPDATE_TIMESTAMP.to_string(), params }
}

/// Moving the record `id` to the top at the current time: `top_query` at whatever
/// time the clock reads.
pub fn top_now_query(id: &str) -> (res: SqlQuery)
    ensures
        exists|t: i64| query_parts(res) == #[trigger] spec_top_query(id@, t),
{
    let now = now_millis();
    top_query(id, now)
}

/// The listing of the records that stand for files on disk.
pub fn stored_paths_query() -> (res: SqlQuery)
    ensures
        res.sql@ == SELECT_STORED_PATHS@,
        res.params@.len() == 0,
{
    plain(SELECT_STORED_PATHS)
}

/// Storing `ocr_text` as the recognised text of the record `item_id`.
pub fn insert_ocr_text_query(item_id: &str, ocr_text: &str) -> (res: SqlQuery)
    ensures
        res.sql@ == UPSERT_OCR_TEXT@,
        values_view(res.params@) == seq![
            SqlValueModel::Text(item_id@),
            SqlValueModel::Text(ocr_text@),
        ],
{
    with_texts(UPSERT_OCR_TEXT, item_id, ocr_text)
}

/// The lookup of the recognised text of the record `item_id`.
pub fn ocr_text_query(item_id: &str) -> (res: SqlQuery)
    ensures
        res.sql@ == SELECT_OCR_TEXT@,
        values_view(res.params@) == seq![SqlValueModel::Text(item_id@)],
{
    with_text(SELECT_OCR_TEXT, item_id)
}

/// The search of the recognised texts that contain `query`.
pub fn ocr_search_query(query: &str) -> (res: SqlQuery)
    ensures
        res.sql@ == SEARCH_OCR_TEXT@,
        values_view(res.params@) == seq![SqlValueModel::Text(spec_like_pattern(query@))],
{
    let p = like_pattern(query);
    with_text(SEARCH_OCR_TEXT, p.as_str())
}

/// Storing `icon_data` as the icon of the record `item_id`.
pub fn insert_icon_query(item_id: &str, icon_data: &str) -> (res: SqlQuery)
    ensures
        res.sql@ == UPSERT_ICON_DATA@,
        values_view(res.params@) == seq![
            SqlValueModel::Text(item_id@),
            SqlValueModel::Text(icon_data@),
        ],
{
    with_texts(UPSERT_ICON_DATA, item_id, icon_data)
}

/// The lookup of the icon of the record `item_id`.
pub fn icon_query(item_id: &str) -> (res: SqlQuery)
    ensures
        res.sql@ == SELECT_ICON_DATA@,
        values_view(res.params@) == seq![SqlValueModel::Text(item_id@)],
{
    with_text(SELECT_ICON_DATA, item_id)
}

// ---------------------------------------------------------------- folders

/// The creation of the folder `id` named `name`, with no records yet.
pub fn create_folder_query(id: &str, name: &str) -> (res: SqlQuery)
    ensures
        res.sql@ == INSERT_FOLDER@,
        values_view(res.params@) == seq![
            SqlValueModel::Text(id@),
            SqlValueModel::Text(name@),
            SqlValueModel::Integer(0),
        ],
{
    let mut params: Vec<SqlValue> = Vec::new();
    params.push(SqlValue::Text(id.to_string()));
    params.push(SqlValue::Text(name.to_string()));
    params.push(SqlValue::Integer(0));
    assert(values_view(params@) =~= seq![
        SqlValueModel::Text(id@),
        SqlValueModel::Text(name@),
        SqlValueModel::Integer(0),
    ]);
    SqlQuery { sql: INSERT_FOLDER.to_string(), params }
}

/// A new folder named `name`: a fresh identifier and the statement that creates it.
pub fn new_folder(name: &str) -> (res: (String, SqlQuery))
    ensures
        res.0@.len() == 36,
        res.1.sql@ == INSERT_FOLDER@,
        values_view(res.1.params@) == seq![
            SqlValueModel::Text(res.0@),
            SqlValueModel::Text(name@),
            SqlValueModel::Integer(0),
        ],
{
    let id = new_uuid_string();
    let q = create_folder_query(id.as_str(), name);
    (id, q)
}

/// Renaming the folder `folder_id` to `new_name`.
pub fn rename_folder_query(folder_id: &str, new_name: &str) -> (res: SqlQuery)
    ensures
        res.sql@ == RENAME_FOLDER@,
        values_view(res.params@) == seq![
            SqlValueModel::Text(new_name@),
            SqlValueModel::Text(folder_id@),
        ],
{
    with_texts(RENAME_FOLDER, new_name, folder_id)
}

/// Removing the folder `folder_id`.
pub fn delete_folder_query(folder_id: &str) -> (res: SqlQuery)
    ensures
        res.sql@ == DELETE_FOLDER@,
        values_view(res.params@) == seq![SqlValueModel::Text(folder_id@)],
{
    with_text(DELETE_FOLDER, folder_id)
}

/// The listing of every folder.
pub fn all_folders_query() -> (res: SqlQuery)
    ensures
        res.sql@ == SELECT_FOLDERS@,
        res.params@.len() == 0,
{
    plain(SELECT_FOLDERS)
}

/// Putting the record `item_id` into the folder `folder_id` (nothing when it is there).
pub fn link_item_query(folder_id: &str, item_id: &str) -> (res: SqlQuery)
    ensures
        res.sql@ == LINK_ITEM@,
        values_view(res.params@) == seq![
            SqlValueModel::Text(folder_id@),
            SqlValueModel::Text(item_id@),
        ],
{
    with_texts(LINK_ITEM, folder_id, item_id)
}

/// Taking the record `item_id` out of the folder `folder_id`.
pub fn unlink_item_query(folder_id: &str, item_id: &str) -> (res: SqlQuery)
    ensures
        res.sql@ == UNLINK_ITEM@,
        values_view(res.params@) == seq![
            SqlValueModel::Text(folder_id@),
            SqlValueModel::Text(item_id@),
        ],
{
    with_texts(UNLINK_ITEM, folder_id, item_id)
}

/// What follows a link or unlink statement that changed `rows` entries: the folder's
/// count moves by one (up when adding, down when removing) only when an entry changed.
pub open spec fn spec_count_followup(adding: bool, rows: usize, folder_id: Seq<char>) -> Option<
    (Seq<char>, Seq<SqlValueModel>),
> {
    if rows == 0 {
        None
    } else if adding {
        Some((COUNT_UP@, seq![SqlValueModel::Text(folder_id)]))
    } else {
        Some((COUNT_DOWN@, seq![SqlValueModel::Text(folder_id)]))
    }
}

/// A statement as its text and the values bound to it.
pub open spec fn query_parts(q: SqlQuery) -> (Seq<char>, Seq<SqlValueModel>) {
    (q.sql@, values_view(q.params@))
}

/// The count update that follows putting a record into (`adding`) or taking it out of
/// the folder `folder_id`, when the link statement changed `rows` entries.
pub fn count_followup(adding: bool, rows: usize, folder_id: &str) -> (res: Option<SqlQuery>)
    ensures
        res is None <==> spec_count_followup(adding, rows, folder_id@) is None,
        res matches Some(q) ==> Some(query_parts(q)) == spec_count_followup(
            adding,
            rows,
            folder_id@,
        ),
{
    if rows == 0 {
        None
    } else if adding {
        Some(with_text(COUNT_UP, folder_id))
    } else {
        Some(with_text(COUNT_DOWN, folder_id))
    }
}

/// The records in the folder named `folder_name`.
pub fn folder_records_query(folder_name: &str) -> (res: SqlQuery)
    ensures
        res.sql@ == SELECT_FOLDER_RECORDS@,
        values_view(res.params@) == seq![SqlValueModel::Text(folder_name@)],
{
    with_text(SELECT_FOLDER_RECORDS, folder_name)
}

/// The folders that hold the record `item_id`.
pub fn item_folders_query(item_id: &str) -> (res: SqlQuery)
    ensures
        res.sql@ == SELECT_ITEM_FOLDERS@,
        values_view(res.params@) == seq![SqlValueModel::Text(item_id@)],
{
    with_text(SELECT_ITEM_FOLDERS, item_id)
}

// ---------------------------------------------------------------- privacy

/// The rows that marking records of a kind reads: the notes of the text records for
/// passwords, their content for the other kinds.
pub fn private_source_query(kind: PrivacyKind) -> (res: SqlQuery)
    ensures
        kind == PrivacyKind::Password ==> res.sql@ == SELECT_TEXT_NOTES@,
        kind != PrivacyKind::Password ==> res.sql@ == SELECT_TEXT_CONTENT@,
        res.params@.len() == 0,
{
    match kind {
        PrivacyKind::Password => plain(SELECT_TEXT_NOTES),
        _ => plain(SELECT_TEXT_CONTENT),
    }
}

/// Marking (`to_add`) or unmarking the record `id` as private.
pub fn private_mark_query(id: &str, to_add: bool) -> (res: SqlQuery)
    ensures
        to_add ==> res.sql@ == MARK_PRIVATE@,
        !to_add ==> res.sql@ == UNMARK_PRIVATE@,
        values_view(res.params@) == seq![SqlValueModel::Text(id@)],
{
    if to_add {
        with_text(MARK_PRIVATE, id)
    } else {
        with_text(UNMARK_PRIVATE, id)
    }
}

/// The count of private marks on the record `id` (one or none).
pub fn private_count_query(id: &str) -> (res: SqlQuery)
    ensures
        res.sql@ == COUNT_PRIVATE_MARKS@,
        values_view(res.params@) == seq![SqlValueModel::Text(id@)],
{
    with_text(COUNT_PRIVATE_MARKS, id)
}

/// Taking every private mark off.
pub fn clear_private_query() -> (res: SqlQuery)
    ensures
        res.sql@ == CLEAR_PRIVATE@,
        res.params@.len() == 0,
{
    plain(CLEAR_PRIVATE)
}

} // verus!
