//! Storage rules: the SQL that each query of the history database runs and the values
//! bound to it, where the file behind a stored record lies, how stored paths follow the
//! storage directory when it moves, and the arithmetic of the history cleanup.
use vstd::prelude::*;
use crate::clipboard::{now_secs, ClipboardItem, FolderItem};
use crate::paths::{path_join, spec_path_join};
use crate::privacy::rows_view;
use crate::text::{
    from_chars, replace_all, replace_first, spec_replace, spec_replace_first, spec_split_last,
    spec_starts_with, split_last, starts_with, str_eq, to_chars, contains, spec_contains,
};
use vstd::string::StringExecFns;

verus! {

broadcast use vstd::string::group_string_axioms;

// ---------------------------------------------------------------- SQL values

/// A value bound to a placeholder of an SQL statement.
#[derive(Debug, PartialEq)]
pub enum SqlValue {
    Text(String),
    Integer(i64),
    Null,
}

/// An SQL value as a mathematical value.
pub enum SqlValueModel {
    Text(Seq<char>),
    Integer(i64),
    Null,
}

impl View for SqlValue {
    type V = SqlValueModel;

    open spec fn view(&self) -> SqlValueModel {
        match self {
            SqlValue::Text(s) => SqlValueModel::Text(s@),
            SqlValue::Integer(i) => SqlValueModel::Integer(*i),
            SqlValue::Null => SqlValueModel::Null,
        }
    }
}

/// The values of a list of SQL values.
pub open spec fn values_view(v: Seq<SqlValue>) -> Seq<SqlValueModel> {
    v.map_values(|x: SqlValue| x@)
}

/// An SQL statement with the values bound to its numbered placeholders, in order.
#[derive(Debug, PartialEq)]
pub struct SqlQuery {
    pub sql: String,
    pub params: Vec<SqlValue>,
}

/// A text value; `Null` for `None`.
pub open spec fn opt_text_model(v: Option<String>) -> SqlValueModel {
    match v {
        Some(s) => SqlValueModel::Text(s@),
        None => SqlValueModel::Null,
    }
}

fn opt_text_value(v: &Option<String>) -> (res: SqlValue)
    ensures
        res@ == opt_text_model(*v),
{
    match v {
        Some(s) => SqlValue::Text(s.clone()),
        None => SqlValue::Null,
    }
}

// ---------------------------------------------------------------- scopes

/// The record kinds that a scope names directly.
pub open spec fn is_item_kind(t: Seq<char>) -> bool {
    t == "text"@ || t == "image"@ || t == "file"@ || t == "folder"@
}

/// What an `item_type` argument selects: every record, the records of one kind, the
/// private records, or the records filed in the favourites folder with that id.
pub enum ScopeModel {
    All,
    Kind(Seq<char>),
    Private,
    Folder(Seq<char>),
}

/// How an `item_type` argument is read: a record kind, "private", or else a folder id.
pub open spec fn spec_scope(t: Option<Seq<char>>) -> ScopeModel {
    match t {
        None => ScopeModel::All,
        Some(s) => if is_item_kind(s) {
            ScopeModel::Kind(s)
        } else if s == "private"@ {
            ScopeModel::Private
        } else {
            ScopeModel::Folder(s)
        },
    }
}

/// Each of the four record kinds restricts a search or a deletion to the records of that
/// kind: no table is joined, the condition compares `data.item_type` with the value
/// bound, and that value is the kind itself. "private" joins the private marks and binds
/// nothing; any other text is taken as a folder id.
pub proof fn lemma_record_kinds_scope_by_kind(t: Seq<char>, ph: Seq<char>)
    ensures
        (t == "text"@ || t == "image"@ || t == "file"@ || t == "folder"@) ==> {
            &&& scope_join(spec_scope(Some(t))).len() == 0
            &&& scope_filter(spec_scope(Some(t)), ph) == " AND data.item_type = "@ + ph
            &&& scope_params(spec_scope(Some(t))) == seq![SqlValueModel::Text(t)]
        },
        t == "private"@ ==> {
            &&& scope_join(spec_scope(Some(t)))
                == " JOIN private_data ON data.id = private_data.item_id"@
            &&& scope_filter(spec_scope(Some(t)), ph).len() == 0
            &&& scope_params(spec_scope(Some(t))).len() == 0
        },
        (t != "text"@ && t != "image"@ && t != "file"@ && t != "folder"@ && t != "private"@) ==> {
            &&& scope_join(spec_scope(Some(t)))
                == " JOIN folder_items ON data.id = folder_items.item_id"@
            &&& scope_filter(spec_scope(Some(t)), ph) == " AND folder_items.folder_id = "@ + ph
            &&& scope_params(spec_scope(Some(t))) == seq![SqlValueModel::Text(t)]
        },
{
    reveal_strlit("text");
    reveal_strlit("image");
    reveal_strlit("file");
    reveal_strlit("folder");
    reveal_strlit("private");
    assert("private"@.len() != "text"@.len() && "private"@.len() != "image"@.len());
    assert("private"@.len() != "file"@.len() && "private"@.len() != "folder"@.len());
}

/// The view of an optional `&str` argument.
pub open spec fn opt_str_view(t: Option<&str>) -> Option<Seq<char>> {
    match t {
        Some(s) => Some(s@),
        None => None,
    }
}

/// The join that a scope adds to a query over `data`.
pub open spec fn scope_join(s: ScopeModel) -> Seq<char> {
    match s {
        ScopeModel::Private => " JOIN private_data ON data.id = private_data.item_id"@,
        ScopeModel::Folder(_) => " JOIN folder_items ON data.id = folder_items.item_id"@,
        _ => Seq::empty(),
    }
}

/// Whether a scope binds a value of its own.
pub open spec fn scope_binds(s: ScopeModel) -> bool {
    s is Kind || s is Folder
}

/// The condition that a scope adds, bound to the placeholder `ph`.
pub open spec fn scope_filter(s: ScopeModel, ph: Seq<char>) -> Seq<char> {
    match s {
        ScopeModel::Folder(_) => " AND folder_items.folder_id = "@ + ph,
        ScopeModel::Kind(_) => " AND data.item_type = "@ + ph,
        _ => Seq::empty(),
    }
}

/// The value that a scope binds.
pub open spec fn scope_params(s: ScopeModel) -> Seq<SqlValueModel> {
    match s {
        ScopeModel::Folder(id) => seq![SqlValueModel::Text(id)],
        ScopeModel::Kind(t) => seq![SqlValueModel::Text(t)],
        _ => Seq::empty(),
    }
}

/// 0 for a record kind, 1 for "private", 2 for a folder id.
fn scope_code(t: &str) -> (res: u8)
    ensures
        res == 0 <==> is_item_kind(t@),
        res == 1 <==> !is_item_kind(t@) && t@ == "private"@,
        res == 2 <==> !is_item_kind(t@) && t@ != "private"@,
{
    if str_eq(t, "text") || str_eq(t, "image") || str_eq(t, "file") || str_eq(t, "folder") {
        0
    } else if str_eq(t, "private") {
        1
    } else {
        2
    }
}

/// Adds the join of the scope of `item_type` to `sql`.
fn push_scope_join(sql: &mut String, item_type: Option<&str>)
    ensures
        final(sql)@ == old(sql)@ + scope_join(spec_scope(opt_str_view(item_type))),
{
    if let Some(t) = item_type {
        let code = scope_code(t);
        if code == 1 {
            sql.append(" JOIN private_data ON data.id = private_data.item_id");
        } else if code == 2 {
            sql.append(" JOIN folder_items ON data.id = folder_items.item_id");
        } else {
            assert(sql@ =~= sql@ + Seq::<char>::empty());
        }
    } else {
        assert(sql@ =~= sql@ + Seq::<char>::empty());
    }
}

/// Adds the condition of the scope of `item_type` to `sql`, bound to `ph`, and its value
/// to `params`.
fn push_scope_filter(sql: &mut String, params: &mut Vec<SqlValue>, item_type: Option<&str>, ph: &str)
    ensures
        final(sql)@ == old(sql)@ + scope_filter(spec_scope(opt_str_view(item_type)), ph@),
        values_view(final(params)@) == values_view(old(params)@) + scope_params(
            spec_scope(opt_str_view(item_type)),
        ),
{
    let ghost p0 = params@;
    if let Some(t) = item_type {
        let code = scope_code(t);
        if code == 0 {
            sql.append(" AND data.item_type = ");
            sql.append(ph);
            assert(sql@ == old(sql)@ + (" AND data.item_type = "@ + ph@));
            params.push(SqlValue::Text(t.to_string()));
        } else if code == 2 {
            sql.append(" AND folder_items.folder_id = ");
            sql.append(ph);
            assert(sql@ == old(sql)@ + (" AND folder_items.folder_id = "@ + ph@));
            params.push(SqlValue::Text(t.to_string()));
        } else {
            assert(sql@ =~= sql@ + Seq::<char>::empty());
        }
    } else {
        assert(sql@ =~= sql@ + Seq::<char>::empty());
    }
    assert(values_view(params@) == values_view(p0) + scope_params(
        spec_scope(opt_str_view(item_type)),
    ));
}

// ---------------------------------------------------------------- search

/// The columns of a record, read from `data` joined with its extended data.
pub const SEARCH_BASE: &'static str =
    "SELECT data.id, data.item_type, data.content, data.size, data.is_favorite, data.notes, data.timestamp \n         FROM data \n         LEFT JOIN extended_data ON data.id = extended_data.item_id";

/// The text condition of a search: the pattern bound first matches the content, the
/// notes or the recognised text.
pub const SEARCH_MATCH: &'static str =
    " WHERE (data.content LIKE ?1 OR data.notes LIKE ?1 OR extended_data.ocr_text LIKE ?1)";

/// The order of search results: newest first.
pub const SEARCH_ORDER: &'static str = " ORDER BY data.timestamp DESC";

/// The time window of a search, after the scope's placeholder if it has one.
pub open spec fn search_range(s: ScopeModel, ranged: bool) -> Seq<char> {
    if !ranged {
        Seq::empty()
    } else if scope_binds(s) {
        " AND data.timestamp BETWEEN ?3 AND ?4"@
    } else {
        " AND data.timestamp BETWEEN ?2 AND ?3"@
    }
}

/// The SQL of a search over the scope `s`, with or without a time window.
pub open spec fn spec_search_sql(s: ScopeModel, ranged: bool) -> Seq<char> {
    SEARCH_BASE@ + scope_join(s) + SEARCH_MATCH@ + scope_filter(s, "?2"@) + search_range(s, ranged)
        + SEARCH_ORDER@
}

/// A `LIKE` pattern matching any text that contains `q`.
pub open spec fn spec_like_pattern(q: Seq<char>) -> Seq<char> {
    "%"@ + q + "%"@
}

/// The values of a search: the pattern, the scope's value, then the window's ends.
pub open spec fn spec_search_params(
    q: Seq<char>,
    s: ScopeModel,
    start: Option<i64>,
    end: Option<i64>,
) -> Seq<SqlValueModel> {
    seq![SqlValueModel::Text(spec_like_pattern(q))] + scope_params(s) + if start is Some
        && end is Some {
        seq![SqlValueModel::Integer(start->0), SqlValueModel::Integer(end->0)]
    } else {
        Seq::empty()
    }
}

/// A `LIKE` pattern matching any text that contains `q`.
pub fn like_pattern(q: &str) -> (res: String)
    ensures
        res@ == spec_like_pattern(q@),
{
    let mut p = "%".to_string();
    p.append(q);
    p.append("%");
    p
}

/// The query behind the search of the history: records whose content, notes or
/// recognised text contain `query`, restricted to the scope of `item_type` and, when
/// both ends are given, to the time window between them, newest first.
pub fn build_search_query(
    query: &str,
    item_type: Option<&str>,
    start_timestamp: Option<i64>,
    end_timestamp: Option<i64>,
) -> (res: SqlQuery)
    ensures
        res.sql@ == spec_search_sql(
            spec_scope(opt_str_view(item_type)),
            start_timestamp is Some && end_timestamp is Some,
        ),
        values_view(res.params@) == spec_search_params(
            query@,
            spec_scope(opt_str_view(item_type)),
            start_timestamp,
            end_timestamp,
        ),
{
    let ghost s = spec_scope(opt_str_view(item_type));
    let mut sql = SEARCH_BASE.to_string();
    let mut params: Vec<SqlValue> = Vec::new();
    params.push(SqlValue::Text(like_pattern(query)));
    push_scope_join(&mut sql, item_type);
    sql.append(SEARCH_MATCH);
    push_scope_filter(&mut sql, &mut params, item_type, "?2");
    let ghost before_range = sql@;
    let ghost p1 = params@;
    let binds = match item_type {
        Some(t) => scope_code(t) != 1,
        None => false,
    };
    assert(binds == scope_binds(s));
    if let (Some(start), Some(end)) = (start_timestamp, end_timestamp) {
        if binds {
            sql.append(" AND data.timestamp BETWEEN ?3 AND ?4");
        } else {
            sql.append(" AND data.timestamp BETWEEN ?2 AND ?3");
        }
        params.push(SqlValue::Integer(start));
        params.push(SqlValue::Integer(end));
        assert(values_view(params@) == values_view(p1) + seq![
            SqlValueModel::Integer(start),
            SqlValueModel::Integer(end),
        ]);
    } else {
        assert(sql@ =~= before_range + Seq::<char>::empty());
        assert(values_view(p1) == values_view(p1) + Seq::<SqlValueModel>::empty());
    }
    sql.append(SEARCH_ORDER);
    SqlQuery { sql, params }
}

// ---------------------------------------------------------------- deleting records

/// The start of a bulk delete: the records chosen by the inner selection.
pub const DELETE_ALL_BASE: &'static str = "DELETE FROM data WHERE id IN (SELECT data.id FROM data";

/// The SQL of deleting every record of the scope `s`, keeping the favourites or not.
pub open spec fn spec_delete_all_sql(s: ScopeModel, keep_favorites: bool) -> Seq<char> {
    DELETE_ALL_BASE@ + scope_join(s) + " WHERE 1=1"@ + scope_filter(s, "?1"@) + (if keep_favorites {
        " AND data.is_favorite = 0"@
    } else {
        Seq::empty()
    }) + ")"@
}

/// The statement behind deleting the history: every record in the scope of `item_type`,
/// the favourites left in place when `keep_favorites` holds.
pub fn build_delete_all_query(item_type: Option<&str>, keep_favorites: bool) -> (res: SqlQuery)
    ensures
        res.sql@ == spec_delete_all_sql(spec_scope(opt_str_view(item_type)), keep_favorites),
        values_view(res.params@) == scope_params(spec_scope(opt_str_view(item_type))),
{
    let mut sql = DELETE_ALL_BASE.to_string();
    let mut params: Vec<SqlValue> = Vec::new();
    assert(values_view(params@) == Seq::<SqlValueModel>::empty());
    push_scope_join(&mut sql, item_type);
    sql.append(" WHERE 1=1");
    push_scope_filter(&mut sql, &mut params, item_type, "?1");
    assert(values_view(params@) == Seq::<SqlValueModel>::empty() + scope_params(
        spec_scope(opt_str_view(item_type)),
    ));
    let ghost mid = sql@;
    if keep_favorites {
        sql.append(" AND data.is_favorite = 0");
    } else {
        assert(sql@ =~= mid + Seq::<char>::empty());
    }
    sql.append(")");
    SqlQuery { sql, params }
}

/// After records are deleted, every folder's count is taken again from its entries.
pub const RECOUNT_FOLDERS: &'static str =
    "UPDATE folders SET num_items = (SELECT COUNT(*) FROM folder_items WHERE folder_items.folder_id = folders.id)";

// ---------------------------------------------------------------- filters

/// Listing the records of one kind: "file" and "folder" list both of those kinds.
pub const FILTER_FILES_AND_FOLDERS: &'static str =
    "SELECT id, item_type, content, size, is_favorite, notes, timestamp \n             FROM data \n             WHERE item_type IN ('folder', 'file')\n             ORDER BY timestamp DESC";

/// Listing the records of the kind bound first.
pub const FILTER_BY_TYPE: &'static str =
    "SELECT id, item_type, content, size, is_favorite, notes, timestamp \n             FROM data \n             WHERE item_type = ?1\n             ORDER BY timestamp DESC";

/// Listing the records whose favourite flag is the value bound first.
pub const FILTER_BY_FAVORITE: &'static str =
    "SELECT id, item_type, content, size, is_favorite, notes, timestamp \n             FROM data \n             WHERE is_favorite = ?1\n             ORDER BY timestamp DESC";

/// The query that lists the records of the kind `item_type`, newest first; "file" and
/// "folder" both list the files and the folders together.
pub fn build_type_filter_query(item_type: &str) -> (res: SqlQuery)
    ensures
        (item_type@ == "folder"@ || item_type@ == "file"@) ==> res.sql@
            == FILTER_FILES_AND_FOLDERS@ && res.params@.len() == 0,
        !(item_type@ == "folder"@ || item_type@ == "file"@) ==> res.sql@ == FILTER_BY_TYPE@
            && values_view(res.params@) == seq![SqlValueModel::Text(item_type@)],
{
    if str_eq(item_type, "folder") || str_eq(item_type, "file") {
        SqlQuery { sql: FILTER_FILES_AND_FOLDERS.to_string(), params: Vec::new() }
    } else {
        let mut params: Vec<SqlValue> = Vec::new();
        params.push(SqlValue::Text(item_type.to_string()));
        assert(values_view(params@) =~= seq![SqlValueModel::Text(item_type@)]);
        SqlQuery { sql: FILTER_BY_TYPE.to_string(), params }
    }
}

/// The query that lists the favourites (1) or the other records (0), newest first.
pub fn build_favorite_filter_query(is_favorite: bool) -> (res: SqlQuery)
    ensures
        res.sql@ == FILTER_BY_FAVORITE@,
        values_view(res.params@) == seq![
            SqlValueModel::Integer(if is_favorite {
                1
            } else {
                0
            }),
        ],
{
    let flag: i64 = if is_favorite {
        1
    } else {
        0
    };
    let mut params: Vec<SqlValue> = Vec::new();
    params.push(SqlValue::Integer(flag));
    assert(values_view(params@) =~= seq![SqlValueModel::Integer(flag)]);
    SqlQuery { sql: FILTER_BY_FAVORITE.to_string(), params }
}

// ---------------------------------------------------------------- favourites

/// What toggling the favourite flag does.
#[derive(Debug, PartialEq, Eq, Structural)]
pub enum FavoriteToggle {
    /// The record was not a favourite and becomes one.
    Favorite,
    /// The record was a favourite and stops being one.
    Unfavorite,
}

/// Toggling the favourite flag of a record whose stored flag is `current` (`None` when
/// the flag is missing): 0 becomes a favourite, any other value stops being one.
pub fn favorite_toggle(current: Option<i32>) -> (res: Result<FavoriteToggle, String>)
    ensures
        current is None ==> res is Err && res->Err_0@ == "Item not found"@,
        current == Some(0i32) ==> res == Ok::<FavoriteToggle, String>(FavoriteToggle::Favorite),
        current is Some && current->0 != 0 ==> res == Ok::<FavoriteToggle, String>(
            FavoriteToggle::Unfavorite,
        ),
{
    match current {
        Some(status) => if status == 0 {
            Ok(FavoriteToggle::Favorite)
        } else {
            Ok(FavoriteToggle::Unfavorite)
        },
        None => Err("Item not found".to_string()),
    }
}

/// The reply to a toggle.
pub fn favorite_toggle_message(t: FavoriteToggle) -> (res: String)
    ensures
        t == FavoriteToggle::Favorite ==> res@ == "favorited"@,
        t == FavoriteToggle::Unfavorite ==> res@ == "unfavorited"@,
{
    match t {
        FavoriteToggle::Favorite => "favorited".to_string(),
        FavoriteToggle::Unfavorite => "unfavorited".to_string(),
    }
}

/// The flag a record has after a toggle.
pub open spec fn toggled_flag(t: FavoriteToggle) -> i32 {
    match t {
        FavoriteToggle::Favorite => 1,
        FavoriteToggle::Unfavorite => 0,
    }
}

/// Toggling twice brings a record back: from a stored flag of 0 or 1, the second toggle
/// undoes the first.
pub proof fn lemma_favorite_toggle_twice(flag: i32)
    requires
        flag == 0 || flag == 1,
    ensures
        ({
            let first = if flag == 0 {
                FavoriteToggle::Favorite
            } else {
                FavoriteToggle::Unfavorite
            };
            let mid = toggled_flag(first);
            let second = if mid == 0 {
                FavoriteToggle::Favorite
            } else {
                FavoriteToggle::Unfavorite
            };
            mid != flag && toggled_flag(second) == flag
        }),
{
}

/// The reply of an update that reads the record back: the record's JSON, or an error
/// when the record is gone ("null").
pub fn require_found(json: String) -> (res: Result<String, String>)
    ensures
        json@ == "null"@ ==> res is Err && res->Err_0@ == "Item not found after update"@,
        json@ != "null"@ ==> res == Ok::<String, String>(json),
{
    if str_eq(json.as_str(), "null") {
        Err("Item not found after update".to_string())
    } else {
        Ok(json)
    }
}

// ---------------------------------------------------------------- stored files

/// The part of a stored path under the storage directory's "files" folder that names
/// the file inside that folder: what follows the last `\files\` when the path holds one,
/// else what follows the last `./files/`, else what follows the last `files/`.
pub open spec fn spec_files_rest(content: Seq<char>) -> Seq<char> {
    if spec_contains(content, "\\files\\"@) {
        spec_split_last(content, "\\files\\"@)
    } else if spec_contains(content, "./files/"@) {
        spec_split_last(content, "./files/"@)
    } else {
        spec_split_last(content, "files/"@)
    }
}

/// The file behind a stored record: a path that starts with `.\files\`, `./files/` or
/// `files/` names `spec_files_rest` of it inside the storage directory's "files"
/// folder, one that starts with `files\` names what follows its last `files\` there,
/// and any other path is taken as it is.
pub open spec fn spec_stored_file_path(content: Seq<char>, storage: Seq<char>) -> Seq<char> {
    if spec_starts_with(content, ".\\files\\"@) || spec_starts_with(content, "./files/"@)
        || spec_starts_with(content, "files/"@) {
        spec_path_join(spec_path_join(storage, "files"@), spec_files_rest(content))
    } else if spec_starts_with(content, "files\\"@) {
        spec_path_join(spec_path_join(storage, "files"@), spec_split_last(content, "files\\"@))
    } else {
        content
    }
}

/// The part of `c` that names a file inside the "files" folder.
fn files_rest(c: &Vec<char>) -> (res: Vec<char>)
    ensures
        res@ == spec_files_rest(c@),
{
    let back = to_chars("\\files\\");
    if contains(c, &back) {
        return split_last(c, &back);
    }
    let dot = to_chars("./files/");
    if contains(c, &dot) {
        return split_last(c, &dot);
    }
    split_last(c, &to_chars("files/"))
}

/// The path of the file or folder behind a record with this content, given the storage
/// directory.
pub fn resolve_stored_file_path(content: &str, storage_path: &str) -> (res: String)
    ensures
        res@ == spec_stored_file_path(content@, storage_path@),
{
    let c = to_chars(content);
    if starts_with(&c, &to_chars(".\\files\\")) || starts_with(&c, &to_chars("./files/"))
        || starts_with(&c, &to_chars("files/")) {
        let name = from_chars(&files_rest(&c));
        let dir = path_join(storage_path, "files");
        path_join(dir.as_str(), name.as_str())
    } else if starts_with(&c, &to_chars("files\\")) {
        let name = from_chars(&split_last(&c, &to_chars("files\\")));
        let dir = path_join(storage_path, "files");
        path_join(dir.as_str(), name.as_str())
    } else {
        content.to_string()
    }
}

/// What the file system shows of a path.
#[derive(Debug, Clone, Copy)]
pub struct PathFacts {
    pub exists: bool,
    pub is_dir: bool,
    pub is_file: bool,
}

/// What is removed from disk with a record.
#[derive(Debug, PartialEq, Eq, Structural)]
pub enum Removal {
    /// The resolved path, recursively.
    ResolvedDir,
    /// The resolved path, as one file.
    ResolvedFile,
    /// The stored path itself, recursively.
    StoredDir,
    /// The stored path itself, as one file.
    StoredFile,
    /// Nothing.
    Keep,
}

/// The removal for a record of kind `item_type`: when the resolved path exists, a folder
/// record or a directory is removed recursively, an image or file record or a plain
/// file is removed alone, anything else is kept; when it does not exist, the stored path
/// itself is removed if it exists.
pub open spec fn spec_removal(item_type: Seq<char>, resolved: PathFacts, stored: PathFacts) -> Removal {
    if resolved.exists {
        if item_type == "folder"@ || resolved.is_dir {
            Removal::ResolvedDir
        } else if item_type == "image"@ || item_type == "file"@ || resolved.is_file {
            Removal::ResolvedFile
        } else {
            Removal::Keep
        }
    } else if stored.exists {
        if stored.is_dir {
            Removal::StoredDir
        } else {
            Removal::StoredFile
        }
    } else {
        Removal::Keep
    }
}

/// What to remove from disk when the record of kind `item_type` is deleted.
pub fn plan_removal(item_type: &str, resolved: PathFacts, stored: PathFacts) -> (res: Removal)
    ensures
        res == spec_removal(item_type@, resolved, stored),
{
    if resolved.exists {
        if str_eq(item_type, "folder") || resolved.is_dir {
            Removal::ResolvedDir
        } else if str_eq(item_type, "image") || str_eq(item_type, "file") || resolved.is_file {
            Removal::ResolvedFile
        } else {
            Removal::Keep
        }
    } else if stored.exists {
        if stored.is_dir {
            Removal::StoredDir
        } else {
            Removal::StoredFile
        }
    } else {
        Removal::Keep
    }
}

// ---------------------------------------------------------------- moving the storage

/// `s` with backslashes turned into forward slashes.
pub open spec fn forward(s: Seq<char>) -> Seq<char> {
    spec_replace(s, "\\"@, "/"@)
}

/// The new content of a record stored at `content` when the storage directory moves from
/// `old` to `new`, or `None` when it stays: a path under `old` (compared with forward
/// slashes) gets `new` in place of the first `old`; a path relative to the storage
/// directory stays; any other path with a "/files/" part is moved under `new`.
pub open spec fn spec_rewritten_path(content: Seq<char>, old: Seq<char>, new: Seq<char>) -> Option<
    Seq<char>,
> {
    let nc = forward(content);
    if spec_starts_with(nc, forward(old)) {
        Some(spec_replace_first(content, old, new))
    } else if spec_starts_with(nc, "files/"@) || spec_starts_with(nc, "./files/"@)
        || spec_starts_with(nc, ".\\files\\"@) {
        None
    } else {
        let rel = spec_split_last(nc, "/files/"@);
        if rel != nc {
            Some(new + "/files/"@ + rel)
        } else {
            None
        }
    }
}

/// `s` with backslashes turned into forward slashes.
fn forward_chars(s: &Vec<char>) -> (res: Vec<char>)
    ensures
        res@ == forward(s@),
{
    proof {
        reveal_strlit("\\");
    }
    replace_all(s, &to_chars("\\"), &to_chars("/"))
}

/// The new content of a record when the storage directory moves from `old_path` to
/// `new_path`, or `None` when the record keeps its path.
pub fn rewrite_stored_path(content: &str, old_path: &str, new_path: &str) -> (res: Option<String>)
    ensures
        match res {
            Some(s) => spec_rewritten_path(content@, old_path@, new_path@) == Some(s@),
            None => spec_rewritten_path(content@, old_path@, new_path@) is None,
        },
{
    let c = to_chars(content);
    let nc = forward_chars(&c);
    let no = forward_chars(&to_chars(old_path));
    if starts_with(&nc, &no) {
        let r = replace_first(&c, &to_chars(old_path), &to_chars(new_path));
        Some(from_chars(&r))
    } else if starts_with(&nc, &to_chars("files/")) || starts_with(&nc, &to_chars("./files/"))
        || starts_with(&nc, &to_chars(".\\files\\")) {
        None
    } else {
        let rel = split_last(&nc, &to_chars("/files/"));
        if rel.len() != nc.len() || !crate::text::chars_eq(&rel, &nc) {
            let mut s = new_path.to_string();
            s.append("/files/");
            let rs = from_chars(&rel);
            s.append(rs.as_str());
            assert(s@ == new_path@ + "/files/"@ + rel@);
            Some(s)
        } else {
            None
        }
    }
}

/// A text without backslashes is its own forward-slash form.
pub proof fn lemma_forward_without_backslash(s: Seq<char>)
    requires
        forall|i: int| 0 <= i < s.len() ==> s[i] != '\\',
    ensures
        forward(s) == s,
    decreases s.len(),
{
    reveal_strlit("\\");
    reveal_strlit("/");
    if s.len() > 0 {
        lemma_forward_without_backslash(s.skip(1));
        assert(s.subrange(0, 1) != "\\"@) by {
            assert(s.subrange(0, 1)[0] == s[0]);
        }
        assert(seq![s[0]] + s.skip(1) =~= s);
    }
}

/// Moving the storage directory moves every stored path under it: a path (without
/// backslashes) that starts with the old directory (non-empty, without backslashes)
/// becomes the new directory followed by the rest of the path.
pub proof fn lemma_rewrite_moves_prefix(content: Seq<char>, old: Seq<char>, new: Seq<char>)
    requires
        old.len() > 0,
        spec_starts_with(content, old),
        forall|i: int| 0 <= i < content.len() ==> content[i] != '\\',
        forall|i: int| 0 <= i < old.len() ==> old[i] != '\\',
    ensures
        spec_rewritten_path(content, old, new) == Some(new + content.skip(old.len() as int)),
{
    lemma_forward_without_backslash(content);
    lemma_forward_without_backslash(old);
    assert(content.subrange(0, old.len() as int) == old);
}

/// A path relative to the storage directory stays as it is when the directory moves,
/// unless it also starts with the old directory's text.
pub proof fn lemma_relative_paths_stay(content: Seq<char>, old: Seq<char>, new: Seq<char>)
    requires
        spec_starts_with(forward(content), "files/"@),
        !spec_starts_with(forward(content), forward(old)),
    ensures
        spec_rewritten_path(content, old, new) is None,
{
}

/// The records among `rows` (id, content) whose paths move, with their new contents, in order.
pub open spec fn spec_path_updates(
    rows: Seq<(Seq<char>, Seq<char>)>,
    old: Seq<char>,
    new: Seq<char>,
) -> Seq<(Seq<char>, Seq<char>)>
    decreases rows.len(),
{
    if rows.len() == 0 {
        Seq::empty()
    } else {
        let prev = spec_path_updates(rows.drop_last(), old, new);
        match spec_rewritten_path(rows.last().1, old, new) {
            Some(c) => prev.push((rows.last().0, c)),
            None => prev,
        }
    }
}

/// The updates that moving the storage directory from `old_path` to `new_path` makes to
/// the stored files, images and folders `rows` (id, content): the id and the new
/// content of each record that moves, in the order of `rows`. Their number is the count
/// the move reports.
pub fn rewrite_stored_paths(rows: &Vec<(String, String)>, old_path: &str, new_path: &str) -> (res:
    Vec<(String, String)>)
    ensures
        rows_view(res@) == spec_path_updates(rows_view(rows@), old_path@, new_path@),
{
    let mut out: Vec<(String, String)> = Vec::new();
    let mut i: usize = 0;
    while i < rows.len()
        invariant
            i <= rows.len(),
            rows_view(out@) == spec_path_updates(rows_view(rows@.subrange(0, i as int)), old_path@, new_path@),
        decreases rows.len() - i,
    {
        let ghost pre = rows_view(rows@.subrange(0, i as int));
        let ghost next = rows_view(rows@.subrange(0, i + 1));
        assert(next.drop_last() == pre);
        assert(next.last() == (rows@[i as int].0@, rows@[i as int].1@));
        match rewrite_stored_path(rows[i].1.as_str(), old_path, new_path) {
            Some(c) => {
                let ghost o = out@;
                out.push((rows[i].0.clone(), c));
                assert(rows_view(out@) == rows_view(o).push((rows@[i as int].0@, out@.last().1@)));
            },
            None => {},
        }
        i += 1;
    }
    assert(rows@.subrange(0, rows.len() as int) == rows@);
    out
}

// ---------------------------------------------------------------- cleanup

/// The cutoff of the expiry cleanup: records older than `days` days before `now_secs`
/// (seconds since the epoch) are removed.
pub fn expiry_cutoff(now_secs: i64, days: u32) -> (res: i64)
    requires
        now_secs - days * 86400 >= i64::MIN,
    ensures
        res == now_secs - days * 86400,
{
    let span: i64 = (days as i64) * 86400;
    now_secs - span
}

/// The time `now_secs` and the cutoff `days` days before it, when the subtraction stays
/// in the range of `i64`.
pub open spec fn spec_checked_cutoff(now_secs: i64, days: u32) -> Option<(i64, i64)> {
    if now_secs - days * 86400 >= i64::MIN {
        Some((now_secs, (now_secs - days * 86400) as i64))
    } else {
        None
    }
}

/// The time `now_secs` and the cutoff of the expiry cleanup for `days` days before it;
/// `None` when the subtraction would leave the range of `i64`.
pub fn expiry_cutoff_at(now_secs: i64, days: u32) -> (res: Option<(i64, i64)>)
    ensures
        res == spec_checked_cutoff(now_secs, days),
{
    let span: i64 = (days as i64) * 86400;
    if now_secs >= i64::MIN + span {
        Some((now_secs, expiry_cutoff(now_secs, days)))
    } else {
        None
    }
}

/// The current time in seconds and the cutoff of the expiry cleanup for `days` days
/// before it: `expiry_cutoff_at` at whatever time the clock reads, so `None` only when
/// the subtraction would leave the range of `i64`, which never happens for `days == 0`.
pub fn expiry_cutoff_now(days: u32) -> (res: Option<(i64, i64)>)
    ensures
        exists|t: i64| res == #[trigger] spec_checked_cutoff(t, days),
        res matches Some((now, cutoff)) ==> cutoff == now - days * 86400,
        days == 0 ==> res is Some,
{
    let now = now_secs();
    expiry_cutoff_at(now, days)
}

/// How many of the oldest non-favourite records the history cap removes: none when the
/// cap is 0 (off) or not exceeded, else the excess.
pub fn history_excess(total: u32, max_items: u32) -> (res: u32)
    ensures
        max_items == 0 ==> res == 0,
        max_items > 0 && total <= max_items ==> res == 0,
        max_items > 0 && total > max_items ==> res == total - max_items,
{
    if max_items == 0 || total <= max_items {
        0
    } else {
        total - max_items
    }
}

/// After the cap has removed its excess, the records that are left number the cap.
pub proof fn lemma_history_cap(total: u32, max_items: u32)
    requires
        max_items > 0,
    ensures
        ({
            let excess = if total <= max_items {
                0
            } else {
                total - max_items
            };
            &&& total - excess <= max_items
            &&& total > max_items ==> total - excess == max_items
        }),
{
}

/// Removes the non-favourite records older than the cutoff bound first.
pub const DELETE_EXPIRED: &'static str = "DELETE FROM data WHERE timestamp < ?1 AND is_favorite = 0";

/// Counts the records the cap applies to.
pub const COUNT_NON_FAVORITES: &'static str = "SELECT COUNT(*) FROM data WHERE is_favorite = 0";

/// Removes the oldest non-favourite records, as many as bound first.
pub const DELETE_OLDEST: &'static str =
    "DELETE FROM data \n             WHERE id IN (\n                 SELECT id FROM data \n                 WHERE is_favorite = 0 \n                 ORDER BY timestamp ASC \n                 LIMIT ?1\n             )";

// ---------------------------------------------------------------- cleanup signal

#[verifier::external_type_specification]
#[verifier::external_body]
#[verifier::reject_recursive_types(T)]
pub struct ExSender<T>(std::sync::mpsc::Sender<T>);

/// Offers one unit on the channel (`std::sync::mpsc::Sender::send`), the error turned
/// into its text. Trusted: whether it succeeds depends on the receiving side (a send
/// fails only when the receiver is gone), so success is not stated; a failure's text is
/// the `Display` text of `SendError`, "sending on a closed channel".
#[verifier::external_body]
fn send_signal(sender: &std::sync::mpsc::Sender<()>) -> (res: Result<(), String>)
    ensures
        res matches Err(e) ==> e@ == "sending on a closed channel"@,
{
    match sender.send(()) {
        Ok(()) => Ok(()),
        Err(e) => Err(e.to_string()),
    }
}

/// Where the cleanup worker listens, once it has started.
pub struct CleanupSignal {
    sender: Option<std::sync::mpsc::Sender<()>>,
}

impl CleanupSignal {
    /// No worker has started.
    pub fn new() -> (res: Self)
        ensures
            res.sender() is None,
            !res.is_set(),
    {
        CleanupSignal { sender: None }
    }

    /// The channel of the worker, once one is known.
    pub closed spec fn sender(&self) -> Option<std::sync::mpsc::Sender<()>> {
        self.sender
    }

    /// Whether a worker's channel is known.
    pub open spec fn is_set(&self) -> bool {
        self.sender() is Some
    }
}

/// Remembers the channel of the cleanup worker, in place of any channel known before.
pub fn set_cleanup_sender(signal: &mut CleanupSignal, sender: std::sync::mpsc::Sender<()>)
    ensures
        final(signal).sender() == Some(sender),
        final(signal).is_set(),
{
    signal.sender = Some(sender);
}

/// Forgets the channel of the cleanup worker.
pub fn reset_cleanup_sender(signal: &mut CleanupSignal)
    ensures
        final(signal).sender() is None,
        !final(signal).is_set(),
{
    signal.sender = None;
}

/// Asks the worker for a cleanup, if one has started; a failure to deliver is ignored.
pub fn notify_cleanup(signal: &CleanupSignal) {
    if let Some(s) = &signal.sender {
        let _ = send_signal(s);
    }
}

/// The reply to a requested cleanup, given the outcome of offering the request on the
/// channel.
pub open spec fn spec_cleanup_reply(sent: Result<(), String>) -> Result<Seq<char>, Seq<char>> {
    match sent {
        Ok(()) => Ok("cleanup triggered"@),
        Err(e) => Err(e@),
    }
}

/// The reply to a requested cleanup once the request was offered: "cleanup triggered"
/// when it was delivered, else the channel's own message, passed on.
pub fn cleanup_reply(sent: Result<(), String>) -> (res: Result<String, String>)
    ensures
        match res {
            Ok(s) => spec_cleanup_reply(sent) == Ok::<Seq<char>, Seq<char>>(s@),
            Err(e) => spec_cleanup_reply(sent) == Err::<Seq<char>, Seq<char>>(e@),
        },
{
    match sent {
        Ok(()) => Ok("cleanup triggered".to_string()),
        Err(e) => Err(e),
    }
}

/// Asks the worker for a cleanup on the user's request: "cleanup worker not started"
/// when no worker is known; otherwise the request is offered on the worker's channel and
/// the reply is `cleanup_reply` of the channel's answer: "cleanup triggered" when it was
/// delivered, the channel's "sending on a closed channel" when the worker is gone.
pub fn trigger_cleanup(signal: &CleanupSignal) -> (res: Result<String, String>)
    ensures
        !signal.is_set() ==> res is Err && res->Err_0@ == "cleanup worker not started"@,
        res is Ok ==> signal.is_set() && res->Ok_0@ == "cleanup triggered"@,
        signal.is_set() ==> match res {
            Ok(s) => s@ == "cleanup triggered"@,
            Err(e) => e@ == "sending on a closed channel"@,
        },
{
    match &signal.sender {
        Some(s) => {
            let sent = send_signal(s);
            cleanup_reply(sent)
        },
        None => Err("cleanup worker not started".to_string()),
    }
}

// ---------------------------------------------------------------- writing records

/// A record's link to a favourites folder.
#[derive(Debug, PartialEq)]
pub struct FolderItemRelation {
    pub folder_id: String,
    pub item_id: String,
}

/// The text recognised in a record and its icon, when known.
#[derive(Debug, PartialEq)]
pub struct ExtendedData {
    pub item_id: String,
    pub ocr_text: Option<String>,
    pub icon_data: Option<String>,
}

/// Everything a cloud copy holds.
#[derive(Debug, PartialEq)]
pub struct SyncData {
    pub data: Vec<ClipboardItem>,
    pub folders: Vec<FolderItem>,
    pub folder_items: Vec<FolderItemRelation>,
    pub extended_data: Vec<ExtendedData>,
}

/// The values of a record's row: id, kind, content, size (0 when unknown, taken as a
/// signed integer), favourite flag as 0 or 1, notes, timestamp.
pub open spec fn spec_record_params(item: ClipboardItem) -> Seq<SqlValueModel> {
    seq![
        SqlValueModel::Text(item.id@),
        SqlValueModel::Text(item.item_type@),
        SqlValueModel::Text(item.content@),
        SqlValueModel::Integer(
            match item.size {
                Some(n) => n as i64,
                None => 0,
            },
        ),
        SqlValueModel::Integer(if item.is_favorite {
            1
        } else {
            0
        }),
        SqlValueModel::Text(item.notes@),
        SqlValueModel::Integer(item.timestamp),
    ]
}

/// The values of a record's row.
pub fn record_params(item: &ClipboardItem) -> (res: Vec<SqlValue>)
    ensures
        values_view(res@) == spec_record_params(*item),
{
    let size: i64 = match item.size {
        Some(n) => n as i64,
        None => 0,
    };
    let fav: i64 = if item.is_favorite {
        1
    } else {
        0
    };
    let mut v: Vec<SqlValue> = Vec::new();
    v.push(SqlValue::Text(item.id.clone()));
    v.push(SqlValue::Text(item.item_type.clone()));
    v.push(SqlValue::Text(item.content.clone()));
    v.push(SqlValue::Integer(size));
    v.push(SqlValue::Integer(fav));
    v.push(SqlValue::Text(item.notes.clone()));
    v.push(SqlValue::Integer(item.timestamp));
    assert(values_view(v@) =~= spec_record_params(*item));
    v
}

/// Stores a record, replacing one with the same id.
pub const INSERT_OR_REPLACE_RECORD: &'static str =
    "INSERT OR REPLACE INTO data (id, item_type, content, size, is_favorite, notes, timestamp) VALUES (?1, ?2, ?3, ?4, ?5, ?6, ?7)";

/// Stores a record unless one with the same id exists.
pub const INSERT_RECORD_IF_NEW: &'static str =
    "INSERT OR IGNORE INTO data (id, item_type, content, size, is_favorite, notes, timestamp) \n             VALUES (?1, ?2, ?3, ?4, ?5, ?6, ?7)";

/// Stores a folder unless one with the same id exists.
pub const INSERT_FOLDER_IF_NEW: &'static str =
    "INSERT OR IGNORE INTO folders (id, name, num_items) \n             VALUES (?1, ?2, ?3)";

/// Stores a folder link unless it exists.
pub const INSERT_LINK_IF_NEW: &'static str =
    "INSERT OR IGNORE INTO folder_items (folder_id, item_id) \n             VALUES (?1, ?2)";

/// Stores extended data unless the record has some.
pub const INSERT_EXTENDED_IF_NEW: &'static str =
    "INSERT OR IGNORE INTO extended_data (item_id, ocr_text, icon_data) \n             VALUES (?1, ?2, ?3)";

/// The statement that stores a received record, replacing one with the same id.
pub fn build_insert_query(item: &ClipboardItem) -> (res: SqlQuery)
    ensures
        res.sql@ == INSERT_OR_REPLACE_RECORD@,
        values_view(res.params@) == spec_record_params(*item),
{
    SqlQuery { sql: INSERT_OR_REPLACE_RECORD.to_string(), params: record_params(item) }
}

/// A statement modelled: its SQL and its values.
pub open spec fn query_view(q: SqlQuery) -> (Seq<char>, Seq<SqlValueModel>) {
    (q.sql@, values_view(q.params@))
}

/// The statements of a list of queries.
pub open spec fn queries_view(qs: Seq<SqlQuery>) -> Seq<(Seq<char>, Seq<SqlValueModel>)> {
    qs.map_values(|q: SqlQuery| query_view(q))
}

/// The statements that merge a cloud copy into the history, in the order they run:
/// each record, each folder, each folder link and each extended-data row, every one
/// kept out when a row with its key exists already.
pub open spec fn spec_sync_statements(d: SyncData) -> Seq<(Seq<char>, Seq<SqlValueModel>)> {
    d.data@.map_values(|it: ClipboardItem| (INSERT_RECORD_IF_NEW@, spec_record_params(it)))
        + d.folders@.map_values(
        |f: FolderItem|
            (
                INSERT_FOLDER_IF_NEW@,
                seq![
                    SqlValueModel::Text(f.id@),
                    SqlValueModel::Text(f.name@),
                    SqlValueModel::Integer(f.num_items as i64),
                ],
            ),
    ) + d.folder_items@.map_values(
        |r: FolderItemRelation|
            (
                INSERT_LINK_IF_NEW@,
                seq![SqlValueModel::Text(r.folder_id@), SqlValueModel::Text(r.item_id@)],
            ),
    ) + d.extended_data@.map_values(
        |e: ExtendedData|
            (
                INSERT_EXTENDED_IF_NEW@,
                seq![
                    SqlValueModel::Text(e.item_id@),
                    opt_text_model(e.ocr_text),
                    opt_text_model(e.icon_data),
                ],
            ),
    )
}

/// The statements that merge the cloud copy `d` into the history, to run in one
/// transaction.
pub fn sync_statements(d: &SyncData) -> (res: Vec<SqlQuery>)
    ensures
        queries_view(res@) == spec_sync_statements(*d),
{
    let mut out: Vec<SqlQuery> = Vec::new();
    let mut i: usize = 0;
    while i < d.data.len()
        invariant
            i <= d.data.len(),
            queries_view(out@) == d.data@.subrange(0, i as int).map_values(
                |it: ClipboardItem| (INSERT_RECORD_IF_NEW@, spec_record_params(it)),
            ),
        decreases d.data.len() - i,
    {
        let q = SqlQuery { sql: INSERT_RECORD_IF_NEW.to_string(), params: record_params(&d.data[i]) };
        let ghost o = out@;
        let ghost qv = query_view(q);
        out.push(q);
        assert(queries_view(out@) =~= queries_view(o).push(qv));
        assert(d.data@.subrange(0, i + 1) == d.data@.subrange(0, i as int).push(d.data@[i as int]));
        assert(queries_view(out@) =~= d.data@.subrange(0, i + 1).map_values(
            |it: ClipboardItem| (INSERT_RECORD_IF_NEW@, spec_record_params(it)),
        ));
        i += 1;
    }
    assert(d.data@.subrange(0, d.data.len() as int) == d.data@);
    let ghost a = queries_view(out@);
    let mut j: usize = 0;
    while j < d.folders.len()
        invariant
            j <= d.folders.len(),
            queries_view(out@) == a + d.folders@.subrange(0, j as int).map_values(
                |f: FolderItem|
                    (
                        INSERT_FOLDER_IF_NEW@,
                        seq![
                            SqlValueModel::Text(f.id@),
                            SqlValueModel::Text(f.name@),
                            SqlValueModel::Integer(f.num_items as i64),
                        ],
                    ),
            ),
        decreases d.folders.len() - j,
    {
        let f = &d.folders[j];
        let mut p: Vec<SqlValue> = Vec::new();
        p.push(SqlValue::Text(f.id.clone()));
        p.push(SqlValue::Text(f.name.clone()));
        p.push(SqlValue::Integer(f.num_items as i64));
        assert(values_view(p@) =~= seq![
            SqlValueModel::Text(f.id@),
            SqlValueModel::Text(f.name@),
            SqlValueModel::Integer(f.num_items as i64),
        ]);
        let q = SqlQuery { sql: INSERT_FOLDER_IF_NEW.to_string(), params: p };
        let ghost o = out@;
        let ghost qv = query_view(q);
        out.push(q);
        assert(queries_view(out@) =~= queries_view(o).push(qv));
        assert(d.folders@.subrange(0, j + 1) == d.folders@.subrange(0, j as int).push(
            d.folders@[j as int],
        ));
        assert(queries_view(out@) =~= a + d.folders@.subrange(0, j + 1).map_values(
            |f: FolderItem|
                (
                    INSERT_FOLDER_IF_NEW@,
                    seq![
                        SqlValueModel::Text(f.id@),
                        SqlValueModel::Text(f.name@),
                        SqlValueModel::Integer(f.num_items as i64),
                    ],
                ),
        ));
        j += 1;
    }
    assert(d.folders@.subrange(0, d.folders.len() as int) == d.folders@);
    let ghost b = queries_view(out@);
    let mut k: usize = 0;
    while k < d.folder_items.len()
        invariant
            k <= d.folder_items.len(),
            queries_view(out@) == b + d.folder_items@.subrange(0, k as int).map_values(
                |r: FolderItemRelation|
                    (
                        INSERT_LINK_IF_NEW@,
                        seq![SqlValueModel::Text(r.folder_id@), SqlValueModel::Text(r.item_id@)],
                    ),
            ),
        decreases d.folder_items.len() - k,
    {
        let r = &d.folder_items[k];
        let mut p: Vec<SqlValue> = Vec::new();
        p.push(SqlValue::Text(r.folder_id.clone()));
        p.push(SqlValue::Text(r.item_id.clone()));
        assert(values_view(p@) =~= seq![
            SqlValueModel::Text(r.folder_id@),
            SqlValueModel::Text(r.item_id@),
        ]);
        let q = SqlQuery { sql: INSERT_LINK_IF_NEW.to_string(), params: p };
        let ghost o = out@;
        let ghost qv = query_view(q);
        out.push(q);
        assert(queries_view(out@) =~= queries_view(o).push(qv));
        assert(d.folder_items@.subrange(0, k + 1) == d.folder_items@.subrange(0, k as int).push(
            d.folder_items@[k as int],
        ));
        assert(queries_view(out@) =~= b + d.folder_items@.subrange(0, k + 1).map_values(
            |r: FolderItemRelation|
                (
                    INSERT_LINK_IF_NEW@,
                    seq![SqlValueModel::Text(r.folder_id@), SqlValueModel::Text(r.item_id@)],
                ),
        ));
        k += 1;
    }
    assert(d.folder_items@.subrange(0, d.folder_items.len() as int) == d.folder_items@);
    let ghost c = queries_view(out@);
    let mut m: usize = 0;
    while m < d.extended_data.len()
        invariant
            m <= d.extended_data.len(),
            queries_view(out@) == c + d.extended_data@.subrange(0, m as int).map_values(
                |e: ExtendedData|
                    (
                        INSERT_EXTENDED_IF_NEW@,
                        seq![
                            SqlValueModel::Text(e.item_id@),
                            opt_text_model(e.ocr_text),
                            opt_text_model(e.icon_data),
                        ],
                    ),
            ),
        decreases d.extended_data.len() - m,
    {
        let e = &d.extended_data[m];
        let mut p: Vec<SqlValue> = Vec::new();
        p.push(SqlValue::Text(e.item_id.clone()));
        p.push(opt_text_value(&e.ocr_text));
        p.push(opt_text_value(&e.icon_data));
        assert(values_view(p@) =~= seq![
            SqlValueModel::Text(e.item_id@),
            opt_text_model(e.ocr_text),
            opt_text_model(e.icon_data),
        ]);
        let q = SqlQuery { sql: INSERT_EXTENDED_IF_NEW.to_string(), params: p };
        let ghost o = out@;
        let ghost qv = query_view(q);
        out.push(q);
        assert(queries_view(out@) =~= queries_view(o).push(qv));
        assert(d.extended_data@.subrange(0, m + 1) == d.extended_data@.subrange(0, m as int).push(
            d.extended_data@[m as int],
        ));
        assert(queries_view(out@) =~= c + d.extended_data@.subrange(0, m + 1).map_values(
            |e: ExtendedData|
                (
                    INSERT_EXTENDED_IF_NEW@,
                    seq![
                        SqlValueModel::Text(e.item_id@),
                        opt_text_model(e.ocr_text),
                        opt_text_model(e.icon_data),
                    ],
                ),
        ));
        m += 1;
    }
    assert(d.extended_data@.subrange(0, d.extended_data.len() as int) == d.extended_data@);
    out
}

} // verus!
