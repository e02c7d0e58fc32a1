//! Rules for the files the application keeps: the names of copies and backups, which
//! backup to restore and what it must hold, where received files may be written, the
//! MIME type a file is sent with, and the commands that hand a file to the system
//! clipboard.
use vstd::prelude::*;
use crate::paths::{path_join, spec_path_join};
use crate::text::{
    bool_text, ends_with, from_chars, is_numeric, replace_all, spec_ends_with, spec_is_numeric,
    spec_replace, spec_starts_with, spec_to_lowercase, starts_with, str_eq, suffix_from,
    to_chars, to_lowercase,
};
use vstd::string::StringExecFns;
use base64::Engine;

verus! {

broadcast use vstd::string::group_string_axioms;

// ---------------------------------------------------------------- copied file names

/// How many bytes UTF-8 takes for `c`.
pub open spec fn utf8_len(c: char) -> int {
    if (c as u32) < 0x80 {
        1
    } else if (c as u32) < 0x800 {
        2
    } else if (c as u32) < 0x10000 {
        3
    } else {
        4
    }
}

/// How many bytes UTF-8 takes for `s`.
pub open spec fn utf8_byte_len(s: Seq<char>) -> int
    decreases s.len(),
{
    if s.len() == 0 {
        0
    } else {
        utf8_byte_len(s.drop_last()) + utf8_len(s.last())
    }
}

/// The position of the first `c` in `s`, if any.
pub open spec fn first_index_of(s: Seq<char>, c: char) -> Option<int> {
    if exists|i: int| 0 <= i < s.len() && s[i] == c {
        Some(choose|i: int| 0 <= i < s.len() && s[i] == c && forall|j: int| 0 <= j < i ==> s[j] != c)
    } else {
        None
    }
}

/// A kept file's name without the time stamp put in front of it: when the part before
/// the first hyphen is 13 bytes long and all numeric, the part after it; else the name.
pub open spec fn spec_strip_timestamp(name: Seq<char>) -> Seq<char> {
    match first_index_of(name, '-') {
        Some(i) => {
            let prefix = name.subrange(0, i);
            if utf8_byte_len(prefix) == 13 && forall|k: int|
                0 <= k < prefix.len() ==> spec_is_numeric(#[trigger] prefix[k]) {
                name.skip(i + 1)
            } else {
                name
            }
        },
        None => name,
    }
}

/// A longer start of a text takes at least as many bytes.
pub proof fn lemma_utf8_byte_len_grows(s: Seq<char>, k: int, i: int)
    requires
        0 <= k <= i <= s.len(),
    ensures
        utf8_byte_len(s.subrange(0, k)) <= utf8_byte_len(s.subrange(0, i)),
    decreases i - k,
{
    if k < i {
        lemma_utf8_byte_len_grows(s, k, i - 1);
        assert(s.subrange(0, i).drop_last() == s.subrange(0, i - 1));
    }
}

fn char_utf8_len(c: char) -> (res: usize)
    ensures
        res == utf8_len(c),
{
    let n = c as u32;
    if n < 0x80 {
        1
    } else if n < 0x800 {
        2
    } else if n < 0x10000 {
        3
    } else {
        4
    }
}

/// The name a kept file is handed back under: without its time stamp.
pub fn strip_timestamp_prefix(file_name: &str) -> (res: String)
    ensures
        res@ == spec_strip_timestamp(file_name@),
{
    let v = to_chars(file_name);
    let mut i: usize = 0;
    while i < v.len() && v[i] != '-'
        invariant
            i <= v.len(),
            forall|j: int| 0 <= j < i ==> v@[j] != '-',
        decreases v.len() - i,
    {
        i += 1;
    }
    if i == v.len() {
        assert(!exists|k: int| 0 <= k < v@.len() && v@[k] == '-');
        return file_name.to_string();
    }
    assert(first_index_of(v@, '-') == Some(i as int)) by {
        assert(v@[i as int] == '-');
        let c = choose|k: int|
            0 <= k < v@.len() && v@[k] == '-' && forall|j: int| 0 <= j < k ==> v@[j] != '-';
        assert(0 <= c < v@.len() && v@[c] == '-' && forall|j: int| 0 <= j < c ==> v@[j] != '-');
        if c < i {
        } else if c > i {
            assert(v@[i as int] != '-');
        }
    }
    let ghost prefix = v@.subrange(0, i as int);
    let mut bytes: usize = 0;
    let mut numeric = true;
    let mut k: usize = 0;
    while k < i && bytes <= 13
        invariant
            k <= i < v.len(),
            prefix == v@.subrange(0, i as int),
            bytes == utf8_byte_len(v@.subrange(0, k as int)),
            bytes <= 17,
            numeric == forall|m: int| 0 <= m < k ==> spec_is_numeric(#[trigger] v@[m]),
        decreases i - k,
    {
        assert(v@.subrange(0, k + 1).drop_last() == v@.subrange(0, k as int));
        bytes = bytes + char_utf8_len(v[k]);
        let isn = is_numeric(v[k]);
        if !isn {
            numeric = false;
        }
        k += 1;
    }
    if k < i {
        proof {
            lemma_utf8_byte_len_grows(v@, k as int, i as int);
        }
        return file_name.to_string();
    }
    assert(k == i);
    assert forall|m: int| 0 <= m < prefix.len() implies spec_is_numeric(prefix[m])
        == spec_is_numeric(v@[m]) by {}
    if numeric {
        assert forall|m: int| 0 <= m < prefix.len() implies spec_is_numeric(#[trigger] prefix[m]) by {
            assert(prefix[m] == v@[m]);
        }
    } else {
        let ghost m = choose|m: int| 0 <= m < k && !spec_is_numeric(#[trigger] v@[m]);
        assert(prefix[m] == v@[m]);
    }
    if bytes == 13 && numeric {
        from_chars(&suffix_from(&v, i + 1))
    } else {
        file_name.to_string()
    }
}

// ---------------------------------------------------------------- MIME types

/// The MIME type a file is sent with, by its extension in lower case.
pub open spec fn spec_mime(ext: Option<Seq<char>>) -> Seq<char> {
    match ext {
        None => "application/octet-stream"@,
        Some(e) => {
            let l = spec_to_lowercase(e);
            if l == "png"@ {
                "image/png"@
            } else if l == "jpg"@ || l == "jpeg"@ {
                "image/jpeg"@
            } else if l == "gif"@ {
                "image/gif"@
            } else if l == "webp"@ {
                "image/webp"@
            } else if l == "svg"@ {
                "image/svg+xml"@
            } else if l == "txt"@ {
                "text/plain"@
            } else if l == "pdf"@ {
                "application/pdf"@
            } else if l == "json"@ {
                "application/json"@
            } else if l == "html"@ {
                "text/html"@
            } else if l == "css"@ {
                "text/css"@
            } else if l == "js"@ {
                "application/javascript"@
            } else if l == "zip"@ {
                "application/zip"@
            } else {
                "application/octet-stream"@
            }
        },
    }
}

/// The MIME type for a file with this extension (if it has one that is valid Unicode).
pub fn mime_for_extension(extension: Option<&str>) -> (res: String)
    ensures
        res@ == spec_mime(
            match extension {
                Some(e) => Some(e@),
                None => None,
            },
        ),
{
    let e = match extension {
        Some(e) => e,
        None => {
            return "application/octet-stream".to_string();
        },
    };
    let l = to_lowercase(e);
    let s = l.as_str();
    if str_eq(s, "png") {
        "image/png".to_string()
    } else if str_eq(s, "jpg") || str_eq(s, "jpeg") {
        "image/jpeg".to_string()
    } else if str_eq(s, "gif") {
        "image/gif".to_string()
    } else if str_eq(s, "webp") {
        "image/webp".to_string()
    } else if str_eq(s, "svg") {
        "image/svg+xml".to_string()
    } else if str_eq(s, "txt") {
        "text/plain".to_string()
    } else if str_eq(s, "pdf") {
        "application/pdf".to_string()
    } else if str_eq(s, "json") {
        "application/json".to_string()
    } else if str_eq(s, "html") {
        "text/html".to_string()
    } else if str_eq(s, "css") {
        "text/css".to_string()
    } else if str_eq(s, "js") {
        "application/javascript".to_string()
    } else if str_eq(s, "zip") {
        "application/zip".to_string()
    } else {
        "application/octet-stream".to_string()
    }
}

/// A file read for the front end: its name, its bytes in Base64 and its MIME type.
#[derive(Debug, PartialEq)]
pub struct FrontendFile {
    pub name: String,
    pub data: String,
    pub mime: String,
}

/// A kept file offered for upload: its path below the files folder and its full path,
/// both with forward slashes.
#[derive(Debug, PartialEq)]
pub struct LocalFileInfo {
    pub relative_path: String,
    pub file_path: String,
}

/// `s` with backslashes turned into forward slashes.
pub open spec fn slashes(s: Seq<char>) -> Seq<char> {
    spec_replace(s, "\\"@, "/"@)
}

/// The upload entry for a kept file, both paths with forward slashes.
pub fn local_file_info(relative_path: &str, file_path: &str) -> (res: LocalFileInfo)
    ensures
        res.relative_path@ == slashes(relative_path@),
        res.file_path@ == slashes(file_path@),
{
    LocalFileInfo {
        relative_path: crate::paths::normalize_to_forward_slashes(relative_path),
        file_path: crate::paths::normalize_to_forward_slashes(file_path),
    }
}

// ---------------------------------------------------------------- received files

/// Whether a ".." part between separators starts at position `i` of `p`.
pub open spec fn parent_part_at(p: Seq<char>, i: int) -> bool {
    0 <= i && i + 2 <= p.len() && p[i] == '.' && p[i + 1] == '.' && (i == 0 || p[i - 1] == '/') && (
    i + 2 == p.len() || p[i + 2] == '/')
}

/// Whether a path has a ".." part between separators.
pub open spec fn spec_has_parent_part(p: Seq<char>) -> bool {
    exists|i: int| #[trigger] parent_part_at(p, i)
}

/// Whether a path has a ".." part between separators (a parent-directory component).
pub fn has_parent_part(p: &str) -> (res: bool)
    ensures
        res == spec_has_parent_part(p@),
{
    let v = to_chars(p);
    let mut i: usize = 0;
    while i < v.len()
        invariant
            v@ == p@,
            i <= v.len(),
            forall|j: int| 0 <= j < i ==> !#[trigger] parent_part_at(v@, j),
        decreases v.len() - i,
    {
        if v.len() >= 2 && i <= v.len() - 2 && v[i] == '.' && v[i + 1] == '.' && (i == 0 || v[i - 1]
            == '/') && (i == v.len() - 2 || v[i + 2] == '/') {
            assert(parent_part_at(v@, i as int));
            return true;
        }
        i += 1;
    }
    assert forall|j: int| !#[trigger] parent_part_at(v@, j) by {
        if 0 <= j < v@.len() {
        }
    }
    false
}

/// Where a received file is written: `relative_path` below the files folder, unless the
/// path climbs out of it with a ".." part, which is refused.
pub fn received_file_target(files_dir: &str, relative_path: &str) -> (res: Result<String, String>)
    ensures
        !spec_has_parent_part(spec_path_join(files_dir@, relative_path@)) ==> res is Ok
            && res->Ok_0@ == spec_path_join(files_dir@, relative_path@),
        spec_has_parent_part(spec_path_join(files_dir@, relative_path@)) ==> res is Err
            && res->Err_0@ == "相对路径包含非法字符 '..'"@,
{
    let target = path_join(files_dir, relative_path);
    if has_parent_part(target.as_str()) {
        Err("相对路径包含非法字符 '..'".to_string())
    } else {
        Ok(target)
    }
}

/// Handing files to the clipboard needs at least one path.
pub fn require_selection(paths: &Vec<String>) -> (res: Result<(), String>)
    ensures
        paths.len() == 0 ==> res is Err && res->Err_0@ == "未选择任何内容"@,
        paths.len() > 0 ==> res is Ok,
{
    if paths.len() == 0 {
        Err("未选择任何内容".to_string())
    } else {
        Ok(())
    }
}

/// The paths that were prepared, in order.
pub open spec fn prepared_paths(results: Seq<Result<String, String>>) -> Seq<Seq<char>>
    decreases results.len(),
{
    if results.len() == 0 {
        Seq::empty()
    } else {
        let prev = prepared_paths(results.drop_last());
        match results.last() {
            Ok(p) => prev.push(p@),
            Err(_) => prev,
        }
    }
}

/// The prepared copies of the chosen files, skipping those that failed; when all
/// failed, "所有内容处理失败".
pub fn collect_prepared(results: Vec<Result<String, String>>) -> (res: Result<Vec<String>, String>)
    ensures
        prepared_paths(results@).len() == 0 ==> res is Err && res->Err_0@ == "所有内容处理失败"@,
        prepared_paths(results@).len() > 0 ==> (res matches Ok(v) && v@.map_values(|s: String| s@)
            == prepared_paths(results@)),
{
    let mut out: Vec<String> = Vec::new();
    let mut i: usize = 0;
    while i < results.len()
        invariant
            i <= results.len(),
            out@.map_values(|s: String| s@) == prepared_paths(results@.subrange(0, i as int)),
        decreases results.len() - i,
    {
        assert(results@.subrange(0, i + 1).drop_last() == results@.subrange(0, i as int));
        match &results[i] {
            Ok(p) => {
                out.push(p.clone());
                assert(out@.map_values(|s: String| s@) =~= prepared_paths(
                    results@.subrange(0, i as int),
                ).push(p@));
            },
            Err(_) => {},
        }
        i += 1;
    }
    assert(results@.subrange(0, results.len() as int) == results@);
    if out.len() == 0 {
        Err("所有内容处理失败".to_string())
    } else {
        Ok(out)
    }
}

/// The PowerShell script that puts one file on the Windows clipboard, single quotes in
/// the path doubled.
pub fn powershell_file_drop_script(file_path: &str) -> (res: String)
    ensures
        res@ == "$sc = New-Object System.Collections.Specialized.StringCollection; $sc.Add('"@
            + spec_replace(file_path@, "'"@, "''"@)
            + "'); Add-Type -AssemblyName System.Windows.Forms; [System.Windows.Forms.Clipboard]::SetFileDropList($sc);"@,
{
    proof {
        reveal_strlit("'");
    }
    let escaped = from_chars(&replace_all(&to_chars(file_path), &to_chars("'"), &to_chars("''")));
    let mut s = "$sc = New-Object System.Collections.Specialized.StringCollection; $sc.Add('".to_string();
    s.append(escaped.as_str());
    s.append(
        "'); Add-Type -AssemblyName System.Windows.Forms; [System.Windows.Forms.Clipboard]::SetFileDropList($sc);",
    );
    s
}

/// The AppleScript that puts one file on the macOS clipboard, double quotes escaped.
pub fn applescript_file_command(file_path: &str) -> (res: String)
    ensures
        res@ == "set the clipboard to POSIX file \""@ + spec_replace(file_path@, "\""@, "\\\""@)
            + "\""@,
{
    proof {
        reveal_strlit("\"");
    }
    let escaped = from_chars(&replace_all(&to_chars(file_path), &to_chars("\""), &to_chars("\\\"")));
    let mut s = "set the clipboard to POSIX file \"".to_string();
    s.append(escaped.as_str());
    s.append("\"");
    s
}

/// The URI that puts one file on the Linux clipboard.
pub fn file_uri(file_path: &str) -> (res: String)
    ensures
        res@ == "file://"@ + file_path@,
{
    let mut s = "file://".to_string();
    s.append(file_path);
    s
}

/// Whether `c` is an ASCII digit.
pub open spec fn is_ascii_digit(c: char) -> bool {
    '0' <= c && c <= '9'
}

/// The two characters of `s` at `i` and `i + 1` are ASCII digits.
pub open spec fn two_digits_at(s: Seq<char>, i: int) -> bool {
    is_ascii_digit(s[i]) && is_ascii_digit(s[i + 1])
}

/// The shape of a "%Y-%m-%d_%H-%M-%S" stamp: a year of at least four characters, then
/// "-MM-DD_HH-MM-SS" with two digits for each field.
pub open spec fn is_time_stamp(s: Seq<char>) -> bool {
    let n = s.len() as int;
    &&& n >= 19
    &&& s[n - 15] == '-' && two_digits_at(s, n - 14)
    &&& s[n - 12] == '-' && two_digits_at(s, n - 11)
    &&& s[n - 9] == '_' && two_digits_at(s, n - 8)
    &&& s[n - 6] == '-' && two_digits_at(s, n - 5)
    &&& s[n - 3] == '-' && two_digits_at(s, n - 2)
}

/// The local date and time as "%Y-%m-%d_%H-%M-%S" (`chrono::Local::now().format`).
/// Trusted; the value depends on the clock and the time zone. What is stated is the
/// shape chrono documents for these fields: the year zero-padded to at least four
/// characters (with a sign outside 0 to 9999), the others two digits each.
#[verifier::external_body]
fn local_time_stamp() -> (res: String)
    ensures
        is_time_stamp(res@),
{
    chrono::Local::now().format("%Y-%m-%d_%H-%M-%S").to_string()
}

/// The name of a backup made now: "backup_", the local date and time, ".zip". Such a
/// name is always recognised as a backup when restoring.
pub fn new_backup_file_name() -> (res: String)
    ensures
        exists|stamp: Seq<char>| is_time_stamp(stamp) && res@ == "backup_"@ + stamp + ".zip"@,
        spec_is_backup_name(res@),
{
    let stamp = local_time_stamp();
    let name = backup_file_name(stamp.as_str());
    proof {
        lemma_backup_names_recognised(stamp@);
    }
    name
}

/// Every name made by `backup_file_name` is recognised as a backup.
pub proof fn lemma_backup_names_recognised(stamp: Seq<char>)
    ensures
        spec_is_backup_name("backup_"@ + stamp + ".zip"@),
{
    reveal_strlit("backup_");
    reveal_strlit(".zip");
    let n = "backup_"@ + stamp + ".zip"@;
    assert(n.subrange(0, 7) =~= "backup_"@);
    assert(n.subrange(n.len() - 4, n.len() as int) =~= ".zip"@);
}

// ---------------------------------------------------------------- Base64

/// What the standard Base64 engine of the base64 crate writes for these bytes.
pub uninterp spec fn spec_base64_encode(bytes: Seq<u8>) -> Seq<char>;

/// What the standard Base64 engine of the base64 crate reads from this text, if it is
/// valid Base64.
pub uninterp spec fn spec_base64_decode(text: Seq<char>) -> Option<Seq<u8>>;

/// Encodes bytes with the standard Base64 alphabet and padding
/// (`base64::engine::general_purpose::STANDARD.encode`). Trusted: the text depends on the
/// bytes alone and is named.
#[verifier::external_body]
fn base64_encode(bytes: &[u8]) -> (res: String)
    ensures
        res@ == spec_base64_encode(bytes@),
{
    base64::engine::general_purpose::STANDARD.encode(bytes)
}

/// Decodes standard Base64 (`base64::engine::general_purpose::STANDARD.decode`), the
/// error turned into its message. Trusted: the outcome depends on the text alone and is
/// named; the wording of the error is not stated.
#[verifier::external_body]
fn base64_decode(text: &str) -> (res: Result<Vec<u8>, String>)
    ensures
        match spec_base64_decode(text@) {
            Some(b) => res is Ok && res->Ok_0@ == b,
            None => res is Err,
        },
{
    match base64::engine::general_purpose::STANDARD.decode(text) {
        Ok(v) => Ok(v),
        Err(e) => Err(e.to_string()),
    }
}

/// A file for the front end: its name, its bytes in Base64, and the MIME type of its
/// extension.
pub fn frontend_file(name: String, bytes: &Vec<u8>, extension: Option<&str>) -> (res: FrontendFile)
    ensures
        res.name == name,
        res.data@ == spec_base64_encode(bytes@),
        res.mime@ == spec_mime(
            match extension {
                Some(e) => Some(e@),
                None => None,
            },
        ),
{
    let data = base64_encode(bytes.as_slice());
    let mime = mime_for_extension(extension);
    FrontendFile { name, data, mime }
}

/// The bytes of a file's contents in Base64.
pub fn encode_file_contents(bytes: &Vec<u8>) -> (res: String)
    ensures
        res@ == spec_base64_encode(bytes@),
{
    base64_encode(bytes.as_slice())
}

/// The bytes of a received file sent in Base64; invalid Base64 is refused with
/// "Base64 解码失败: " and the decoder's message.
pub fn decode_received_contents(content: &str) -> (res: Result<Vec<u8>, String>)
    ensures
        match spec_base64_decode(content@) {
            Some(b) => res is Ok && res->Ok_0@ == b,
            None => res is Err && spec_starts_with(res->Err_0@, "Base64 解码失败: "@),
        },
{
    match base64_decode(content) {
        Ok(v) => Ok(v),
        Err(e) => {
            let mut msg = "Base64 解码失败: ".to_string();
            let ghost prefix = msg@;
            msg.append(e.as_str());
            assert(msg@.subrange(0, prefix.len() as int) =~= prefix);
            Err(msg)
        },
    }
}

// ---------------------------------------------------------------- backups

/// The name of a backup made at the time written as `stamp`.
pub fn backup_file_name(stamp: &str) -> (res: String)
    ensures
        res@ == "backup_"@ + stamp@ + ".zip"@,
{
    let mut s = "backup_".to_string();
    s.append(stamp);
    s.append(".zip");
    s
}

/// What a backup holds, in order: the settings, the database, and the files folder.
pub fn backup_targets() -> (res: Vec<(&'static str, bool)>)
    ensures
        res@.len() == 3,
        res@[0].0@ == "config.json"@ && !res@[0].1,
        res@[1].0@ == "smartpaste.db"@ && !res@[1].1,
        res@[2].0@ == "files"@ && res@[2].1,
{
    let mut v: Vec<(&'static str, bool)> = Vec::new();
    v.push(("config.json", false));
    v.push(("smartpaste.db", false));
    v.push(("files", true));
    v
}

/// The name of an entry in a backup archive: the name alone at the top, else below its
/// folder with a forward slash.
pub fn zip_entry_name(prefix: &str, name: &str) -> (res: String)
    ensures
        prefix@.len() == 0 ==> res@ == name@,
        prefix@.len() > 0 ==> res@ == prefix@ + "/"@ + name@,
{
    if prefix.is_empty() {
        name.to_string()
    } else {
        let mut s = prefix.to_string();
        s.append("/");
        s.append(name);
        s
    }
}

/// Whether a file name is that of a backup: "backup_" at the start and ".zip" at the end.
pub open spec fn spec_is_backup_name(n: Seq<char>) -> bool {
    spec_starts_with(n, "backup_"@) && spec_ends_with(n, ".zip"@)
}

/// Whether a file name is that of a backup.
pub fn is_backup_name(name: &str) -> (res: bool)
    ensures
        res == spec_is_backup_name(name@),
{
    let v = to_chars(name);
    starts_with(&v, &to_chars("backup_")) && ends_with(&v, &to_chars(".zip"))
}

/// Whether `a` comes before `b` in the order of their characters' code points (the
/// order of their UTF-8 bytes).
pub open spec fn lex_lt(a: Seq<char>, b: Seq<char>) -> bool
    decreases a.len(),
{
    if a.len() == 0 {
        b.len() > 0
    } else if b.len() == 0 {
        false
    } else if a[0] != b[0] {
        a[0] < b[0]
    } else {
        lex_lt(a.skip(1), b.skip(1))
    }
}

/// The order is transitive.
pub proof fn lemma_lex_lt_transitive(a: Seq<char>, b: Seq<char>, c: Seq<char>)
    requires
        lex_lt(a, b),
        lex_lt(b, c),
    ensures
        lex_lt(a, c),
    decreases a.len(),
{
    if a.len() > 0 && b.len() > 0 && c.len() > 0 && a[0] == b[0] && b[0] == c[0] {
        lemma_lex_lt_transitive(a.skip(1), b.skip(1), c.skip(1));
    }
}

/// Of two different names, one comes before the other.
pub proof fn lemma_lex_lt_total(a: Seq<char>, b: Seq<char>)
    ensures
        lex_lt(a, b) || lex_lt(b, a) || a == b,
    decreases a.len(),
{
    if a.len() > 0 && b.len() > 0 && a[0] == b[0] {
        lemma_lex_lt_total(a.skip(1), b.skip(1));
        if a.skip(1) == b.skip(1) {
            assert(a =~= seq![a[0]] + a.skip(1));
            assert(b =~= seq![b[0]] + b.skip(1));
        }
    } else if a.len() == 0 && b.len() == 0 {
        assert(a =~= b);
    }
}

fn lex_less(a: &str, b: &str) -> (res: bool)
    ensures
        res == lex_lt(a@, b@),
{
    let va = to_chars(a);
    let vb = to_chars(b);
    let mut i: usize = 0;
    assert(va@.skip(0) == va@ && vb@.skip(0) == vb@);
    while i < va.len() && i < vb.len() && va[i] == vb[i]
        invariant
            i <= va.len(),
            i <= vb.len(),
            lex_lt(va@.skip(i as int), vb@.skip(i as int)) == lex_lt(va@, vb@),
        decreases va.len() - i,
    {
        assert(va@.skip(i as int).skip(1) == va@.skip(i + 1));
        assert(vb@.skip(i as int).skip(1) == vb@.skip(i + 1));
        i += 1;
    }
    if i == va.len() {
        i < vb.len()
    } else if i == vb.len() {
        false
    } else {
        va[i] < vb[i]
    }
}

/// Entry `i` of `names` is a backup and no backup comes after it in name order.
pub open spec fn is_latest_backup(names: Seq<Seq<char>>, i: int) -> bool {
    &&& 0 <= i < names.len()
    &&& spec_is_backup_name(names[i])
    &&& forall|j: int|
        0 <= j < names.len() && spec_is_backup_name(names[j]) ==> !lex_lt(names[i], #[trigger] names[j])
}

/// Which of the file names in the storage directory is the backup to restore: the
/// backups' names hold their time stamps, so the one that sorts last is the newest;
/// when there is none, the message says so.
pub fn latest_backup(names: &Vec<String>) -> (res: Result<usize, String>)
    ensures
        res matches Ok(i) ==> is_latest_backup(names@.map_values(|s: String| s@), i as int),
        res is Err <==> forall|j: int|
            0 <= j < names@.len() ==> !spec_is_backup_name(#[trigger] names@[j]@),
        res is Err ==> res->Err_0@ == "未找到任何以 backup_ 开头的 zip 备份文件"@,
{
    let ghost nv = names@.map_values(|s: String| s@);
    let mut best: Option<usize> = None;
    let mut i: usize = 0;
    while i < names.len()
        invariant
            nv == names@.map_values(|s: String| s@),
            i <= names.len(),
            best is None ==> forall|j: int| 0 <= j < i ==> !spec_is_backup_name(#[trigger] nv[j]),
            best matches Some(b) ==> b < i && spec_is_backup_name(nv[b as int]) && forall|j: int|
                0 <= j < i && spec_is_backup_name(nv[j]) ==> !lex_lt(nv[b as int], #[trigger] nv[j]),
        decreases names.len() - i,
    {
        assert(nv[i as int] == names@[i as int]@);
        if is_backup_name(names[i].as_str()) {
            match best {
                None => {
                    proof {
                        lemma_lex_lt_irreflexive(nv[i as int]);
                    }
                    best = Some(i);
                },
                Some(b) => {
                    if !lex_less(names[i].as_str(), names[b].as_str()) {
                        proof {
                            let c = nv[i as int];
                            let o = nv[b as int];
                            assert forall|j: int|
                                0 <= j < i + 1 && spec_is_backup_name(nv[j]) implies !lex_lt(
                                c,
                                #[trigger] nv[j],
                            ) by {
                                if j < i {
                                    if lex_lt(c, nv[j]) {
                                        lemma_lex_lt_total(o, nv[j]);
                                        if lex_lt(nv[j], o) {
                                            lemma_lex_lt_transitive(c, nv[j], o);
                                        }
                                    }
                                } else {
                                    lemma_lex_lt_total(c, c);
                                    lemma_lex_lt_irreflexive(c);
                                }
                            }
                        }
                        best = Some(i);
                    } else {
                        proof {
                            let o = nv[b as int];
                            assert(lex_lt(nv[i as int], o));
                            lemma_lex_lt_asymmetric(nv[i as int], o);
                        }
                    }
                },
            }
        }
        i += 1;
    }
    match best {
        Some(b) => Ok(b),
        None => {
            assert(forall|j: int| 0 <= j < names@.len() ==> !spec_is_backup_name(#[trigger] names@[j]@)) by {
                assert forall|j: int| 0 <= j < names@.len() implies !spec_is_backup_name(
                    #[trigger] names@[j]@,
                ) by {
                    assert(nv[j] == names@[j]@);
                }
            }
            Err("未找到任何以 backup_ 开头的 zip 备份文件".to_string())
        },
    }
}

/// No name comes before itself.
pub proof fn lemma_lex_lt_irreflexive(a: Seq<char>)
    ensures
        !lex_lt(a, a),
    decreases a.len(),
{
    if a.len() > 0 {
        lemma_lex_lt_irreflexive(a.skip(1));
    }
}

/// Two names do not each come before the other.
pub proof fn lemma_lex_lt_asymmetric(a: Seq<char>, b: Seq<char>)
    requires
        lex_lt(a, b),
    ensures
        !lex_lt(b, a),
    decreases a.len(),
{
    if a.len() > 0 && b.len() > 0 && a[0] == b[0] {
        lemma_lex_lt_asymmetric(a.skip(1), b.skip(1));
    }
}

/// What an archive was found to hold.
#[derive(Debug, Clone, Copy, PartialEq, Eq, Structural)]
pub struct BackupContents {
    pub has_config: bool,
    pub has_db: bool,
    pub has_files: bool,
}

/// Whether an entry name lies in the files folder.
pub open spec fn in_files_folder(n: Seq<char>) -> bool {
    spec_starts_with(n, "files/"@) || spec_starts_with(n, "files\\"@)
}

fn is_in_files_folder(name: &str) -> (res: bool)
    ensures
        res == in_files_folder(name@),
{
    let v = to_chars(name);
    starts_with(&v, &to_chars("files/")) || starts_with(&v, &to_chars("files\\"))
}

/// What the entries named `names` hold: the settings file, the database, and anything
/// in the files folder.
pub fn scan_backup_entries(names: &Vec<String>) -> (res: BackupContents)
    ensures
        res.has_config == exists|j: int| 0 <= j < names@.len() && #[trigger] names@[j]@ == "config.json"@,
        res.has_db == exists|j: int| 0 <= j < names@.len() && #[trigger] names@[j]@ == "smartpaste.db"@,
        res.has_files == exists|j: int|
            0 <= j < names@.len() && names@[j]@ != "config.json"@ && names@[j]@ != "smartpaste.db"@
                && in_files_folder(#[trigger] names@[j]@),
{
    proof {
        reveal_strlit("config.json");
        reveal_strlit("smartpaste.db");
    }
    let mut c = BackupContents { has_config: false, has_db: false, has_files: false };
    let mut i: usize = 0;
    while i < names.len()
        invariant
            i <= names.len(),
            c.has_config == exists|j: int| 0 <= j < i && #[trigger] names@[j]@ == "config.json"@,
            c.has_db == exists|j: int| 0 <= j < i && #[trigger] names@[j]@ == "smartpaste.db"@,
            c.has_files == exists|j: int|
                0 <= j < i && names@[j]@ != "config.json"@ && names@[j]@ != "smartpaste.db"@
                    && in_files_folder(#[trigger] names@[j]@),
        decreases names.len() - i,
    {
        proof {
            reveal_strlit("config.json");
            reveal_strlit("smartpaste.db");
        }
        let n = names[i].as_str();
        assert("config.json"@ != "smartpaste.db"@) by {
            assert("config.json"@.len() != "smartpaste.db"@.len());
        }
        if str_eq(n, "config.json") {
            c.has_config = true;
        } else if str_eq(n, "smartpaste.db") {
            c.has_db = true;
        } else if is_in_files_folder(n) {
            c.has_files = true;
        }
        i += 1;
    }
    c
}

/// A backup may be restored only when it holds the settings, the database and the
/// files folder; otherwise the message lists what was found.
pub fn check_backup_contents(c: BackupContents) -> (res: Result<(), String>)
    ensures
        (c.has_config && c.has_db && c.has_files) ==> res is Ok,
        !(c.has_config && c.has_db && c.has_files) ==> res is Err && res->Err_0@
            == "备份文件不完整! 检查结果: config.json="@ + (if c.has_config {
            "true"@
        } else {
            "false"@
        }) + ", db="@ + (if c.has_db {
            "true"@
        } else {
            "false"@
        }) + ", files="@ + (if c.has_files {
            "true"@
        } else {
            "false"@
        }),
{
    if c.has_config && c.has_db && c.has_files {
        return Ok(());
    }
    let mut s = "备份文件不完整! 检查结果: config.json=".to_string();
    s.append(bool_text(c.has_config).as_str());
    s.append(", db=");
    s.append(bool_text(c.has_db).as_str());
    s.append(", files=");
    s.append(bool_text(c.has_files).as_str());
    Err(s)
}

/// Whether an archive entry is restored: only the settings file, the database and what
/// lies in the files folder are.
pub fn should_restore_entry(name: &str) -> (res: bool)
    ensures
        res == (name@ == "config.json"@ || name@ == "smartpaste.db"@ || in_files_folder(name@)),
{
    str_eq(name, "config.json") || str_eq(name, "smartpaste.db") || is_in_files_folder(name)
}

/// Whether an archive entry names a directory (it ends with a separator).
pub fn is_directory_entry(name: &str) -> (res: bool)
    ensures
        res == (spec_ends_with(name@, "/"@) || spec_ends_with(name@, "\\"@)),
{
    let v = to_chars(name);
    ends_with(&v, &to_chars("/")) || ends_with(&v, &to_chars("\\"))
}

/// The answer of a restore from the backup named `backup_name`.
pub fn restore_message(backup_name: &str) -> (res: String)
    ensures
        res@ == "恢复成功！已从 "@ + backup_name@ + " 还原数据。"@,
{
    let mut s = "恢复成功！已从 ".to_string();
    s.append(backup_name);
    s.append(" 还原数据。");
    s
}

// ---------------------------------------------------------------- moving the data

/// What moves with the storage directory, in order: the database and the files folder,
/// each with the words that name it in messages.
pub fn migration_items() -> (res: Vec<(&'static str, &'static str)>)
    ensures
        res@.len() == 2,
        res@[0].0@ == "smartpaste.db"@ && res@[0].1@ == "数据库文件"@,
        res@[1].0@ == "files"@ && res@[1].1@ == "文件目录"@,
{
    let mut v: Vec<(&'static str, &'static str)> = Vec::new();
    v.push(("smartpaste.db", "数据库文件"));
    v.push(("files", "文件目录"));
    v
}

/// Whether a moved item is handled as a whole directory: the files folder, when it is
/// one; anything else is handled as one file.
pub fn moved_as_directory(name: &str, is_dir: bool) -> (res: bool)
    ensures
        res == (name@ == "files"@ && is_dir),
{
    str_eq(name, "files") && is_dir
}

/// The steps of moving the data that can fail.
#[derive(Debug, Clone, Copy, PartialEq, Eq, Structural)]
pub enum MigrationFailure {
    /// Creating the new directory.
    CreateDir,
    /// Removing what the new directory held under the same name.
    RemoveExisting,
    /// Copying an item over.
    Copy,
}

/// The message of a failed step of moving the data, for the item described as `desc`.
pub fn migration_error(step: MigrationFailure, desc: &str, e: &str) -> (res: String)
    ensures
        step == MigrationFailure::CreateDir ==> res@ == "创建新存储路径失败: "@ + e@,
        step == MigrationFailure::RemoveExisting ==> res@ == "删除现有 "@ + desc@ + " 失败: "@ + e@,
        step == MigrationFailure::Copy ==> res@ == "迁移 "@ + desc@ + " 失败: "@ + e@,
{
    match step {
        MigrationFailure::CreateDir => {
            let mut s = "创建新存储路径失败: ".to_string();
            s.append(e);
            s
        },
        MigrationFailure::RemoveExisting => {
            let mut s = "删除现有 ".to_string();
            s.append(desc);
            s.append(" 失败: ");
            s.append(e);
            s
        },
        MigrationFailure::Copy => {
            let mut s = "迁移 ".to_string();
            s.append(desc);
            s.append(" 失败: ");
            s.append(e);
            s
        },
    }
}

/// The greeting the front end uses to check that the back end answers.
pub fn test_function() -> (res: String)
    ensures
        res@ == "这是来自 Rust 的测试信息"@,
{
    "这是来自 Rust 的测试信息".to_string()
}

} // verus!
