//! The clipboard monitor's decisions: what each poll of the clipboard does with what it
//! read (remember it, store it as a new record, or leave it because the application
//! itself copied it), and how copied files are named, classified and filtered; also the
//! decisions of the background cleanup worker.
use vstd::prelude::*;
use crate::clipboard::{new_uuid_string, now_millis, ClipboardItem};
use crate::config::Config;
use crate::paths::{path_join, spec_path_join};
use crate::text::{
    clone_strings, decimal, spec_decimal, spec_to_lowercase, str_eq, to_chars, to_lowercase,
};
use vstd::string::StringExecFns;

verus! {

broadcast use vstd::string::group_string_axioms;

// ---------------------------------------------------------------- the poll loop

/// How many polls (of 100 ms) clipboard changes are ignored after the application
/// copied something itself.
pub const FRONTEND_IGNORE_POLLS: u32 = 30;

/// What the monitor remembers between polls.
pub struct MonitorState {
    last_text: String,
    last_image: Vec<u8>,
    last_files: Vec<String>,
    first_run: bool,
    ignore_countdown: u32,
}

/// What the monitor remembers, as mathematical values.
pub struct MonitorModel {
    pub last_text: Seq<char>,
    pub last_image: Seq<u8>,
    pub last_files: Seq<Seq<char>>,
    pub first_run: bool,
    pub countdown: nat,
}

/// The paths of a list, as character sequences.
pub open spec fn strings_view(v: Seq<String>) -> Seq<Seq<char>> {
    v.map_values(|s: String| s@)
}

impl View for MonitorState {
    type V = MonitorModel;

    closed spec fn view(&self) -> MonitorModel {
        MonitorModel {
            last_text: self.last_text@,
            last_image: self.last_image@,
            last_files: strings_view(self.last_files@),
            first_run: self.first_run,
            countdown: self.ignore_countdown as nat,
        }
    }
}

impl MonitorState {
    /// A monitor that has not polled yet.
    pub fn new() -> (res: Self)
        ensures
            res@.first_run,
            res@.countdown == 0,
            res@.last_text.len() == 0,
            res@.last_image.len() == 0,
            res@.last_files.len() == 0,
    {
        let s = MonitorState {
            last_text: String::new(),
            last_image: Vec::new(),
            last_files: Vec::new(),
            first_run: true,
            ignore_countdown: 0,
        };
        assert(strings_view(s.last_files@) =~= Seq::<Seq<char>>::empty());
        s
    }
}

/// Whether the application itself put something on the clipboard since the monitor last
/// looked.
pub struct ClipboardSourceState {
    pub is_frontend_copy: bool,
}

impl ClipboardSourceState {
    /// Nothing copied by the application yet.
    pub fn new() -> (res: Self)
        ensures
            !res.is_frontend_copy,
    {
        ClipboardSourceState { is_frontend_copy: false }
    }
}

/// Records that the application is about to write to the clipboard.
pub fn mark_frontend_copy(state: &mut ClipboardSourceState)
    ensures
        final(state).is_frontend_copy,
{
    state.is_frontend_copy = true;
}

/// Reads and clears the flag, as each poll does.
pub fn take_frontend_copy(state: &mut ClipboardSourceState) -> (res: bool)
    ensures
        res == old(state).is_frontend_copy,
        !final(state).is_frontend_copy,
{
    let flag = state.is_frontend_copy;
    state.is_frontend_copy = false;
    flag
}

/// What one poll read: whether the application flagged a copy of its own since the
/// last poll, and each clipboard format that could be read (`None` when reading it
/// failed). Image bytes are RGBA pixels.
pub struct Tick {
    pub frontend_copy: bool,
    pub image: Option<Vec<u8>>,
    pub files: Option<Vec<String>>,
    pub text: Option<String>,
}

/// A poll's reading, as mathematical values.
pub struct TickModel {
    pub frontend_copy: bool,
    pub image: Option<Seq<u8>>,
    pub files: Option<Seq<Seq<char>>>,
    pub text: Option<Seq<char>>,
}

impl View for Tick {
    type V = TickModel;

    open spec fn view(&self) -> TickModel {
        TickModel {
            frontend_copy: self.frontend_copy,
            image: match self.image {
                Some(v) => Some(v@),
                None => None,
            },
            files: match self.files {
                Some(v) => Some(strings_view(v@)),
                None => None,
            },
            text: match self.text {
                Some(t) => Some(t@),
                None => None,
            },
        }
    }
}

/// What the caller does after a poll.
#[derive(Debug, PartialEq)]
pub enum MonitorAction {
    /// The first poll only takes note of what is on the clipboard: wait a second.
    Settle,
    /// Nothing new: wait 100 ms.
    Idle,
    /// New content that the application copied itself: leave it, wait 100 ms.
    Ignored,
    /// A new image: save the image read and store it as a record.
    StoreImage,
    /// New files: copy and store each of these paths.
    StoreFiles(Vec<String>),
    /// New text: store it, if it passes the length filter.
    StoreText(String),
}

/// A poll's outcome, as mathematical values.
pub enum ActionModel {
    Settle,
    Idle,
    Ignored,
    StoreImage,
    StoreFiles(Seq<Seq<char>>),
    StoreText(Seq<char>),
}

impl View for MonitorAction {
    type V = ActionModel;

    open spec fn view(&self) -> ActionModel {
        match self {
            MonitorAction::Settle => ActionModel::Settle,
            MonitorAction::Idle => ActionModel::Idle,
            MonitorAction::Ignored => ActionModel::Ignored,
            MonitorAction::StoreImage => ActionModel::StoreImage,
            MonitorAction::StoreFiles(v) => ActionModel::StoreFiles(strings_view(v@)),
            MonitorAction::StoreText(t) => ActionModel::StoreText(t@),
        }
    }
}

/// Whether an outcome stores something.
pub open spec fn is_store(a: ActionModel) -> bool {
    a is StoreImage || a is StoreFiles || a is StoreText
}

/// The countdown of ignored polls after this poll's flag is taken into account.
pub open spec fn armed_countdown(s: MonitorModel, t: TickModel) -> nat {
    if t.frontend_copy {
        FRONTEND_IGNORE_POLLS as nat
    } else {
        s.countdown
    }
}

/// One poll of the clipboard. A flag from the application starts a countdown of 30
/// polls during which changes are taken note of but not stored. The first poll takes
/// note of the non-empty text, image and files on the clipboard and stores nothing.
/// Later polls look at the image first, then (when no image could be read) at the
/// files, then at the text: content that is non-empty and differs from the last content
/// of its format becomes the last content, the other formats are forgotten, and it is
/// stored unless the countdown runs.
pub open spec fn spec_monitor_step(s: MonitorModel, t: TickModel) -> (MonitorModel, ActionModel) {
    let armed = armed_countdown(s, t);
    let frontend = armed > 0;
    let countdown: nat = if armed > 0 {
        (armed - 1) as nat
    } else {
        0
    };
    let keep = MonitorModel { countdown, ..s };
    if s.first_run {
        (
            MonitorModel {
                last_text: if t.text is Some && t.text->0.len() > 0 {
                    t.text->0
                } else {
                    s.last_text
                },
                last_image: if t.image is Some && t.image->0.len() > 0 {
                    t.image->0
                } else {
                    s.last_image
                },
                last_files: if t.files is Some && t.files->0.len() > 0 {
                    t.files->0
                } else {
                    s.last_files
                },
                first_run: false,
                countdown,
            },
            ActionModel::Settle,
        )
    } else if t.image is Some {
        let img = t.image->0;
        if img.len() > 0 && img != s.last_image {
            (
                MonitorModel {
                    last_image: img,
                    last_text: Seq::empty(),
                    last_files: Seq::empty(),
                    ..keep
                },
                if frontend {
                    ActionModel::Ignored
                } else {
                    ActionModel::StoreImage
                },
            )
        } else {
            (keep, ActionModel::Idle)
        }
    } else if t.files is Some {
        let f = t.files->0;
        if f.len() > 0 && f != s.last_files {
            (
                MonitorModel {
                    last_files: f,
                    last_text: Seq::empty(),
                    last_image: Seq::empty(),
                    ..keep
                },
                if frontend {
                    ActionModel::Ignored
                } else {
                    ActionModel::StoreFiles(f)
                },
            )
        } else {
            (keep, ActionModel::Idle)
        }
    } else if t.text is Some {
        let x = t.text->0;
        if x.len() > 0 && x != s.last_text {
            (
                MonitorModel {
                    last_text: x,
                    last_image: Seq::empty(),
                    last_files: Seq::empty(),
                    ..keep
                },
                if frontend {
                    ActionModel::Ignored
                } else {
                    ActionModel::StoreText(x)
                },
            )
        } else {
            (keep, ActionModel::Idle)
        }
    } else {
        (keep, ActionModel::Idle)
    }
}

fn bytes_eq(a: &Vec<u8>, b: &Vec<u8>) -> (res: bool)
    ensures
        res == (a@ == b@),
{
    if a.len() != b.len() {
        return false;
    }
    let mut i: usize = 0;
    while i < a.len()
        invariant
            a.len() == b.len(),
            i <= a.len(),
            forall|j: int| 0 <= j < i ==> a@[j] == b@[j],
        decreases a.len() - i,
    {
        if a[i] != b[i] {
            return false;
        }
        i += 1;
    }
    assert(a@ =~= b@);
    true
}

fn strings_eq(a: &Vec<String>, b: &Vec<String>) -> (res: bool)
    ensures
        res == (strings_view(a@) == strings_view(b@)),
{
    if a.len() != b.len() {
        assert(strings_view(a@).len() != strings_view(b@).len());
        return false;
    }
    let mut i: usize = 0;
    while i < a.len()
        invariant
            a.len() == b.len(),
            i <= a.len(),
            forall|j: int| 0 <= j < i ==> a@[j]@ == b@[j]@,
        decreases a.len() - i,
    {
        if !str_eq(a[i].as_str(), b[i].as_str()) {
            assert(strings_view(a@)[i as int] != strings_view(b@)[i as int]);
            return false;
        }
        i += 1;
    }
    assert(strings_view(a@) =~= strings_view(b@));
    true
}

/// One poll of the clipboard: updates what the monitor remembers and says what to do.
pub fn monitor_step(state: &mut MonitorState, tick: Tick) -> (res: MonitorAction)
    ensures
        (final(state)@, res@) == spec_monitor_step(old(state)@, tick@),
{
    let ghost t = tick@;
    let ghost s0 = state@;
    if tick.frontend_copy {
        state.ignore_countdown = FRONTEND_IGNORE_POLLS;
    }
    let frontend = state.ignore_countdown > 0;
    if state.ignore_countdown > 0 {
        state.ignore_countdown = state.ignore_countdown - 1;
    }
    if state.first_run {
        if let Some(x) = tick.text {
            if !x.as_str().is_empty() {
                proof {
                    assert(x@.len() > 0);
                }
                state.last_text = x;
            } else {
                assert(x@.len() == 0);
            }
        }
        if let Some(img) = tick.image {
            if img.len() > 0 {
                state.last_image = img;
            }
        }
        if let Some(f) = tick.files {
            if f.len() > 0 {
                state.last_files = f;
            } else {
                assert(strings_view(f@).len() == 0);
            }
        }
        state.first_run = false;
        return MonitorAction::Settle;
    }
    if let Some(img) = tick.image {
        if img.len() > 0 && !bytes_eq(&img, &state.last_image) {
            state.last_image = img;
            state.last_text = String::new();
            state.last_files = Vec::new();
            assert(strings_view(state.last_files@) =~= Seq::<Seq<char>>::empty());
            if frontend {
                return MonitorAction::Ignored;
            }
            return MonitorAction::StoreImage;
        }
        return MonitorAction::Idle;
    }
    if let Some(f) = tick.files {
        if f.len() > 0 && !strings_eq(&f, &state.last_files) {
            let copy = clone_strings(&f);
            state.last_files = f;
            state.last_text = String::new();
            state.last_image = Vec::new();
            if frontend {
                return MonitorAction::Ignored;
            }
            return MonitorAction::StoreFiles(copy);
        }
        assert(f.len() == 0 ==> strings_view(f@).len() == 0);
        return MonitorAction::Idle;
    }
    if let Some(x) = tick.text {
        if !x.as_str().is_empty() && !str_eq(x.as_str(), state.last_text.as_str()) {
            let copy = x.clone();
            state.last_text = x;
            state.last_image = Vec::new();
            state.last_files = Vec::new();
            assert(strings_view(state.last_files@) =~= Seq::<Seq<char>>::empty());
            if frontend {
                return MonitorAction::Ignored;
            }
            return MonitorAction::StoreText(copy);
        }
        return MonitorAction::Idle;
    }
    MonitorAction::Idle
}

/// Content that was just taken note of is not stored again: after a poll that stores
/// something, the same reading in the next poll (without a new flag from the
/// application) finds nothing new.
pub proof fn lemma_no_double_store(s: MonitorModel, t: TickModel)
    requires
        is_store(spec_monitor_step(s, t).1),
    ensures
        spec_monitor_step(
            spec_monitor_step(s, t).0,
            TickModel { frontend_copy: false, ..t },
        ).1 == ActionModel::Idle,
{
}

/// While the countdown after a copy by the application runs, or when this poll brings
/// such a flag, nothing is stored.
pub proof fn lemma_own_copies_not_stored(s: MonitorModel, t: TickModel)
    requires
        s.countdown > 0 || t.frontend_copy,
    ensures
        !is_store(spec_monitor_step(s, t).1),
{
}

/// A flag from the application keeps the next 30 polls (this one included) from storing
/// anything, whatever they read.
pub proof fn lemma_flag_covers_thirty_polls(s: MonitorModel, t: TickModel)
    requires
        t.frontend_copy,
    ensures
        spec_monitor_step(s, t).0.countdown == FRONTEND_IGNORE_POLLS - 1,
{
}

/// Taking note of new content of one format forgets the other two: after a later poll
/// (not the first) reads a new non-empty image, or files with no image, or text with
/// neither, that content is remembered and the remembered content of the other formats
/// is empty, so copying it again later counts as new.
pub proof fn lemma_new_content_forgets_other_formats(s: MonitorModel, t: TickModel)
    requires
        !s.first_run,
    ensures
        t.image is Some && t.image->0.len() > 0 && t.image->0 != s.last_image ==> {
            let r = spec_monitor_step(s, t).0;
            &&& r.last_image == t.image->0
            &&& r.last_text.len() == 0
            &&& r.last_files.len() == 0
        },
        t.image is None && t.files is Some && t.files->0.len() > 0 && t.files->0
            != s.last_files ==> {
            let r = spec_monitor_step(s, t).0;
            &&& r.last_files == t.files->0
            &&& r.last_text.len() == 0
            &&& r.last_image.len() == 0
        },
        t.image is None && t.files is None && t.text is Some && t.text->0.len() > 0 && t.text->0
            != s.last_text ==> {
            let r = spec_monitor_step(s, t).0;
            &&& r.last_text == t.text->0
            &&& r.last_image.len() == 0
            &&& r.last_files.len() == 0
        },
{
}

/// Text copied after a new image or new files is stored, even when it is the same text
/// as before: once a poll has taken note of a new image (or new files) and no countdown
/// runs, a poll that reads only non-empty text, with no flag from the application,
/// stores that text.
pub proof fn lemma_text_after_image_or_files_is_stored(
    s: MonitorModel,
    t1: TickModel,
    t2: TickModel,
)
    requires
        !s.first_run,
        (t1.image is Some && t1.image->0.len() > 0 && t1.image->0 != s.last_image) || (t1.image
            is None && t1.files is Some && t1.files->0.len() > 0 && t1.files->0 != s.last_files),
        spec_monitor_step(s, t1).0.countdown == 0,
        !t2.frontend_copy,
        t2.image is None,
        t2.files is None,
        t2.text is Some,
        t2.text->0.len() > 0,
    ensures
        spec_monitor_step(spec_monitor_step(s, t1).0, t2).1 == ActionModel::StoreText(t2.text->0),
{
    lemma_new_content_forgets_other_formats(s, t1);
}

/// An image copied after new text or new files is stored, even when it is the same image
/// as before: once a poll has taken note of new text (or new files) and no countdown runs,
/// a poll that reads a non-empty image, with no flag from the application, stores it.
pub proof fn lemma_image_after_text_or_files_is_stored(
    s: MonitorModel,
    t1: TickModel,
    t2: TickModel,
)
    requires
        !s.first_run,
        (t1.image is None && t1.files is None && t1.text is Some && t1.text->0.len() > 0
            && t1.text->0 != s.last_text) || (t1.image is None && t1.files is Some
            && t1.files->0.len() > 0 && t1.files->0 != s.last_files),
        spec_monitor_step(s, t1).0.countdown == 0,
        !t2.frontend_copy,
        t2.image is Some,
        t2.image->0.len() > 0,
    ensures
        spec_monitor_step(spec_monitor_step(s, t1).0, t2).1 == ActionModel::StoreImage,
{
    lemma_new_content_forgets_other_formats(s, t1);
}

// ---------------------------------------------------------------- copied files

/// The file extensions stored as images, in lower case.
pub open spec fn is_image_extension(e: Seq<char>) -> bool {
    e == "png"@ || e == "jpg"@ || e == "jpeg"@ || e == "gif"@ || e == "bmp"@ || e == "webp"@
        || e == "ico"@
}

/// The kind of record for a copied path: a directory is a folder; a file whose
/// extension, lower-cased, is an image extension is an image; anything else is a file.
pub open spec fn spec_copied_kind(is_dir: bool, extension: Option<Seq<char>>) -> Seq<char> {
    if is_dir {
        "folder"@
    } else if extension is Some && is_image_extension(spec_to_lowercase(extension->0)) {
        "image"@
    } else {
        "file"@
    }
}

/// The kind of record for a copied path, given whether it is a directory and its
/// extension (if it has one that is valid Unicode).
pub fn copied_kind(is_dir: bool, extension: Option<&str>) -> (res: String)
    ensures
        res@ == spec_copied_kind(
            is_dir,
            match extension {
                Some(e) => Some(e@),
                None => None,
            },
        ),
{
    if is_dir {
        return "folder".to_string();
    }
    match extension {
        Some(e) => {
            let l = to_lowercase(e);
            let s = l.as_str();
            if str_eq(s, "png") || str_eq(s, "jpg") || str_eq(s, "jpeg") || str_eq(s, "gif")
                || str_eq(s, "bmp") || str_eq(s, "webp") || str_eq(s, "ico") {
                "image".to_string()
            } else {
                "file".to_string()
            }
        },
        None => "file".to_string(),
    }
}

/// Copied paths are classified by what they are: a directory is a folder whatever its
/// name; a file whose extension, lower-cased, is one of png, jpg, jpeg, gif, bmp, webp
/// or ico is an image; any other file (or one without extension) is a file.
pub proof fn lemma_copied_kinds(is_dir: bool, extension: Option<Seq<char>>)
    ensures
        is_dir ==> spec_copied_kind(is_dir, extension) == "folder"@,
        !is_dir && extension is Some && ({
            let l = spec_to_lowercase(extension->0);
            l == "png"@ || l == "jpg"@ || l == "jpeg"@ || l == "gif"@ || l == "bmp"@ || l
                == "webp"@ || l == "ico"@
        }) ==> spec_copied_kind(is_dir, extension) == "image"@,
        !is_dir && (extension is None || ({
            let l = spec_to_lowercase(extension->0);
            l != "png"@ && l != "jpg"@ && l != "jpeg"@ && l != "gif"@ && l != "bmp"@ && l
                != "webp"@ && l != "ico"@
        })) ==> spec_copied_kind(is_dir, extension) == "file"@,
{
}

/// The number of bytes in `mb` mebibytes.
pub open spec fn mib(mb: u32) -> int {
    mb * 1048576
}

/// Whether a copied path of `size` bytes is too large to keep: the limit `limit_mb` is
/// in mebibytes, and 0 means no limit.
pub fn exceeds_size_limit(size: u64, limit_mb: u32) -> (res: bool)
    ensures
        res == (limit_mb > 0 && size > mib(limit_mb)),
{
    let limit: u64 = (limit_mb as u64) * 1048576;
    limit_mb > 0 && size > limit
}

/// The size limit for copied paths: the configured one, or 5 MiB before the settings
/// are loaded.
pub fn monitor_size_limit_mb(cfg: Option<&Config>) -> (res: u32)
    ensures
        res == match cfg {
            Some(c) => c.ignore_big_file_mb,
            None => 5,
        },
{
    match cfg {
        Some(c) => c.ignore_big_file_mb,
        None => 5,
    }
}

/// The name under which a copied file is kept: the copy time in milliseconds, a hyphen
/// and the file's own name.
pub fn stored_copy_name(timestamp: i64, file_name: &str) -> (res: String)
    ensures
        res@ == spec_decimal(timestamp as int) + "-"@ + file_name@,
{
    let mut s = decimal(timestamp);
    s.append("-");
    s.append(file_name);
    s
}

/// A stored name under the "files" folder, as the relative path a record keeps.
pub fn files_relative_path(name: &str) -> (res: String)
    ensures
        res@ == spec_path_join("files"@, name@),
{
    path_join("files", name)
}

/// The relative path of a saved clipboard image: "<id>.png" under the "files" folder.
pub fn image_relative_path(id: &str) -> (res: String)
    ensures
        res@ == spec_path_join("files"@, id@ + ".png"@),
{
    let mut name = id.to_string();
    name.append(".png");
    path_join("files", name.as_str())
}

/// Whether a new text of `char_count` characters is stored: always before the settings
/// are loaded and when the minimum length is 0, else when it reaches the minimum.
pub fn text_passes_length_filter(char_count: u64, cfg: Option<&Config>) -> (res: bool)
    ensures
        res == match cfg {
            Some(c) => c.ignore_short_text_len == 0 || char_count >= c.ignore_short_text_len,
            None => true,
        },
{
    match cfg {
        Some(c) => c.ignore_short_text_len == 0 || char_count >= c.ignore_short_text_len as u64,
        None => true,
    }
}

/// A record for copied content, not a favourite and without notes.
pub fn copied_record(id: String, kind: String, content: String, size: Option<u64>, timestamp: i64) -> (res:
    ClipboardItem)
    ensures
        res.id == id,
        res.item_type == kind,
        res.content == content,
        res.size == size,
        !res.is_favorite,
        res.notes@.len() == 0,
        res.timestamp == timestamp,
{
    ClipboardItem { id, item_type: kind, content, size, is_favorite: false, notes: String::new(), timestamp }
}

/// The record for a new clipboard text; its size is its number of characters.
pub fn monitored_text_record(id: String, text: String, timestamp: i64) -> (res: ClipboardItem)
    ensures
        res.id == id,
        res.item_type@ == "text"@,
        res.content == text,
        res.size == Some(text@.len() as u64),
        !res.is_favorite,
        res.notes@.len() == 0,
        res.timestamp == timestamp,
{
    let n = to_chars(text.as_str()).len() as u64;
    copied_record(id, "text".to_string(), text, Some(n), timestamp)
}


/// A new record for copied content: a fresh identifier, the current time, not a
/// favourite and without notes.
pub fn new_copied_record(kind: String, content: String, size: Option<u64>) -> (res: ClipboardItem)
    ensures
        res.id@.len() == 36,
        res.item_type == kind,
        res.content == content,
        res.size == size,
        !res.is_favorite,
        res.notes@.len() == 0,
{
    copied_record(new_uuid_string(), kind, content, size, now_millis())
}

/// A new record for a new clipboard text, with a fresh identifier and the current time;
/// its size is its number of characters.
pub fn new_monitored_text_record(text: String) -> (res: ClipboardItem)
    ensures
        res.id@.len() == 36,
        res.item_type@ == "text"@,
        res.content == text,
        res.size == Some(text@.len() as u64),
        !res.is_favorite,
        res.notes@.len() == 0,
{
    monitored_text_record(new_uuid_string(), text, now_millis())
}

/// The identifier and the relative path under which a new clipboard image is saved.
pub fn plan_image_copy() -> (res: (String, String))
    ensures
        res.0@.len() == 36,
        res.1@ == spec_path_join("files"@, res.0@ + ".png"@),
{
    let id = new_uuid_string();
    let rel = image_relative_path(id.as_str());
    (id, rel)
}

/// The name under which a copied file is kept, stamped with the current time.
pub fn new_copy_name(file_name: &str) -> (res: String)
    ensures
        exists|t: i64| res@ == spec_decimal(t as int) + "-"@ + file_name@,
{
    let t = now_millis();
    stored_copy_name(t, file_name)
}

// ---------------------------------------------------------------- the cleanup worker

/// What woke the cleanup worker.
#[derive(Debug, Clone, Copy, PartialEq, Eq, Structural)]
pub enum Wake {
    /// A record was stored, or the user asked for a cleanup.
    Signal,
    /// Five minutes passed without a signal.
    Timeout,
    /// Every sender is gone.
    Closed,
}

/// What the worker does when woken.
#[derive(Debug, Clone, Copy, PartialEq, Eq, Structural)]
pub enum WakePlan {
    /// Wait half a second, drop the signals that came meanwhile, then clean.
    DebounceThenClean,
    /// Clean now.
    Clean,
    /// Stop the worker.
    Exit,
}

/// A signal is debounced before cleaning, the periodic wake-up cleans at once, and a
/// closed channel stops the worker.
pub fn cleanup_wake_plan(w: Wake) -> (res: WakePlan)
    ensures
        w == Wake::Signal ==> res == WakePlan::DebounceThenClean,
        w == Wake::Timeout ==> res == WakePlan::Clean,
        w == Wake::Closed ==> res == WakePlan::Exit,
{
    match w {
        Wake::Signal => WakePlan::DebounceThenClean,
        Wake::Timeout => WakePlan::Clean,
        Wake::Closed => WakePlan::Exit,
    }
}

/// The history cap and the retention in days that a cleanup applies: the configured
/// ones, or 500 records and 30 days before the settings are loaded.
pub fn cleanup_settings(cfg: Option<&Config>) -> (res: (u32, u32))
    ensures
        res == match cfg {
            Some(c) => (c.max_history_items, c.retention_days),
            None => (500u32, 30u32),
        },
{
    match cfg {
        Some(c) => (c.max_history_items, c.retention_days),
        None => (500, 30),
    }
}

/// How long the worker pauses after a round that took `elapsed_ms`, so that a round
/// lasts at least 100 ms.
pub fn cleanup_pause_ms(elapsed_ms: u64) -> (res: u64)
    ensures
        elapsed_ms < 100 ==> res == 100 - elapsed_ms,
        elapsed_ms >= 100 ==> res == 0,
{
    if elapsed_ms < 100 {
        100 - elapsed_ms
    } else {
        0
    }
}

} // verus!
