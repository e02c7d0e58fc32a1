//! The clipboard record and the slot that remembers the last record stored.
use vstd::prelude::*;

verus! {

/// One clipboard history record.
#[derive(Debug, PartialEq)]
pub struct ClipboardItem {
    pub id: String,
    /// "text", "image", "file" or "folder".
    pub item_type: String,
    /// The text itself for text records, a stored path for the other kinds.
    pub content: String,
    /// Character count for text, byte size for files and images.
    pub size: Option<u64>,
    pub is_favorite: bool,
    pub notes: String,
    pub timestamp: i64,
}

impl Clone for ClipboardItem {
    fn clone(&self) -> (res: Self)
        ensures
            res == *self,
    {
        ClipboardItem {
            id: self.id.clone(),
            item_type: self.item_type.clone(),
            content: self.content.clone(),
            size: self.size,
            is_favorite: self.is_favorite,
            notes: self.notes.clone(),
            timestamp: self.timestamp,
        }
    }
}

/// One favourites folder with the number of records filed in it.
#[derive(Debug, PartialEq)]
pub struct FolderItem {
    pub id: String,
    pub name: String,
    pub num_items: u32,
}

impl Clone for FolderItem {
    fn clone(&self) -> (res: Self)
        ensures
            res == *self,
    {
        FolderItem { id: self.id.clone(), name: self.name.clone(), num_items: self.num_items }
    }
}

/// Remembers the record stored most recently.
pub struct LastInserted {
    pub item: Option<ClipboardItem>,
}

impl LastInserted {
    /// An empty slot.
    pub fn new() -> (res: Self)
        ensures
            res.item is None,
    {
        LastInserted { item: None }
    }
}

/// Records `item` as the last stored record, replacing any earlier one.
pub fn set_last_inserted(slot: &mut LastInserted, item: ClipboardItem)
    ensures
        final(slot).item == Some(item),
{
    slot.item = Some(item);
}

/// A copy of the last stored record, leaving the slot as it is.
pub fn get_last_inserted(slot: &LastInserted) -> (res: Option<ClipboardItem>)
    ensures
        res == slot.item,
{
    match &slot.item {
        Some(item) => Some(item.clone()),
        None => None,
    }
}

/// Takes the last stored record out of the slot, leaving it empty.
pub fn take_last_inserted(slot: &mut LastInserted) -> (res: Option<ClipboardItem>)
    ensures
        res == old(slot).item,
        final(slot).item is None,
{
    slot.item.take()
}

/// A fresh identifier: the hyphenated text form of a random (version 4) UUID.
/// Trusted: `uuid::Uuid::new_v4` and its `to_string`; the value is random, and the one
/// thing stated is the documented length of the hyphenated form, 36 characters.
#[verifier::external_body]
pub(crate) fn new_uuid_string() -> (res: String)
    ensures
        res@.len() == 36,
{
    uuid::Uuid::new_v4().to_string()
}

/// The current time in milliseconds since the Unix epoch
/// (`chrono::Utc::now().timestamp_millis()`). Trusted; nothing is stated of the value.
#[verifier::external_body]
pub(crate) fn now_millis() -> (res: i64) {
    chrono::Utc::now().timestamp_millis()
}

/// The current time in seconds since the Unix epoch
/// (`chrono::Utc::now().timestamp()`). Trusted; nothing is stated of the value.
#[verifier::external_body]
pub(crate) fn now_secs() -> (res: i64) {
    chrono::Utc::now().timestamp()
}

/// A text record with the given identifier and time; its size is the text's length
/// in bytes, as the text-insertion command stores it.
pub fn text_item(id: String, text: &str, timestamp: i64) -> (res: ClipboardItem)
    ensures
        res.id == id,
        res.item_type@ == "text"@,
        res.content@ == text@,
        res.size == Some(text.len() as u64),
        !res.is_favorite,
        res.notes@.len() == 0,
        res.timestamp == timestamp,
{
    ClipboardItem {
        id,
        item_type: "text".to_string(),
        content: text.to_string(),
        size: Some(text.len() as u64),
        is_favorite: false,
        notes: String::new(),
        timestamp,
    }
}

/// A new text record for `text`, with a fresh identifier and the current time.
pub fn new_text_item(text: &str) -> (res: ClipboardItem)
    ensures
        res.id@.len() == 36,
        res.item_type@ == "text"@,
        res.content@ == text@,
        res.size == Some(text.len() as u64),
        !res.is_favorite,
        res.notes@.len() == 0,
{
    let id = new_uuid_string();
    let ts = now_millis();
    text_item(id, text, ts)
}

} // verus!
