//! Global-shortcut bookkeeping: the table of shortcut kinds, the registry of the
//! shortcuts in force, and the normal form in which shortcuts are compared.
use vstd::prelude::*;
use crate::config::{
    lemma_key_names_distinct_at, lemma_parse_config_key_roundtrip, spec_key_name, spec_value_of, with_global_shortcut, with_global_shortcut_2,
    with_global_shortcut_3, with_global_shortcut_4, with_global_shortcut_5, Config, ConfigKey,
    ConfigValue,
};
use crate::config_update::begin_internal_update;
use vstd::string::StringExecFns;
use crate::text::{
    all_ascii, ascii_lower, chars_eq, replace_all, spec_replace, spec_to_lowercase, str_eq, to_chars, to_lowercase,
};

verus! {

/// `entries` lists the pairs of `m`, each key once.
spec fn wf_entries(entries: Seq<(String, String)>, m: Map<Seq<char>, Seq<char>>) -> bool {
    &&& forall|i: int|
        0 <= i < entries.len() ==> {
            &&& #[trigger] m.contains_key(entries[i].0@)
            &&& m[entries[i].0@] == entries[i].1@
        }
    &&& forall|k: Seq<char>|
        #[trigger] m.contains_key(k) ==> exists|i: int| 0 <= i < entries.len() && entries[i].0@ == k
    &&& forall|i: int, j: int|
        0 <= i < entries.len() && 0 <= j < entries.len() && i != j ==> entries[i].0@ != entries[j].0@
}

/// The shortcuts in force, keyed by the configuration key they are stored under.
pub struct AppShortcutManager {
    entries: Vec<(String, String)>,
    model: Ghost<Map<Seq<char>, Seq<char>>>,
}

impl AppShortcutManager {
    #[verifier::type_invariant]
    spec fn inv(self) -> bool {
        wf_entries(self.entries@, self.model@)
    }

    /// The shortcuts in force, as a map from key to shortcut text.
    pub closed spec fn view(&self) -> Map<Seq<char>, Seq<char>> {
        self.model@
    }

    /// No shortcut is in force.
    pub fn new() -> (res: Self)
        ensures
            res.view() == Map::<Seq<char>, Seq<char>>::empty(),
    {
        AppShortcutManager { entries: Vec::new(), model: Ghost(Map::empty()) }
    }

    /// The position of `key` among the entries, if it is there.
    fn position(&self, key: &str) -> (res: Option<usize>)
        ensures
            match res {
                Some(i) => i < self.entries@.len() && self.entries@[i as int].0@ == key@,
                None => !self.view().contains_key(key@),
            },
    {
        proof {
            use_type_invariant(self);
        }
        let mut i: usize = 0;
        while i < self.entries.len()
            invariant
                i <= self.entries@.len(),
                forall|j: int| 0 <= j < i ==> self.entries@[j].0@ != key@,
            decreases self.entries.len() - i,
        {
            if str_eq(self.entries[i].0.as_str(), key) {
                return Some(i);
            }
            i += 1;
        }
        None
    }

    /// Moves the entries out, leaving `self` empty.
    fn take_entries(&mut self) -> (res: Vec<(String, String)>)
        ensures
            res@ == old(self).entries@,
    {
        let mut this = AppShortcutManager::new();
        std::mem::swap(self, &mut this);
        let AppShortcutManager { entries, model: _ } = this;
        entries
    }

    /// The shortcut stored under `shortcut_type`, if any.
    pub fn get_shortcut(&self, shortcut_type: &str) -> (res: Option<String>)
        ensures
            match res {
                Some(s) => self.view().contains_key(shortcut_type@) && s@ == self.view()[shortcut_type@],
                None => !self.view().contains_key(shortcut_type@),
            },
    {
        proof {
            use_type_invariant(self);
        }
        match self.position(shortcut_type) {
            Some(i) => {
                assert(self.view().contains_key(self.entries@[i as int].0@));
                Some(self.entries[i].1.clone())
            },
            None => None,
        }
    }

    /// Stores `shortcut` under `shortcut_type`, replacing what was there.
    pub fn set_shortcut(&mut self, shortcut_type: &str, shortcut: String)
        ensures
            final(self).view() == old(self).view().insert(shortcut_type@, shortcut@),
    {
        proof {
            use_type_invariant(&*self);
        }
        let ghost old_model = self.model@;
        let ghost old_entries = self.entries@;
        let pos = self.position(shortcut_type);
        let ghost m = old_model.insert(shortcut_type@, shortcut@);
        let mut entries = self.take_entries();
        match pos {
            Some(i) => {
                let key = entries[i].0.clone();
                entries.set(i, (key, shortcut));
                proof {
                    assert forall|j: int| 0 <= j < entries@.len() implies {
                        &&& #[trigger] m.contains_key(entries@[j].0@)
                        &&& m[entries@[j].0@] == entries@[j].1@
                    } by {
                        if j != i {
                            assert(entries@[j] == old_entries[j]);
                            assert(old_model.contains_key(old_entries[j].0@));
                        }
                    }
                    assert forall|k: Seq<char>| #[trigger] m.contains_key(k) implies exists|j: int|
                        0 <= j < entries@.len() && entries@[j].0@ == k by {
                        if k != shortcut_type@ {
                            let j = choose|j: int|
                                0 <= j < old_entries.len() && old_entries[j].0@ == k;
                            assert(entries@[j].0@ == k);
                        } else {
                            assert(entries@[i as int].0@ == k);
                        }
                    }
                    assert forall|a: int, b: int|
                        0 <= a < entries@.len() && 0 <= b < entries@.len() && a != b
                            implies entries@[a].0@ != entries@[b].0@ by {
                        assert(entries@[a].0@ == old_entries[a].0@);
                        assert(entries@[b].0@ == old_entries[b].0@);
                    }
                }
                *self = AppShortcutManager { entries, model: Ghost(m) };
            },
            None => {
                entries.push((shortcut_type.to_string(), shortcut));
                proof {
                    let n = old_entries.len() as int;
                    assert(entries@[n].0@ == shortcut_type@);
                    assert forall|j: int| 0 <= j < entries@.len() implies {
                        &&& #[trigger] m.contains_key(entries@[j].0@)
                        &&& m[entries@[j].0@] == entries@[j].1@
                    } by {
                        if j < n {
                            assert(entries@[j] == old_entries[j]);
                            assert(old_model.contains_key(old_entries[j].0@));
                        }
                    }
                    assert forall|k: Seq<char>| #[trigger] m.contains_key(k) implies exists|j: int|
                        0 <= j < entries@.len() && entries@[j].0@ == k by {
                        if k != shortcut_type@ {
                            let j = choose|j: int|
                                0 <= j < old_entries.len() && old_entries[j].0@ == k;
                            assert(entries@[j].0@ == k);
                        } else {
                            assert(entries@[n].0@ == k);
                        }
                    }
                    assert forall|a: int, b: int|
                        0 <= a < entries@.len() && 0 <= b < entries@.len() && a != b
                            implies entries@[a].0@ != entries@[b].0@ by {
                        if a < n && b < n {
                            assert(entries@[a] == old_entries[a]);
                            assert(entries@[b] == old_entries[b]);
                        } else if a < n {
                            assert(entries@[a] == old_entries[a]);
                            assert(old_model.contains_key(old_entries[a].0@));
                        } else {
                            assert(entries@[b] == old_entries[b]);
                            assert(old_model.contains_key(old_entries[b].0@));
                        }
                    }
                }
                *self = AppShortcutManager { entries, model: Ghost(m) };
            },
        }
    }

    /// Removes whatever is stored under `shortcut_type`.
    pub fn remove_shortcut(&mut self, shortcut_type: &str)
        ensures
            final(self).view() == old(self).view().remove(shortcut_type@),
    {
        proof {
            use_type_invariant(&*self);
        }
        let ghost old_model = self.model@;
        let ghost old_entries = self.entries@;
        match self.position(shortcut_type) {
            Some(i) => {
                let mut entries = self.take_entries();
                let _ = entries.remove(i);
                let ghost m = old_model.remove(shortcut_type@);
                proof {
                    assert forall|j: int| 0 <= j < entries@.len() implies {
                        &&& #[trigger] m.contains_key(entries@[j].0@)
                        &&& m[entries@[j].0@] == entries@[j].1@
                    } by {
                        let oj = if j < i { j } else { j + 1 };
                        assert(entries@[j] == old_entries[oj]);
                        assert(old_model.contains_key(old_entries[oj].0@));
                        assert(oj != i);
                    }
                    assert forall|k: Seq<char>| #[trigger] m.contains_key(k) implies exists|j: int|
                        0 <= j < entries@.len() && entries@[j].0@ == k by {
                        let j = choose|j: int| 0 <= j < old_entries.len() && old_entries[j].0@ == k;
                        if j < i {
                            assert(entries@[j].0@ == k);
                        } else {
                            assert(j != i);
                            assert(entries@[j - 1].0@ == k);
                        }
                    }
                    assert forall|a: int, b: int|
                        0 <= a < entries@.len() && 0 <= b < entries@.len() && a != b
                            implies entries@[a].0@ != entries@[b].0@ by {
                        let oa = if a < i { a } else { a + 1 };
                        let ob = if b < i { b } else { b + 1 };
                        assert(entries@[a] == old_entries[oa]);
                        assert(entries@[b] == old_entries[ob]);
                    }
                }
                *self = AppShortcutManager { entries, model: Ghost(m) };
            },
            None => {
                assert(old_model.remove(shortcut_type@) =~= old_model);
            },
        }
    }

    /// Whether no shortcut is in force.
    pub fn is_empty(&self) -> (res: bool)
        ensures
            res == (self.view() == Map::<Seq<char>, Seq<char>>::empty()),
    {
        proof {
            use_type_invariant(self);
        }
        if self.entries.len() == 0 {
            assert(self.view() =~= Map::<Seq<char>, Seq<char>>::empty());
            true
        } else {
            assert(self.view().contains_key(self.entries@[0].0@));
            false
        }
    }

    /// Every (key, shortcut) pair in force, each key once.
    pub fn entries(&self) -> (res: Vec<(String, String)>)
        ensures
            forall|i: int|
                0 <= i < res@.len() ==> #[trigger] self.view().contains_key(res@[i].0@)
                    && self.view()[res@[i].0@] == res@[i].1@,
            forall|k: Seq<char>|
                #[trigger] self.view().contains_key(k) ==> exists|i: int|
                    0 <= i < res@.len() && res@[i].0@ == k,
            forall|i: int, j: int|
                0 <= i < res@.len() && 0 <= j < res@.len() && i != j ==> #[trigger] res@[i].0@
                    != #[trigger] res@[j].0@,
    {
        proof {
            use_type_invariant(self);
        }
        let mut out: Vec<(String, String)> = Vec::new();
        let mut i: usize = 0;
        while i < self.entries.len()
            invariant
                i <= self.entries@.len(),
                out@.len() == i,
                forall|j: int| 0 <= j < i ==> #[trigger] out@[j] == self.entries@[j],
            decreases self.entries.len() - i,
        {
            let (k, v) = (self.entries[i].0.clone(), self.entries[i].1.clone());
            out.push((k, v));
            i += 1;
        }
        assert forall|k: Seq<char>| #[trigger] self.view().contains_key(k) implies exists|j: int|
            0 <= j < out@.len() && out@[j].0@ == k by {
            let j = choose|j: int| 0 <= j < self.entries@.len() && self.entries@[j].0@ == k;
            assert(out@[j] == self.entries@[j]);
        }
        assert(out@ == self.entries@);
        out
    }
}

/// Every shortcut in force, as (configuration key, shortcut) pairs, each key once.
pub fn get_all_shortcuts(state: &AppShortcutManager) -> (res: Vec<(String, String)>)
    ensures
        forall|i: int|
            0 <= i < res@.len() ==> #[trigger] state.view().contains_key(res@[i].0@)
                && state.view()[res@[i].0@] == res@[i].1@,
        forall|k: Seq<char>|
            #[trigger] state.view().contains_key(k) ==> exists|i: int|
                0 <= i < res@.len() && res@[i].0@ == k,
        forall|i: int, j: int|
            0 <= i < res@.len() && 0 <= j < res@.len() && i != j ==> #[trigger] res@[i].0@
                != #[trigger] res@[j].0@,
{
    state.entries()
}


/// The letters a to z, in order.
pub open spec fn key_letters() -> Seq<char> {
    seq![
        'a', 'b', 'c', 'd', 'e', 'f', 'g', 'h', 'i', 'j', 'k', 'l', 'm', 'n', 'o', 'p', 'q',
        'r', 's', 't', 'u', 'v', 'w', 'x', 'y', 'z',
    ]
}

/// `s` after replacing "key" followed by each of the first `n` letters with the letter alone,
/// one letter after the other.
pub open spec fn strip_key_prefixes(s: Seq<char>, n: nat) -> Seq<char>
    decreases n,
{
    if n == 0 {
        s
    } else {
        let c = key_letters()[n - 1];
        spec_replace(strip_key_prefixes(s, (n - 1) as nat), seq!['k', 'e', 'y', c], seq![c])
    }
}

/// `s` with the modifier names unified: "ctrl" becomes "control", and "cmd",
/// "command" and "meta" become "super", in that order.
pub open spec fn unify_modifiers(s: Seq<char>) -> Seq<char> {
    spec_replace(
        spec_replace(
            spec_replace(spec_replace(s, "ctrl"@, "control"@), "cmd"@, "super"@),
            "command"@,
            "super"@,
        ),
        "meta"@,
        "super"@,
    )
}

/// The form in which shortcuts are compared: lower-cased, "keyX" written as "x",
/// and the modifier names unified.
pub open spec fn spec_normalize_shortcut(s: Seq<char>) -> Seq<char> {
    unify_modifiers(strip_key_prefixes(spec_to_lowercase(s), 26))
}

/// Brings a shortcut into the form in which shortcuts are compared, so that
/// "Ctrl+KeyC" and "control+c" match.
pub fn normalize_shortcut_format(shortcut: &str) -> (res: String)
    ensures
        res@ == spec_normalize_shortcut(shortcut@),
        all_ascii(shortcut@) ==> res@ == unify_modifiers(
            strip_key_prefixes(shortcut@.map_values(|c: char| ascii_lower(c)), 26),
        ),
{
    let lower = to_lowercase(shortcut);
    let letters: [char; 26] = [
        'a', 'b', 'c', 'd', 'e', 'f', 'g', 'h', 'i', 'j', 'k', 'l', 'm', 'n', 'o', 'p', 'q',
        'r', 's', 't', 'u', 'v', 'w', 'x', 'y', 'z',
    ];
    assert(letters@ == key_letters());
    let mut cur = to_chars(lower.as_str());
    let mut i: usize = 0;
    while i < 26
        invariant
            i <= 26,
            letters@ == key_letters(),
            cur@ == strip_key_prefixes(spec_to_lowercase(shortcut@), i as nat),
        decreases 26 - i,
    {
        let c = letters[i];
        let mut pat: Vec<char> = Vec::new();
        pat.push('k');
        pat.push('e');
        pat.push('y');
        pat.push(c);
        let mut rep: Vec<char> = Vec::new();
        rep.push(c);
        assert(pat@ == seq!['k', 'e', 'y', c]);
        assert(rep@ == seq![c]);
        cur = replace_all(&cur, &pat, &rep);
        i += 1;
    }
    proof {
        reveal_strlit("ctrl");
        reveal_strlit("cmd");
        reveal_strlit("command");
        reveal_strlit("meta");
    }
    cur = replace_all(&cur, &to_chars("ctrl"), &to_chars("control"));
    cur = replace_all(&cur, &to_chars("cmd"), &to_chars("super"));
    cur = replace_all(&cur, &to_chars("command"), &to_chars("super"));
    cur = replace_all(&cur, &to_chars("meta"), &to_chars("super"));
    crate::text::from_chars(&cur)
}

/// The key under which a shortcut is stored whose normal form equals that of
/// `received`, if any (the shortcut handler looks a pressed shortcut up this way).
pub fn find_matching_shortcut(manager: &AppShortcutManager, received: &str) -> (res: Option<
    String,
>)
    ensures
        match res {
            Some(k) => manager.view().contains_key(k@) && spec_normalize_shortcut(
                manager.view()[k@],
            ) == spec_normalize_shortcut(received@),
            None => forall|k: Seq<char>|
                #[trigger] manager.view().contains_key(k) ==> spec_normalize_shortcut(
                    manager.view()[k],
                ) != spec_normalize_shortcut(received@),
        },
{
    let wanted = normalize_shortcut_format(received);
    let wanted_chars = to_chars(wanted.as_str());
    let entries = manager.entries();
    let mut i: usize = 0;
    while i < entries.len()
        invariant
            i <= entries@.len(),
            wanted_chars@ == spec_normalize_shortcut(received@),
            forall|j: int|
                0 <= j < entries@.len() ==> #[trigger] manager.view().contains_key(entries@[j].0@)
                    && manager.view()[entries@[j].0@] == entries@[j].1@,
            forall|k: Seq<char>|
                #[trigger] manager.view().contains_key(k) ==> exists|j: int|
                    0 <= j < entries@.len() && entries@[j].0@ == k,
            forall|j: int|
                0 <= j < i ==> spec_normalize_shortcut(#[trigger] entries@[j].1@)
                    != spec_normalize_shortcut(received@),
        decreases entries.len() - i,
    {
        let n = normalize_shortcut_format(entries[i].1.as_str());
        let nc = to_chars(n.as_str());
        if chars_eq(&nc, &wanted_chars) {
            assert(manager.view().contains_key(entries@[i as int].0@));
            return Some(entries[i].0.clone());
        }
        i += 1;
    }
    assert forall|k: Seq<char>| #[trigger] manager.view().contains_key(k) implies spec_normalize_shortcut(
        manager.view()[k],
    ) != spec_normalize_shortcut(received@) by {
        let j = choose|j: int| 0 <= j < entries@.len() && entries@[j].0@ == k;
        assert(manager.view().contains_key(entries@[j].0@));
        assert(spec_normalize_shortcut(entries@[j].1@) != spec_normalize_shortcut(received@));
    }
    None
}


/// One kind of global shortcut: the name of its action, the configuration key it is
/// stored under, and the shortcut it starts with.
#[derive(Debug, PartialEq)]
pub struct ShortcutSpec {
    pub handler_key: String,
    pub storage_key: String,
    pub default_value: String,
}

/// The shortcut kinds, as (action name, configuration key, default shortcut).
pub open spec fn spec_shortcut_table() -> Seq<(Seq<char>, Seq<char>, Seq<char>)> {
    seq![
        ("toggleWindow"@, "global_shortcut"@, "Shift+V"@),
        ("pasteWindow"@, "global_shortcut_2"@, "Shift+Alt+C"@),
        ("AIWindow"@, "global_shortcut_3"@, "Shift+Ctrl+A"@),
        ("setWindow"@, "global_shortcut_4"@, "Shift+Ctrl+V"@),
        ("clearHistory"@, "global_shortcut_5"@, "Shift+Ctrl+Delete"@),
    ]
}

/// `row` describes row `i` of the shortcut table.
pub open spec fn spec_is_row(row: ShortcutSpec, i: int) -> bool {
    &&& 0 <= i < spec_shortcut_table().len()
    &&& row.handler_key@ == spec_shortcut_table()[i].0
    &&& row.storage_key@ == spec_shortcut_table()[i].1
    &&& row.default_value@ == spec_shortcut_table()[i].2
}

/// `row` is the table row of the action named `h`.
pub open spec fn spec_row_for_action(row: ShortcutSpec, h: Seq<char>) -> bool {
    exists|i: int| #[trigger] spec_is_row(row, i) && spec_shortcut_table()[i].0 == h
}

fn shortcut_row(handler_key: &str, storage_key: &str, default_value: &str) -> (res: ShortcutSpec)
    ensures
        res.handler_key@ == handler_key@,
        res.storage_key@ == storage_key@,
        res.default_value@ == default_value@,
{
    ShortcutSpec {
        handler_key: handler_key.to_string(),
        storage_key: storage_key.to_string(),
        default_value: default_value.to_string(),
    }
}

/// Every shortcut kind, in table order.
pub fn shortcut_configs() -> (res: Vec<ShortcutSpec>)
    ensures
        res@.len() == spec_shortcut_table().len(),
        forall|i: int| 0 <= i < res@.len() ==> spec_is_row(#[trigger] res@[i], i),
{
    let mut v: Vec<ShortcutSpec> = Vec::new();
    v.push(shortcut_row("toggleWindow", "global_shortcut", "Shift+V"));
    v.push(shortcut_row("pasteWindow", "global_shortcut_2", "Shift+Alt+C"));
    v.push(shortcut_row("AIWindow", "global_shortcut_3", "Shift+Ctrl+A"));
    v.push(shortcut_row("setWindow", "global_shortcut_4", "Shift+Ctrl+V"));
    v.push(shortcut_row("clearHistory", "global_shortcut_5", "Shift+Ctrl+Delete"));
    assert forall|i: int| 0 <= i < v@.len() implies spec_is_row(#[trigger] v@[i], i) by {}
    v
}

/// The shortcut kind whose action is named `handler_key`, if there is one.
pub fn shortcut_config(handler_key: &str) -> (res: Option<ShortcutSpec>)
    ensures
        res is Some ==> spec_row_for_action(res->0, handler_key@),
        res is None ==> forall|i: int|
            0 <= i < spec_shortcut_table().len() ==> #[trigger] spec_shortcut_table()[i].0
                != handler_key@,
{
    let table = shortcut_configs();
    let mut i: usize = 0;
    while i < table.len()
        invariant
            i <= table@.len(),
            table@.len() == spec_shortcut_table().len(),
            forall|j: int| 0 <= j < table@.len() ==> spec_is_row(#[trigger] table@[j], j),
            forall|j: int| 0 <= j < i ==> #[trigger] spec_shortcut_table()[j].0 != handler_key@,
        decreases table.len() - i,
    {
        if str_eq(table[i].handler_key.as_str(), handler_key) {
            let found = shortcut_row(
                table[i].handler_key.as_str(),
                table[i].storage_key.as_str(),
                table[i].default_value.as_str(),
            );
            assert(spec_is_row(table@[i as int], i as int));
            assert(spec_is_row(found, i as int) && spec_shortcut_table()[i as int].0 == handler_key@);
            assert(spec_row_for_action(found, handler_key@));
            return Some(found);
        }
        i += 1;
    }
    None
}

/// The name of the action whose shortcut is stored under `storage_key`, if there is one.
pub fn handler_key_for_storage_key(storage_key: &str) -> (res: Option<String>)
    ensures
        match res {
            Some(h) => exists|i: int|
                0 <= i < spec_shortcut_table().len() && spec_shortcut_table()[i].1 == storage_key@
                    && spec_shortcut_table()[i].0 == h@,
            None => forall|i: int|
                0 <= i < spec_shortcut_table().len() ==> #[trigger] spec_shortcut_table()[i].1
                    != storage_key@,
        },
{
    let table = shortcut_configs();
    let mut i: usize = 0;
    while i < table.len()
        invariant
            i <= table@.len(),
            table@.len() == spec_shortcut_table().len(),
            forall|j: int| 0 <= j < table@.len() ==> spec_is_row(#[trigger] table@[j], j),
            forall|j: int| 0 <= j < i ==> #[trigger] spec_shortcut_table()[j].1 != storage_key@,
        decreases table.len() - i,
    {
        if str_eq(table[i].storage_key.as_str(), storage_key) {
            assert(spec_is_row(table@[i as int], i as int));
            return Some(table[i].handler_key.clone());
        }
        i += 1;
    }
    None
}

/// The table is consistent both ways: no two kinds share an action name or a
/// configuration key, so looking a kind's configuration key up gives back that kind's
/// action, and every default shortcut is non-empty.
pub proof fn lemma_shortcut_table_integrity()
    ensures
        forall|i: int, j: int|
            0 <= i < spec_shortcut_table().len() && 0 <= j < spec_shortcut_table().len()
                && #[trigger] spec_shortcut_table()[i].1 == #[trigger] spec_shortcut_table()[j].1
                ==> i == j,
        forall|i: int, j: int|
            0 <= i < spec_shortcut_table().len() && 0 <= j < spec_shortcut_table().len()
                && spec_shortcut_table()[i].0 == spec_shortcut_table()[j].0 ==> i == j,
        forall|i: int|
            0 <= i < spec_shortcut_table().len() ==> #[trigger] spec_shortcut_table()[i].2.len()
                > 0,
{
    reveal_strlit("toggleWindow");
    reveal_strlit("pasteWindow");
    reveal_strlit("AIWindow");
    reveal_strlit("setWindow");
    reveal_strlit("clearHistory");
    reveal_strlit("global_shortcut");
    reveal_strlit("global_shortcut_2");
    reveal_strlit("global_shortcut_3");
    reveal_strlit("global_shortcut_4");
    reveal_strlit("global_shortcut_5");
    reveal_strlit("Shift+V");
    reveal_strlit("Shift+Alt+C");
    reveal_strlit("Shift+Ctrl+A");
    reveal_strlit("Shift+Ctrl+V");
    reveal_strlit("Shift+Ctrl+Delete");
    let t = spec_shortcut_table();
    assert(t[0].1.len() != t[1].1.len());
    assert(t[1].1[16] != t[2].1[16]);
    assert(t[1].1[16] != t[3].1[16]);
    assert(t[1].1[16] != t[4].1[16]);
    assert(t[2].1[16] != t[3].1[16]);
    assert(t[2].1[16] != t[4].1[16]);
    assert(t[3].1[16] != t[4].1[16]);
    assert(t[0].0.len() != t[1].0.len());
    assert(t[0].0.len() != t[2].0.len());
    assert(t[0].0.len() != t[3].0.len());
    assert(t[0].0[0] != t[4].0[0]);
    assert(t[1].0[0] != t[2].0[0]);
    assert(t[1].0[0] != t[3].0[0]);
    assert(t[1].0[0] != t[4].0[0]);
    assert(t[2].0[0] != t[3].0[0]);
    assert(t[2].0[0] != t[4].0[0]);
    assert(t[3].0[0] != t[4].0[0]);
}

/// Storing a shortcut and reading it back gives that shortcut; other keys keep what
/// they held; after removal the key holds nothing.
pub proof fn lemma_shortcut_registry_laws(
    m: Map<Seq<char>, Seq<char>>,
    k: Seq<char>,
    v: Seq<char>,
    other: Seq<char>,
)
    requires
        other != k,
    ensures
        m.insert(k, v).contains_key(k) && m.insert(k, v)[k] == v,
        m.insert(k, v).contains_key(other) == m.contains_key(other),
        m.contains_key(other) ==> m.insert(k, v)[other] == m[other],
        !m.remove(k).contains_key(k),
        m.remove(k).contains_key(other) == m.contains_key(other),
{
}


/// The shortcut that row `i` of the shortcut table takes from the settings.
pub open spec fn spec_configured_shortcut(c: Config, i: int) -> Seq<char> {
    if i == 0 {
        c.global_shortcut@
    } else if i == 1 {
        c.global_shortcut_2@
    } else if i == 2 {
        c.global_shortcut_3@
    } else if i == 3 {
        c.global_shortcut_4@
    } else {
        c.global_shortcut_5@
    }
}

/// The shortcut loaded from loaded settings for a row of the shortcut table is the
/// setting named by the row's storage key: the text value of the configuration key whose
/// name that storage key is.
pub proof fn lemma_loaded_shortcut_is_the_named_setting(c: Config, i: int, k: ConfigKey)
    requires
        0 <= i < spec_shortcut_table().len(),
        spec_key_name(k) == spec_shortcut_table()[i].1,
    ensures
        spec_value_of(c, k) matches ConfigValue::Text(v) && v@ == spec_configured_shortcut(c, i),
{
    if i == 0 {
        lemma_key_names_distinct_at(ConfigKey::GlobalShortcut);
    } else if i == 1 {
        lemma_key_names_distinct_at(ConfigKey::GlobalShortcut2);
    } else if i == 2 {
        lemma_key_names_distinct_at(ConfigKey::GlobalShortcut3);
    } else if i == 3 {
        lemma_key_names_distinct_at(ConfigKey::GlobalShortcut4);
    } else {
        lemma_key_names_distinct_at(ConfigKey::GlobalShortcut5);
    }
}

/// The shortcut to register for the configuration key `shortcut_type`: the one in the
/// settings when they are loaded, else the kind's default; the empty text for a key
/// that names no shortcut kind.
pub fn load_shortcut_from_storage(shortcut_type: &str, cfg: Option<&Config>) -> (res: String)
    ensures
        (forall|i: int|
            0 <= i < spec_shortcut_table().len() ==> #[trigger] spec_shortcut_table()[i].1
                != shortcut_type@) ==> res@.len() == 0,
        forall|i: int|
            0 <= i < spec_shortcut_table().len() && #[trigger] spec_shortcut_table()[i].1
                == shortcut_type@ ==> res@ == match cfg {
                Some(c) => spec_configured_shortcut(*c, i),
                None => spec_shortcut_table()[i].2,
            },
{
    proof {
        lemma_shortcut_table_integrity();
    }
    let handler = handler_key_for_storage_key(shortcut_type);
    let h = match handler {
        Some(h) => h,
        None => {
            return String::new();
        },
    };
    let table = shortcut_configs();
    let mut i: usize = 0;
    while i < table.len()
        invariant
            i <= table@.len(),
            table@.len() == spec_shortcut_table().len(),
            forall|j: int| 0 <= j < table@.len() ==> spec_is_row(#[trigger] table@[j], j),
            forall|j: int| 0 <= j < i ==> #[trigger] spec_shortcut_table()[j].1 != shortcut_type@,
            exists|j: int|
                0 <= j < spec_shortcut_table().len() && spec_shortcut_table()[j].1 == shortcut_type@,
        decreases table.len() - i,
    {
        if str_eq(table[i].storage_key.as_str(), shortcut_type) {
            assert(spec_is_row(table@[i as int], i as int));
            assert forall|j: int|
                0 <= j < spec_shortcut_table().len() && #[trigger] spec_shortcut_table()[j].1
                    == shortcut_type@ implies j == i by {
                lemma_shortcut_table_integrity();
                assert(spec_shortcut_table()[j].1 == spec_shortcut_table()[i as int].1);
            }
            return match cfg {
                Some(c) => {
                    if i == 0 {
                        c.global_shortcut.clone()
                    } else if i == 1 {
                        c.global_shortcut_2.clone()
                    } else if i == 2 {
                        c.global_shortcut_3.clone()
                    } else if i == 3 {
                        c.global_shortcut_4.clone()
                    } else {
                        c.global_shortcut_5.clone()
                    }
                },
                None => table[i].default_value.clone(),
            };
        }
        i += 1;
    }
    String::new()
}

/// The shortcut stored under `shortcut_type`, or "快捷键未找到" when there is none.
pub fn get_current_shortcut(manager: &AppShortcutManager, shortcut_type: &str) -> (res: Result<
    String,
    String,
>)
    ensures
        manager.view().contains_key(shortcut_type@) ==> res is Ok && res->Ok_0@ == manager.view()[shortcut_type@],
        !manager.view().contains_key(shortcut_type@) ==> res is Err && res->Err_0@ == "快捷键未找到"@,
{
    match manager.get_shortcut(shortcut_type) {
        Some(s) => Ok(s),
        None => Err("快捷键未找到".to_string()),
    }
}

/// The message when a new shortcut cannot be registered (it may be taken).
pub fn registration_failure(e: &str) -> (res: String)
    ensures
        res@ == "注册快捷键失败，可能已被占用: "@ + e@,
{
    let mut s = "注册快捷键失败，可能已被占用: ".to_string();
    s.append(e);
    s
}

/// The settings with the shortcut of table row `i` set to `s`.
pub open spec fn with_row_shortcut(c: Config, i: int, s: String) -> Config {
    if i == 0 {
        with_global_shortcut(c, s)
    } else if i == 1 {
        with_global_shortcut_2(c, s)
    } else if i == 2 {
        with_global_shortcut_3(c, s)
    } else if i == 3 {
        with_global_shortcut_4(c, s)
    } else {
        with_global_shortcut_5(c, s)
    }
}

/// After the shortcut `shortcut` was registered for `shortcut_type`: it is put in force
/// under that name and, when the name is that of an action, written to the action's
/// setting (which the caller then saves).
pub fn record_shortcut(
    manager: &mut AppShortcutManager,
    cfg: &mut Config,
    shortcut_type: &str,
    shortcut: String,
)
    ensures
        final(manager).view() == old(manager).view().insert(shortcut_type@, shortcut@),
        (forall|i: int|
            0 <= i < spec_shortcut_table().len() ==> #[trigger] spec_shortcut_table()[i].0
                != shortcut_type@) ==> *final(cfg) == *old(cfg),
        forall|i: int|
            0 <= i < spec_shortcut_table().len() && #[trigger] spec_shortcut_table()[i].0
                == shortcut_type@ ==> *final(cfg) == with_row_shortcut(*old(cfg), i, shortcut),
{
    manager.set_shortcut(shortcut_type, shortcut.clone());
    if let Some(row) = shortcut_config(shortcut_type) {
        let ghost i = choose|i: int| #[trigger] spec_is_row(row, i) && spec_shortcut_table()[i].0 == shortcut_type@;
        proof {
            lemma_shortcut_table_integrity();
            lemma_parse_config_key_roundtrip(ConfigKey::GlobalShortcut);
            lemma_parse_config_key_roundtrip(ConfigKey::GlobalShortcut2);
            lemma_parse_config_key_roundtrip(ConfigKey::GlobalShortcut3);
            lemma_parse_config_key_roundtrip(ConfigKey::GlobalShortcut4);
            lemma_parse_config_key_roundtrip(ConfigKey::GlobalShortcut5);
        }
        let _ = begin_internal_update(cfg, row.storage_key.as_str(), Some(ConfigValue::Text(shortcut)));
    }
}

} // verus!
