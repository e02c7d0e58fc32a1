//! The global keyboard and mouse listener's decisions: which listeners are on, whether a
//! listening thread must be started, and what each input event is reported as.
use vstd::prelude::*;
use crate::text::{contains, is_whitespace, spec_contains, spec_is_whitespace, to_chars};

verus! {

/// Which kinds of input are reported, and whether the listening thread runs.
#[derive(Debug, Clone, Copy, PartialEq, Eq, Structural)]
pub struct ListenerFlags {
    pub keys: bool,
    pub buttons: bool,
    pub movement: bool,
    pub thread_started: bool,
}

impl ListenerFlags {
    /// Nothing is reported and no thread runs.
    pub fn new() -> (res: Self)
        ensures
            !res.keys && !res.buttons && !res.movement && !res.thread_started,
    {
        ListenerFlags { keys: false, buttons: false, movement: false, thread_started: false }
    }
}

/// Turns key reporting on; the result says whether the listening thread is to be
/// started now (it is started once).
pub fn start_key_listener(flags: &mut ListenerFlags) -> (spawn: bool)
    ensures
        spawn == !old(flags).thread_started,
        *final(flags) == (ListenerFlags { keys: true, thread_started: true, ..*old(flags) }),
{
    flags.keys = true;
    let spawn = !flags.thread_started;
    flags.thread_started = true;
    spawn
}

/// Turns key reporting off; the thread keeps running.
pub fn stop_key_listener(flags: &mut ListenerFlags)
    ensures
        *final(flags) == (ListenerFlags { keys: false, ..*old(flags) }),
{
    flags.keys = false;
}

/// Turns button reporting on; when no thread runs yet, key reporting is turned on too and
/// the thread is to be started (the result).
pub fn start_mouse_button_listener(flags: &mut ListenerFlags) -> (spawn: bool)
    ensures
        spawn == !old(flags).thread_started,
        final(flags).buttons && final(flags).thread_started,
        final(flags).movement == old(flags).movement,
        final(flags).keys == (old(flags).keys || !old(flags).thread_started),
{
    flags.buttons = true;
    if !flags.thread_started {
        start_key_listener(flags)
    } else {
        false
    }
}

/// Turns movement reporting on; when no thread runs yet, key reporting is turned on too
/// and the thread is to be started (the result). The caller reads the screen size.
pub fn start_mouse_move_listener(flags: &mut ListenerFlags) -> (spawn: bool)
    ensures
        spawn == !old(flags).thread_started,
        final(flags).movement && final(flags).thread_started,
        final(flags).buttons == old(flags).buttons,
        final(flags).keys == (old(flags).keys || !old(flags).thread_started),
{
    flags.movement = true;
    if !flags.thread_started {
        start_key_listener(flags)
    } else {
        false
    }
}

/// Turns button and movement reporting off.
pub fn stop_mouse_listener(flags: &mut ListenerFlags)
    ensures
        *final(flags) == (ListenerFlags { buttons: false, movement: false, ..*old(flags) }),
{
    flags.buttons = false;
    flags.movement = false;
}

/// A mouse button as the listener reports it (`Unknown` carries the platform's code).
#[derive(Debug, Clone, Copy, PartialEq, Eq, Structural)]
pub enum MouseButton {
    Left,
    Right,
    Middle,
    Unknown(u8),
}

/// The name a button is reported under: side buttons 4, 5 and 6 are "back", "forward"
/// and "task".
pub open spec fn spec_button_name(b: MouseButton) -> Seq<char> {
    match b {
        MouseButton::Left => "left"@,
        MouseButton::Right => "right"@,
        MouseButton::Middle => "middle"@,
        MouseButton::Unknown(code) => if code == 4 {
            "back"@
        } else if code == 5 {
            "forward"@
        } else if code == 6 {
            "task"@
        } else {
            "unknown"@
        },
    }
}

/// The name a button is reported under.
pub fn button_name(b: MouseButton) -> (res: &'static str)
    ensures
        res@ == spec_button_name(b),
{
    match b {
        MouseButton::Left => "left",
        MouseButton::Right => "right",
        MouseButton::Middle => "middle",
        MouseButton::Unknown(code) => if code == 4 {
            "back"
        } else if code == 5 {
            "forward"
        } else if code == 6 {
            "task"
        } else {
            "unknown"
        },
    }
}

/// An input event, with the key's name as the listener writes it.
#[derive(Debug)]
pub enum InputEvent {
    KeyPress(String),
    KeyRelease(String),
    ButtonPress(MouseButton),
    ButtonRelease(MouseButton),
    /// The pointer moved; the caller keeps the coordinates.
    MouseMove,
    Wheel,
    Other,
}

/// What is sent to the front end for an event.
#[derive(Debug, PartialEq)]
pub enum Emission {
    /// A "key-monitor-event" with the key's name and "down" or "up".
    Key { key: String, kind: &'static str },
    /// A "mouse-button-event" with the button's name and "down" or "up".
    Button { button: &'static str, kind: &'static str },
    /// A "mouse-move-event" with the normalised position.
    Move,
}

/// What is reported for `event`: key presses and releases with a name while keys are
/// reported, button presses and releases while buttons are reported, movement while
/// movement is reported; wheel and other events never.
pub fn input_emission(flags: ListenerFlags, event: InputEvent) -> (res: Option<Emission>)
    ensures
        match event {
            InputEvent::KeyPress(k) => if flags.keys && k@.len() > 0 {
                res matches Some(Emission::Key { key, kind }) && key == k && kind@ == "down"@
            } else {
                res is None
            },
            InputEvent::KeyRelease(k) => if flags.keys && k@.len() > 0 {
                res matches Some(Emission::Key { key, kind }) && key == k && kind@ == "up"@
            } else {
                res is None
            },
            InputEvent::ButtonPress(b) => if flags.buttons {
                res matches Some(Emission::Button { button, kind }) && button@ == spec_button_name(b)
                    && kind@ == "down"@
            } else {
                res is None
            },
            InputEvent::ButtonRelease(b) => if flags.buttons {
                res matches Some(Emission::Button { button, kind }) && button@ == spec_button_name(b)
                    && kind@ == "up"@
            } else {
                res is None
            },
            InputEvent::MouseMove => if flags.movement {
                res matches Some(Emission::Move)
            } else {
                res is None
            },
            _ => res is None,
        },
{
    match event {
        InputEvent::KeyPress(k) => if flags.keys && !k.as_str().is_empty() {
            Some(Emission::Key { key: k, kind: "down" })
        } else {
            None
        },
        InputEvent::KeyRelease(k) => if flags.keys && !k.as_str().is_empty() {
            Some(Emission::Key { key: k, kind: "up" })
        } else {
            None
        },
        InputEvent::ButtonPress(b) => if flags.buttons {
            Some(Emission::Button { button: button_name(b), kind: "down" })
        } else {
            None
        },
        InputEvent::ButtonRelease(b) => if flags.buttons {
            Some(Emission::Button { button: button_name(b), kind: "up" })
        } else {
            None
        },
        InputEvent::MouseMove => if flags.movement {
            Some(Emission::Move)
        } else {
            None
        },
        _ => None,
    }
}

// ---------------------------------------------------------------- screen size

/// The lines of `s` as `str::lines` gives them, continuing with the line `cur` already
/// read: lines end at '\n', a '\r' before the '\n' is dropped, and a final line ending
/// adds no empty line.
pub open spec fn lines_acc(s: Seq<char>, cur: Seq<char>) -> Seq<Seq<char>>
    decreases s.len(),
{
    if s.len() == 0 {
        if cur.len() == 0 {
            Seq::empty()
        } else {
            seq![cur]
        }
    } else if s[0] == '\n' {
        seq![strip_cr(cur)] + lines_acc(s.skip(1), Seq::empty())
    } else {
        lines_acc(s.skip(1), cur.push(s[0]))
    }
}

/// `l` without one trailing carriage return.
pub open spec fn strip_cr(l: Seq<char>) -> Seq<char> {
    if l.len() > 0 && l.last() == '\r' {
        l.drop_last()
    } else {
        l
    }
}

/// The words of `s` as `str::split_whitespace` gives them, continuing with the word `cur`
/// already read.
pub open spec fn words_acc(s: Seq<char>, cur: Seq<char>) -> Seq<Seq<char>>
    decreases s.len(),
{
    if s.len() == 0 {
        if cur.len() == 0 {
            Seq::empty()
        } else {
            seq![cur]
        }
    } else if spec_is_whitespace(s[0]) {
        (if cur.len() == 0 {
            Seq::empty()
        } else {
            seq![cur]
        }) + words_acc(s.skip(1), Seq::empty())
    } else {
        words_acc(s.skip(1), cur.push(s[0]))
    }
}

/// `s` split at the first `c` (`str::split_once`).
pub open spec fn split_once(s: Seq<char>, c: char) -> Option<(Seq<char>, Seq<char>)>
    decreases s.len(),
{
    if s.len() == 0 {
        None
    } else if s[0] == c {
        Some((Seq::empty(), s.skip(1)))
    } else {
        match split_once(s.skip(1), c) {
            Some((a, b)) => Some((seq![s[0]] + a, b)),
            None => None,
        }
    }
}

/// The value of a string of decimal digits.
pub open spec fn digits_value(d: Seq<char>) -> int
    decreases d.len(),
{
    if d.len() == 0 {
        0
    } else {
        10 * digits_value(d.drop_last()) + ((d.last() as int) - ('0' as int))
    }
}

/// Whether every character of `d` is an ASCII digit.
pub open spec fn all_digits(d: Seq<char>) -> bool {
    forall|i: int| 0 <= i < d.len() ==> '0' <= #[trigger] d[i] && d[i] <= '9'
}

/// What `str::parse::<u32>` gives: an optional '+' and at least one ASCII digit, with a
/// value that fits in 32 bits.
pub open spec fn spec_parse_u32(s: Seq<char>) -> Option<u32> {
    let d = if s.len() > 0 && s[0] == '+' {
        s.skip(1)
    } else {
        s
    };
    if d.len() > 0 && all_digits(d) && digits_value(d) <= u32::MAX {
        Some(digits_value(d) as u32)
    } else {
        None
    }
}

/// The size a word of xrandr's output gives: "<width>x<height>+..." with both numbers.
pub open spec fn spec_word_size(w: Seq<char>) -> Option<(u32, u32)> {
    match split_once(w, 'x') {
        Some((ws, rest)) => match split_once(rest, '+') {
            Some((hs, _)) => match (spec_parse_u32(ws), spec_parse_u32(hs)) {
                (Some(a), Some(b)) => Some((a, b)),
                _ => None,
            },
            None => None,
        },
        None => None,
    }
}

/// The first size among the words.
pub open spec fn first_word_size(ws: Seq<Seq<char>>) -> Option<(u32, u32)>
    decreases ws.len(),
{
    if ws.len() == 0 {
        None
    } else {
        match spec_word_size(ws[0]) {
            Some(sz) => Some(sz),
            None => first_word_size(ws.skip(1)),
        }
    }
}

/// The first size found on the lines that contain " connected".
pub open spec fn first_line_size(ls: Seq<Seq<char>>) -> Option<(u32, u32)>
    decreases ls.len(),
{
    if ls.len() == 0 {
        None
    } else {
        let here = if spec_contains(ls[0], " connected"@) {
            first_word_size(words_acc(ls[0], Seq::empty()))
        } else {
            None
        };
        match here {
            Some(sz) => Some(sz),
            None => first_line_size(ls.skip(1)),
        }
    }
}

/// The screen size that xrandr's output reports: the first "<width>x<height>+.." word on
/// a line of a connected output.
pub open spec fn spec_screen_size(output: Seq<char>) -> Option<(u32, u32)> {
    first_line_size(lines_acc(output, Seq::empty()))
}

/// A longer string of digits is worth at least as much.
proof fn lemma_digits_value_grows(d: Seq<char>, k: int)
    requires
        0 <= k <= d.len(),
        all_digits(d),
    ensures
        digits_value(d.subrange(0, k)) <= digits_value(d),
        0 <= digits_value(d.subrange(0, k)),
    decreases d.len() - k,
{
    if k < d.len() {
        assert(d.subrange(0, k + 1).drop_last() =~= d.subrange(0, k));
        assert(d.subrange(0, k + 1).last() == d[k]);
        lemma_digits_value_grows(d, k + 1);
    } else {
        assert(d.subrange(0, k) =~= d);
        lemma_digits_value_nonneg(d);
    }
}

proof fn lemma_digits_value_nonneg(d: Seq<char>)
    requires
        all_digits(d),
    ensures
        0 <= digits_value(d),
    decreases d.len(),
{
    if d.len() > 0 {
        assert(all_digits(d.drop_last()));
        lemma_digits_value_nonneg(d.drop_last());
        assert(d[d.len() - 1] == d.last());
    }
}

/// `str::parse::<u32>`.
pub fn parse_u32(s: &Vec<char>) -> (res: Option<u32>)
    ensures
        res == spec_parse_u32(s@),
{
    let start: usize = if s.len() > 0 && s[0] == '+' {
        1
    } else {
        0
    };
    let ghost d = if s@.len() > 0 && s@[0] == '+' {
        s@.skip(1)
    } else {
        s@
    };
    assert(d =~= s@.skip(start as int));
    if start >= s.len() {
        return None;
    }
    let mut acc: u64 = 0;
    let mut i: usize = start;
    while i < s.len()
        invariant
            start <= i <= s.len(),
            start < s.len(),
            d == s@.skip(start as int),
            d == (if s@.len() > 0 && s@[0] == '+' {
                s@.skip(1)
            } else {
                s@
            }),
            all_digits(s@.subrange(start as int, i as int)),
            acc == digits_value(s@.subrange(start as int, i as int)),
            acc <= u32::MAX,
        decreases s.len() - i,
    {
        let c = s[i];
        if !('0' <= c && c <= '9') {
            assert(d[i - start] == c);
            assert(!all_digits(d));
            return None;
        }
        let ghost pre = s@.subrange(start as int, i as int);
        assert(s@.subrange(start as int, i + 1).drop_last() =~= pre);
        assert(s@.subrange(start as int, i + 1).last() == c);
        let dv: u64 = (c as u64) - ('0' as u64);
        let next: u64 = acc * 10 + dv;
        assert(all_digits(s@.subrange(start as int, i + 1)));
        if next > 4294967295 {
            proof {
                assert(digits_value(s@.subrange(start as int, i + 1)) == next);
                if all_digits(d) {
                    assert(s@.subrange(start as int, i + 1) =~= d.subrange(0, i + 1 - start));
                    lemma_digits_value_grows(d, i + 1 - start);
                }
            }
            return None;
        }
        acc = next;
        i += 1;
    }
    assert(s@.subrange(start as int, s.len() as int) =~= d);
    Some(acc as u32)
}

/// `s` split at the first `c`.
fn split_once_exec(s: &Vec<char>, c: char) -> (res: Option<(Vec<char>, Vec<char>)>)
    ensures
        match res {
            Some((a, b)) => split_once(s@, c) == Some((a@, b@)),
            None => split_once(s@, c) is None,
        },
{
    let mut i: usize = 0;
    while i < s.len() && s[i] != c
        invariant
            i <= s.len(),
            forall|j: int| 0 <= j < i ==> s@[j] != c,
        decreases s.len() - i,
    {
        i += 1;
    }
    proof {
        lemma_split_once_at(s@, c, i as int);
    }
    if i == s.len() {
        return None;
    }
    let mut a: Vec<char> = Vec::new();
    let mut k: usize = 0;
    while k < i
        invariant
            k <= i < s.len(),
            a@ == s@.subrange(0, k as int),
        decreases i - k,
    {
        a.push(s[k]);
        assert(s@.subrange(0, k + 1) =~= s@.subrange(0, k as int).push(s@[k as int]));
        k += 1;
    }
    let mut b: Vec<char> = Vec::new();
    let mut m: usize = i + 1;
    while m < s.len()
        invariant
            i < m <= s.len(),
            b@ == s@.subrange(i + 1, m as int),
        decreases s.len() - m,
    {
        b.push(s[m]);
        assert(s@.subrange(i + 1, m + 1) =~= s@.subrange(i + 1, m as int).push(s@[m as int]));
        m += 1;
    }
    assert(s@.subrange(i + 1, s.len() as int) =~= s@.skip(i + 1));
    Some((a, b))
}

/// Where the first `c` is tells what splitting at it gives.
proof fn lemma_split_once_at(s: Seq<char>, c: char, i: int)
    requires
        0 <= i <= s.len(),
        forall|j: int| 0 <= j < i ==> s[j] != c,
        i < s.len() ==> s[i] == c,
    ensures
        i == s.len() ==> split_once(s, c) is None,
        i < s.len() ==> split_once(s, c) == Some((s.subrange(0, i), s.skip(i + 1))),
    decreases i,
{
    if i > 0 {
        lemma_split_once_at(s.skip(1), c, i - 1);
        if i < s.len() {
            assert(s.skip(1).skip(i) =~= s.skip(i + 1));
            assert(seq![s[0]] + s.skip(1).subrange(0, i - 1) =~= s.subrange(0, i));
        }
    } else if s.len() > 0 {
        assert(s.subrange(0, 0) =~= Seq::<char>::empty());
    }
}

/// The size a word gives, if any.
fn word_size(w: &Vec<char>) -> (res: Option<(u32, u32)>)
    ensures
        res == spec_word_size(w@),
{
    match split_once_exec(w, 'x') {
        Some((ws, rest)) => match split_once_exec(&rest, '+') {
            Some((hs, _)) => match (parse_u32(&ws), parse_u32(&hs)) {
                (Some(a), Some(b)) => Some((a, b)),
                _ => None,
            },
            None => None,
        },
        None => None,
    }
}

/// The words of `s`.
fn split_words(s: &Vec<char>) -> (res: Vec<Vec<char>>)
    ensures
        res@.map_values(|v: Vec<char>| v@) == words_acc(s@, Seq::empty()),
{
    let mut out: Vec<Vec<char>> = Vec::new();
    let mut cur: Vec<char> = Vec::new();
    let mut i: usize = 0;
    assert(s@.skip(0) =~= s@);
    while i < s.len()
        invariant
            i <= s.len(),
            words_acc(s@, Seq::empty()) == out@.map_values(|v: Vec<char>| v@) + words_acc(
                s@.skip(i as int),
                cur@,
            ),
        decreases s.len() - i,
    {
        let ghost rest = s@.skip(i as int);
        assert(rest[0] == s@[i as int]);
        assert(rest.skip(1) =~= s@.skip(i + 1));
        let ghost before = out@.map_values(|v: Vec<char>| v@);
        if is_whitespace(s[i]) {
            if cur.len() > 0 {
                let w = cur;
                cur = Vec::new();
                let ghost wv = w@;
                out.push(w);
                assert(out@.map_values(|v: Vec<char>| v@) =~= before.push(wv));
                assert(before + (seq![wv] + words_acc(s@.skip(i + 1), Seq::empty())) =~= before.push(
                    wv,
                ) + words_acc(s@.skip(i + 1), Seq::empty()));
            } else {
                assert(Seq::<Seq<char>>::empty() + words_acc(s@.skip(i + 1), Seq::empty()) =~= words_acc(
                    s@.skip(i + 1),
                    Seq::empty(),
                ));
                cur = Vec::new();
            }
        } else {
            cur.push(s[i]);
        }
        i += 1;
    }
    if cur.len() > 0 {
        let ghost before = out@.map_values(|v: Vec<char>| v@);
        let ghost cv = cur@;
        out.push(cur);
        assert(out@.map_values(|v: Vec<char>| v@) =~= before.push(cv));
    } else {
        assert(out@.map_values(|v: Vec<char>| v@) + Seq::<Seq<char>>::empty() =~= out@.map_values(
            |v: Vec<char>| v@,
        ));
    }
    out
}

/// The lines of `s`.
fn split_lines(s: &Vec<char>) -> (res: Vec<Vec<char>>)
    ensures
        res@.map_values(|v: Vec<char>| v@) == lines_acc(s@, Seq::empty()),
{
    let mut out: Vec<Vec<char>> = Vec::new();
    let mut cur: Vec<char> = Vec::new();
    let mut i: usize = 0;
    assert(s@.skip(0) =~= s@);
    while i < s.len()
        invariant
            i <= s.len(),
            lines_acc(s@, Seq::empty()) == out@.map_values(|v: Vec<char>| v@) + lines_acc(
                s@.skip(i as int),
                cur@,
            ),
        decreases s.len() - i,
    {
        let ghost rest = s@.skip(i as int);
        assert(rest[0] == s@[i as int]);
        assert(rest.skip(1) =~= s@.skip(i + 1));
        let ghost before = out@.map_values(|v: Vec<char>| v@);
        if s[i] == '\n' {
            let mut line = cur;
            cur = Vec::new();
            if line.len() > 0 && line[line.len() - 1] == '\r' {
                line.pop();
            }
            let ghost lv = line@;
            out.push(line);
            assert(out@.map_values(|v: Vec<char>| v@) =~= before.push(lv));
            assert(before + (seq![lv] + lines_acc(s@.skip(i + 1), Seq::empty())) =~= before.push(lv)
                + lines_acc(s@.skip(i + 1), Seq::empty()));
        } else {
            cur.push(s[i]);
        }
        i += 1;
    }
    if cur.len() > 0 {
        let ghost before = out@.map_values(|v: Vec<char>| v@);
        let ghost cv = cur@;
        out.push(cur);
        assert(out@.map_values(|v: Vec<char>| v@) =~= before.push(cv));
    } else {
        assert(out@.map_values(|v: Vec<char>| v@) + Seq::<Seq<char>>::empty() =~= out@.map_values(
            |v: Vec<char>| v@,
        ));
    }
    out
}

/// The first size among the words.
fn first_size(words: &Vec<Vec<char>>) -> (res: Option<(u32, u32)>)
    ensures
        res == first_word_size(words@.map_values(|v: Vec<char>| v@)),
{
    let ghost wv = words@.map_values(|v: Vec<char>| v@);
    let mut k: usize = 0;
    assert(wv.skip(0) =~= wv);
    while k < words.len()
        invariant
            wv == words@.map_values(|v: Vec<char>| v@),
            k <= words.len(),
            first_word_size(wv.skip(k as int)) == first_word_size(wv),
        decreases words.len() - k,
    {
        let ghost wrest = wv.skip(k as int);
        assert(wrest[0] == words@[k as int]@);
        assert(wrest.skip(1) =~= wv.skip(k + 1));
        match word_size(&words[k]) {
            Some(sz) => {
                return Some(sz);
            },
            None => {},
        }
        k += 1;
    }
    assert(wv.skip(k as int) =~= Seq::<Seq<char>>::empty());
    None
}

/// The screen size that xrandr's output reports, if any.
pub fn parse_screen_size(output: &str) -> (res: Option<(u32, u32)>)
    ensures
        res == spec_screen_size(output@),
{
    let lines = split_lines(&to_chars(output));
    let ghost lv = lines@.map_values(|v: Vec<char>| v@);
    let marker = to_chars(" connected");
    let mut i: usize = 0;
    assert(lv.skip(0) =~= lv);
    while i < lines.len()
        invariant
            lv == lines@.map_values(|v: Vec<char>| v@),
            lv == lines_acc(output@, Seq::empty()),
            marker@ == " connected"@,
            i <= lines.len(),
            first_line_size(lv.skip(i as int)) == spec_screen_size(output@),
        decreases lines.len() - i,
    {
        let ghost rest = lv.skip(i as int);
        assert(rest[0] == lines@[i as int]@);
        assert(rest.skip(1) =~= lv.skip(i + 1));
        if contains(&lines[i], &marker) {
            let words = split_words(&lines[i]);
            match first_size(&words) {
                Some(sz) => {
                    return Some(sz);
                },
                None => {},
            }
        }
        i += 1;
    }
    assert(lv.skip(i as int) =~= Seq::<Seq<char>>::empty());
    None
}

/// The screen size to use: the one read, or 1920 by 1080 when none could be read.
pub fn screen_size_or_default(parsed: Option<(u32, u32)>) -> (res: (u32, u32))
    ensures
        res == match parsed {
            Some(sz) => sz,
            None => (1920u32, 1080u32),
        },
{
    match parsed {
        Some(sz) => sz,
        None => (1920, 1080),
    }
}

// ---------------------------------------------------------------- window and tray

/// What toggling the main window does: a visible window is hidden, a hidden one is shown
/// and focused.
#[derive(Debug, Clone, Copy, PartialEq, Eq, Structural)]
pub enum WindowToggle {
    Hide,
    ShowAndFocus,
}

/// The toggle for a window whose visibility is `visible`.
pub fn window_toggle(visible: bool) -> (res: WindowToggle)
    ensures
        visible ==> res == WindowToggle::Hide,
        !visible ==> res == WindowToggle::ShowAndFocus,
{
    if visible {
        WindowToggle::Hide
    } else {
        WindowToggle::ShowAndFocus
    }
}

/// Whether a click on the tray icon counts: clicks less than 200 ms after the last one
/// that counted are dropped.
pub fn tray_click_counts(ms_since_last: u64) -> (res: bool)
    ensures
        res == (ms_since_last >= 200),
{
    ms_since_last >= 200
}

} // verus!
