//! Character-level string helpers shared by the other modules.
use vstd::prelude::*;
use vstd::std_specs::iter::IteratorSpec;

verus! {

broadcast use vstd::string::group_string_axioms;

/// Appends one character to a `String` (`String::push`).
/// Trusted: the result is the old contents followed by `c`, as std documents.
#[verifier::external_body]
pub(crate) fn push_char(s: &mut String, c: char)
    ensures
        final(s)@ == old(s)@.push(c),
{
    s.push(c);
}

/// The characters of `s`, in order.
pub fn to_chars(s: &str) -> (res: Vec<char>)
    ensures
        res@ == s@,
{
    let mut it = s.chars();
    let mut res: Vec<char> = Vec::new();
    loop
        invariant
            it.obeys_prophetic_iter_laws(),
            it.decrease() is Some,
            res@ + it.remaining() == s@,
        ensures
            res@ == s@,
        decreases it.decrease()->0,
    {
        match it.next() {
            Some(c) => {
                res.push(c);
            },
            None => {
                break;
            },
        }
    }
    res
}

/// A `String` holding exactly the characters of `v`.
pub fn from_chars(v: &Vec<char>) -> (res: String)
    ensures
        res@ == v@,
{
    let mut res = String::new();
    let mut i: usize = 0;
    while i < v.len()
        invariant
            i <= v.len(),
            res@ == v@.subrange(0, i as int),
        decreases v.len() - i,
    {
        push_char(&mut res, v[i]);
        assert(v@.subrange(0, i + 1) == v@.subrange(0, i as int).push(v@[i as int]));
        i += 1;
    }
    assert(v@.subrange(0, v.len() as int) == v@);
    res
}


/// `p` occurs in `s` at position `i`.
pub open spec fn occurs_at(s: Seq<char>, p: Seq<char>, i: int) -> bool {
    0 <= i && i + p.len() <= s.len() && s.subrange(i, i + p.len()) == p
}

/// `s` begins with `p`.
pub open spec fn spec_starts_with(s: Seq<char>, p: Seq<char>) -> bool {
    occurs_at(s, p, 0)
}

/// `s` ends with `p`.
pub open spec fn spec_ends_with(s: Seq<char>, p: Seq<char>) -> bool {
    p.len() <= s.len() && s.subrange(s.len() - p.len(), s.len() as int) == p
}

/// `p` occurs somewhere in `s`.
pub open spec fn spec_contains(s: Seq<char>, p: Seq<char>) -> bool {
    exists|i: int| occurs_at(s, p, i)
}

/// Every non-overlapping occurrence of `p` in `s`, found from left to right,
/// replaced by `t` (what `str::replace` computes for a non-empty pattern).
pub open spec fn spec_replace(s: Seq<char>, p: Seq<char>, t: Seq<char>) -> Seq<char>
    recommends
        p.len() > 0,
    decreases s.len(),
{
    if p.len() == 0 || s.len() < p.len() {
        s
    } else if s.subrange(0, p.len() as int) == p {
        t + spec_replace(s.skip(p.len() as int), p, t)
    } else {
        seq![s[0]] + spec_replace(s.skip(1), p, t)
    }
}

/// The first occurrence of `p` in `s` replaced by `t` (`str::replacen` with a count of one;
/// an empty `p` occurs at the start).
pub open spec fn spec_replace_first(s: Seq<char>, p: Seq<char>, t: Seq<char>) -> Seq<char>
    decreases s.len(),
{
    if p.len() == 0 {
        t + s
    } else if s.len() < p.len() {
        s
    } else if s.subrange(0, p.len() as int) == p {
        t + s.skip(p.len() as int)
    } else {
        seq![s[0]] + spec_replace_first(s.skip(1), p, t)
    }
}

/// Scanning `s` from position `i` for non-overlapping occurrences of `p`, where the
/// piece being read began at `start`: the piece that follows the last occurrence.
pub open spec fn split_last_from(s: Seq<char>, p: Seq<char>, i: int, start: int) -> Seq<char>
    decreases s.len() - i,
{
    if p.len() == 0 || i < 0 || i + p.len() > s.len() {
        s.skip(start)
    } else if occurs_at(s, p, i) {
        split_last_from(s, p, i + p.len(), i + p.len())
    } else {
        split_last_from(s, p, i + 1, start)
    }
}

/// The last piece of `s` split at `p` (`str::split(p).last()`): what follows the
/// last occurrence met when scanning from the left, or all of `s` when `p` does not occur.
pub open spec fn spec_split_last(s: Seq<char>, p: Seq<char>) -> Seq<char> {
    split_last_from(s, p, 0, 0)
}

/// Whether `a` and `b` hold the same characters.
pub fn chars_eq(a: &Vec<char>, b: &Vec<char>) -> (res: bool)
    ensures
        res == (a@ == b@),
{
    if a.len() != b.len() {
        return false;
    }
    let mut i: usize = 0;
    while i < a.len()
        invariant
            a.len() == b.len(),
            i <= a.len(),
            forall|j: int| 0 <= j < i ==> a@[j] == b@[j],
        decreases a.len() - i,
    {
        if a[i] != b[i] {
            return false;
        }
        i += 1;
    }
    assert(a@ =~= b@);
    true
}

/// Whether two string slices hold the same characters.
pub fn str_eq(a: &str, b: &str) -> (res: bool)
    ensures
        res == (a@ == b@),
{
    let va = to_chars(a);
    let vb = to_chars(b);
    chars_eq(&va, &vb)
}

/// Whether `p` occurs in `s` at position `i`.
pub fn occurs_at_exec(s: &Vec<char>, p: &Vec<char>, i: usize) -> (res: bool)
    ensures
        res == occurs_at(s@, p@, i as int),
{
    if i > s.len() || p.len() > s.len() - i {
        return false;
    }
    let mut j: usize = 0;
    while j < p.len()
        invariant
            i + p.len() <= s.len(),
            j <= p.len(),
            forall|k: int| 0 <= k < j ==> s@[i + k] == p@[k],
        decreases p.len() - j,
    {
        if s[i + j] != p[j] {
            assert(s@.subrange(i as int, i + p.len())[j as int] != p@[j as int]);
            return false;
        }
        j += 1;
    }
    assert(s@.subrange(i as int, i + p.len()) =~= p@);
    true
}

/// Whether `s` begins with `p`.
pub fn starts_with(s: &Vec<char>, p: &Vec<char>) -> (res: bool)
    ensures
        res == spec_starts_with(s@, p@),
{
    occurs_at_exec(s, p, 0)
}

/// Whether `s` ends with `p`.
pub fn ends_with(s: &Vec<char>, p: &Vec<char>) -> (res: bool)
    ensures
        res == spec_ends_with(s@, p@),
{
    if p.len() > s.len() {
        return false;
    }
    let r = occurs_at_exec(s, p, s.len() - p.len());
    r
}

/// Whether `p` occurs somewhere in `s`.
pub fn contains(s: &Vec<char>, p: &Vec<char>) -> (res: bool)
    ensures
        res == spec_contains(s@, p@),
{
    if p.len() == 0 {
        assert(s@.subrange(0, 0) =~= p@);
        assert(occurs_at(s@, p@, 0));
        return true;
    }
    let mut i: usize = 0;
    while i < s.len()
        invariant
            p.len() > 0,
            i <= s.len(),
            forall|k: int| 0 <= k < i ==> !occurs_at(s@, p@, k),
        decreases s.len() - i,
    {
        if occurs_at_exec(s, p, i) {
            return true;
        }
        i += 1;
    }
    assert forall|k: int| !occurs_at(s@, p@, k) by {
        if 0 <= k < i {
        }
    }
    false
}

/// Every non-overlapping occurrence of `p` in `s`, scanning from the left, replaced by `t`.
pub fn replace_all(s: &Vec<char>, p: &Vec<char>, t: &Vec<char>) -> (res: Vec<char>)
    requires
        p.len() > 0,
    ensures
        res@ == spec_replace(s@, p@, t@),
{
    let mut out: Vec<char> = Vec::new();
    let mut i: usize = 0;
    assert(s@.skip(0) == s@);
    assert(out@ + s@ == s@);
    while i < s.len()
        invariant
            p.len() > 0,
            i <= s.len(),
            out@ + spec_replace(s@.skip(i as int), p@, t@) == spec_replace(s@, p@, t@),
        decreases s.len() - i,
    {
        let ghost rest = s@.skip(i as int);
        if occurs_at_exec(s, p, i) {
            assert(rest.subrange(0, p.len() as int) == s@.subrange(i as int, i + p.len()));
            assert(rest.skip(p.len() as int) == s@.skip(i + p.len()));
            let mut k: usize = 0;
            let ghost before = out@;
            while k < t.len()
                invariant
                    k <= t.len(),
                    out@ == before + t@.subrange(0, k as int),
                decreases t.len() - k,
            {
                out.push(t[k]);
                assert(t@.subrange(0, k + 1) == t@.subrange(0, k as int).push(t@[k as int]));
                k += 1;
            }
            assert(t@.subrange(0, t.len() as int) == t@);
            assert(out@ == before + t@);
            assert(before + (t@ + spec_replace(s@.skip(i + p.len()), p@, t@)) == (before + t@)
                + spec_replace(s@.skip(i + p.len()), p@, t@));
            i = i + p.len();
        } else {
            let ghost before = out@;
            out.push(s[i]);
            proof {
                assert(rest.skip(1) == s@.skip(i + 1));
                assert(rest[0] == s@[i as int]);
                if rest.len() >= p@.len() {
                    assert(rest.subrange(0, p.len() as int) == s@.subrange(i as int, i + p.len()));
                    assert(before + (seq![s@[i as int]] + spec_replace(s@.skip(i + 1), p@, t@))
                        == (before.push(s@[i as int])) + spec_replace(s@.skip(i + 1), p@, t@));
                } else {
                    assert(spec_replace(rest, p@, t@) == rest);
                    assert(spec_replace(s@.skip(i + 1), p@, t@) == s@.skip(i + 1));
                    assert(rest == seq![s@[i as int]] + s@.skip(i + 1));
                    assert(before + rest == before.push(s@[i as int]) + s@.skip(i + 1));
                }
            }
            i = i + 1;
        }
    }
    assert(s@.skip(s.len() as int) == Seq::<char>::empty());
    assert(out@ + Seq::<char>::empty() == out@);
    out
}


/// The first occurrence of `p` in `s` replaced by `t`.
pub fn replace_first(s: &Vec<char>, p: &Vec<char>, t: &Vec<char>) -> (res: Vec<char>)
    ensures
        res@ == spec_replace_first(s@, p@, t@),
{
    let mut out: Vec<char> = Vec::new();
    if p.len() == 0 {
        let mut j: usize = 0;
        while j < t.len()
            invariant
                j <= t.len(),
                out@ == t@.subrange(0, j as int),
            decreases t.len() - j,
        {
            out.push(t[j]);
            assert(t@.subrange(0, j + 1) == t@.subrange(0, j as int).push(t@[j as int]));
            j += 1;
        }
        assert(t@.subrange(0, t.len() as int) == t@);
        let mut k: usize = 0;
        while k < s.len()
            invariant
                k <= s.len(),
                out@ == t@ + s@.subrange(0, k as int),
            decreases s.len() - k,
        {
            out.push(s[k]);
            assert(s@.subrange(0, k + 1) == s@.subrange(0, k as int).push(s@[k as int]));
            k += 1;
        }
        assert(s@.subrange(0, s.len() as int) == s@);
        return out;
    }
    let mut i: usize = 0;
    assert(s@.skip(0) == s@);
    assert(out@ + s@ == s@);
    while i < s.len()
        invariant
            p.len() > 0,
            i <= s.len(),
            out@ + spec_replace_first(s@.skip(i as int), p@, t@) == spec_replace_first(s@, p@, t@),
        decreases s.len() - i,
    {
        let ghost rest = s@.skip(i as int);
        if occurs_at_exec(s, p, i) {
            assert(rest.subrange(0, p.len() as int) == s@.subrange(i as int, i + p.len()));
            assert(rest.skip(p.len() as int) == s@.skip(i + p.len()));
            let ghost before = out@;
            let mut k: usize = 0;
            while k < t.len()
                invariant
                    k <= t.len(),
                    out@ == before + t@.subrange(0, k as int),
                decreases t.len() - k,
            {
                out.push(t[k]);
                assert(t@.subrange(0, k + 1) == t@.subrange(0, k as int).push(t@[k as int]));
                k += 1;
            }
            assert(t@.subrange(0, t.len() as int) == t@);
            let ghost mid = out@;
            let mut m: usize = i + p.len();
            while m < s.len()
                invariant
                    i + p.len() <= m <= s.len(),
                    out@ == mid + s@.subrange(i + p.len(), m as int),
                decreases s.len() - m,
            {
                out.push(s[m]);
                assert(s@.subrange(i + p.len(), m + 1) == s@.subrange(i + p.len(), m as int).push(
                    s@[m as int],
                ));
                m += 1;
            }
            assert(s@.subrange(i + p.len(), s.len() as int) == s@.skip(i + p.len()));
            assert(before + (t@ + s@.skip(i + p.len())) == (before + t@) + s@.skip(i + p.len()));
            return out;
        } else {
            let ghost before = out@;
            out.push(s[i]);
            proof {
                assert(rest.skip(1) == s@.skip(i + 1));
                assert(rest[0] == s@[i as int]);
                if rest.len() >= p@.len() {
                    assert(rest.subrange(0, p.len() as int) == s@.subrange(i as int, i + p.len()));
                    assert(before + (seq![s@[i as int]] + spec_replace_first(s@.skip(i + 1), p@, t@))
                        == (before.push(s@[i as int])) + spec_replace_first(s@.skip(i + 1), p@, t@));
                } else {
                    assert(spec_replace_first(rest, p@, t@) == rest);
                    assert(spec_replace_first(s@.skip(i + 1), p@, t@) == s@.skip(i + 1));
                    assert(rest == seq![s@[i as int]] + s@.skip(i + 1));
                    assert(before + rest == before.push(s@[i as int]) + s@.skip(i + 1));
                }
            }
            i = i + 1;
        }
    }
    assert(s@.skip(s.len() as int) == Seq::<char>::empty());
    assert(out@ + Seq::<char>::empty() == out@);
    out
}

/// The characters of `s` from position `start` on.
pub fn suffix_from(s: &Vec<char>, start: usize) -> (res: Vec<char>)
    requires
        start <= s.len(),
    ensures
        res@ == s@.skip(start as int),
{
    let mut out: Vec<char> = Vec::new();
    let mut m: usize = start;
    while m < s.len()
        invariant
            start <= m <= s.len(),
            out@ == s@.subrange(start as int, m as int),
        decreases s.len() - m,
    {
        out.push(s[m]);
        assert(s@.subrange(start as int, m + 1) == s@.subrange(start as int, m as int).push(s@[m as int]));
        m += 1;
    }
    assert(s@.subrange(start as int, s.len() as int) == s@.skip(start as int));
    out
}

/// The last piece of `s` split at `p`.
pub fn split_last(s: &Vec<char>, p: &Vec<char>) -> (res: Vec<char>)
    ensures
        res@ == spec_split_last(s@, p@),
{
    if p.len() == 0 {
        assert(s@.skip(0) == s@);
        return suffix_from(s, 0);
    }
    let mut i: usize = 0;
    let mut start: usize = 0;
    while i < s.len() && p.len() <= s.len() - i
        invariant
            p.len() > 0,
            i <= s.len(),
            start <= s.len(),
            split_last_from(s@, p@, i as int, start as int) == spec_split_last(s@, p@),
        decreases s.len() - i,
    {
        if occurs_at_exec(s, p, i) {
            i = i + p.len();
            start = i;
        } else {
            i = i + 1;
        }
    }
    suffix_from(s, start)
}

/// Whether `c` has the Unicode `White_Space` property, which is what
/// `char::is_whitespace` tests.
pub open spec fn spec_is_whitespace(c: char) -> bool {
    ||| ('\u{9}' <= c && c <= '\u{d}')
    ||| c == ' '
    ||| c == '\u{85}'
    ||| c == '\u{a0}'
    ||| c == '\u{1680}'
    ||| ('\u{2000}' <= c && c <= '\u{200a}')
    ||| c == '\u{2028}'
    ||| c == '\u{2029}'
    ||| c == '\u{202f}'
    ||| c == '\u{205f}'
    ||| c == '\u{3000}'
}

/// Whether `c` is a Unicode white-space character.
pub fn is_whitespace(c: char) -> (res: bool)
    ensures
        res == spec_is_whitespace(c),
{
    ('\u{9}' <= c && c <= '\u{d}') || c == ' ' || c == '\u{85}' || c == '\u{a0}' || c == '\u{1680}'
        || ('\u{2000}' <= c && c <= '\u{200a}') || c == '\u{2028}' || c == '\u{2029}' || c
        == '\u{202f}' || c == '\u{205f}' || c == '\u{3000}'
}

/// `s` holds nothing but white space (what `s.trim().is_empty()` tests).
pub open spec fn spec_is_blank(s: Seq<char>) -> bool {
    forall|i: int| 0 <= i < s.len() ==> spec_is_whitespace(#[trigger] s[i])
}

/// Whether `s` holds nothing but white space.
pub fn is_blank(s: &str) -> (res: bool)
    ensures
        res == spec_is_blank(s@),
{
    let v = to_chars(s);
    let mut i: usize = 0;
    while i < v.len()
        invariant
            v@ == s@,
            i <= v.len(),
            forall|j: int| 0 <= j < i ==> spec_is_whitespace(#[trigger] v@[j]),
        decreases v.len() - i,
    {
        if !is_whitespace(v[i]) {
            return false;
        }
        i += 1;
    }
    true
}

/// What `str::to_lowercase` returns for a string with the given characters.
pub uninterp spec fn spec_to_lowercase(s: Seq<char>) -> Seq<char>;

/// Every character of `s` is ASCII.
pub open spec fn all_ascii(s: Seq<char>) -> bool {
    forall|i: int| 0 <= i < s.len() ==> (#[trigger] s[i] as int) < 128
}

/// The ASCII lower case of `c`: 'A' to 'Z' become 'a' to 'z', anything else is kept.
pub open spec fn ascii_lower(c: char) -> char {
    if 'A' <= c && c <= 'Z' {
        ((c as int) + 32) as char
    } else {
        c
    }
}

/// Lower-cases `s` by Unicode rules (`str::to_lowercase`).
/// Trusted: the result depends on the characters of `s` alone and is named; what Unicode
/// maps each character to is not written out here. The one fact stated is that on ASCII
/// text it maps 'A' to 'Z' to 'a' to 'z' and keeps every other character, as the
/// Unicode lower-case mapping that the documentation names does.
#[verifier::external_body]
pub(crate) fn to_lowercase(s: &str) -> (res: String)
    ensures
        res@ == spec_to_lowercase(s@),
        all_ascii(s@) ==> res@ == s@.map_values(|c: char| ascii_lower(c)),
{
    s.to_lowercase()
}

/// Whether `char::is_numeric` holds of a character.
pub uninterp spec fn spec_is_numeric(c: char) -> bool;

/// Whether `c` is numeric by Unicode's general categories Nd, Nl and No
/// (`char::is_numeric`). Trusted: the result is named; the one fact stated is the
/// documented one that the ASCII digits are numeric.
#[verifier::external_body]
pub(crate) fn is_numeric(c: char) -> (res: bool)
    ensures
        res == spec_is_numeric(c),
        '0' <= c <= '9' ==> res,
{
    c.is_numeric()
}


/// A copy of a list of strings.
pub fn clone_strings(v: &Vec<String>) -> (res: Vec<String>)
    ensures
        res@ == v@,
{
    let mut out: Vec<String> = Vec::new();
    let mut i: usize = 0;
    while i < v.len()
        invariant
            i <= v.len(),
            out@ == v@.subrange(0, i as int),
        decreases v.len() - i,
    {
        out.push(v[i].clone());
        assert(v@.subrange(0, i + 1) == v@.subrange(0, i as int).push(v@[i as int]));
        i += 1;
    }
    assert(v@.subrange(0, v.len() as int) == v@);
    out
}

/// The character of the decimal digit `d`.
pub open spec fn digit_char(d: nat) -> char {
    if d == 0 {
        '0'
    } else if d == 1 {
        '1'
    } else if d == 2 {
        '2'
    } else if d == 3 {
        '3'
    } else if d == 4 {
        '4'
    } else if d == 5 {
        '5'
    } else if d == 6 {
        '6'
    } else if d == 7 {
        '7'
    } else if d == 8 {
        '8'
    } else {
        '9'
    }
}

/// The decimal digits of `n`, without leading zeros.
pub open spec fn nat_digits(n: nat) -> Seq<char>
    decreases n,
{
    if n < 10 {
        seq![digit_char(n)]
    } else {
        nat_digits(n / 10).push(digit_char(n % 10))
    }
}

/// How `Display` writes the integer `n`: a minus sign for a negative value, then its digits.
pub open spec fn spec_decimal(n: int) -> Seq<char> {
    if n < 0 {
        seq!['-'] + nat_digits((-n) as nat)
    } else {
        nat_digits(n as nat)
    }
}

fn digit_of(d: u64) -> (res: char)
    requires
        d < 10,
    ensures
        res == digit_char(d as nat),
{
    if d == 0 {
        '0'
    } else if d == 1 {
        '1'
    } else if d == 2 {
        '2'
    } else if d == 3 {
        '3'
    } else if d == 4 {
        '4'
    } else if d == 5 {
        '5'
    } else if d == 6 {
        '6'
    } else if d == 7 {
        '7'
    } else if d == 8 {
        '8'
    } else {
        '9'
    }
}

fn push_digits(out: &mut String, n: u64)
    ensures
        final(out)@ == old(out)@ + nat_digits(n as nat),
    decreases n,
{
    if n >= 10 {
        push_digits(out, n / 10);
        push_char(out, digit_of(n % 10));
        assert(old(out)@ + nat_digits((n / 10) as nat) + seq![digit_char((n % 10) as nat)] =~= old(
            out,
        )@ + nat_digits(n as nat));
    } else {
        push_char(out, digit_of(n));
        assert(old(out)@.push(digit_char(n as nat)) =~= old(out)@ + nat_digits(n as nat));
    }
}

/// The decimal form of `n`, as `Display` writes it.
pub fn decimal(n: i64) -> (res: String)
    ensures
        res@ == spec_decimal(n as int),
{
    let mut out = String::new();
    if n < 0 {
        push_char(&mut out, '-');
        let mag: u64 = if n == i64::MIN {
            9223372036854775808u64
        } else {
            (-n) as u64
        };
        push_digits(&mut out, mag);
    } else {
        push_digits(&mut out, n as u64);
    }
    out
}

/// "true" or "false", as `Display` writes a `bool`.
pub fn bool_text(b: bool) -> (res: String)
    ensures
        res@ == (if b {
            "true"@
        } else {
            "false"@
        }),
{
    if b {
        "true".to_string()
    } else {
        "false".to_string()
    }
}

/// `s` without its leading white space.
pub open spec fn spec_trim_start(s: Seq<char>) -> Seq<char>
    decreases s.len(),
{
    if s.len() > 0 && spec_is_whitespace(s[0]) {
        spec_trim_start(s.skip(1))
    } else {
        s
    }
}

/// `s` without its trailing white space.
pub open spec fn spec_trim_end(s: Seq<char>) -> Seq<char>
    decreases s.len(),
{
    if s.len() > 0 && spec_is_whitespace(s.last()) {
        spec_trim_end(s.drop_last())
    } else {
        s
    }
}

/// `s` without leading and trailing white space (what `str::trim` gives).
pub open spec fn spec_trim(s: Seq<char>) -> Seq<char> {
    spec_trim_end(spec_trim_start(s))
}

/// `s` without leading and trailing white space.
pub fn trim(s: &str) -> (res: String)
    ensures
        res@ == spec_trim(s@),
{
    let v = to_chars(s);
    let mut i: usize = 0;
    assert(v@.skip(0) == v@);
    while i < v.len() && is_whitespace(v[i])
        invariant
            i <= v.len(),
            spec_trim_start(v@.skip(i as int)) == spec_trim_start(v@),
        decreases v.len() - i,
    {
        assert(v@.skip(i as int).skip(1) == v@.skip(i + 1));
        i += 1;
    }
    let mut j: usize = v.len();
    assert(v@.subrange(i as int, j as int) == v@.skip(i as int));
    assert(spec_trim_start(v@.skip(i as int)) == v@.skip(i as int));
    while j > i && is_whitespace(v[j - 1])
        invariant
            i <= j <= v.len(),
            spec_trim_start(v@) == v@.skip(i as int),
            spec_trim_end(v@.subrange(i as int, j as int)) == spec_trim_end(v@.skip(i as int)),
        decreases j,
    {
        assert(v@.subrange(i as int, j as int).drop_last() == v@.subrange(i as int, j - 1));
        j -= 1;
    }
    let mut out: Vec<char> = Vec::new();
    let mut k: usize = i;
    while k < j
        invariant
            i <= k <= j <= v.len(),
            out@ == v@.subrange(i as int, k as int),
        decreases j - k,
    {
        out.push(v[k]);
        assert(v@.subrange(i as int, k + 1) == v@.subrange(i as int, k as int).push(v@[k as int]));
        k += 1;
    }
    from_chars(&out)
}

} // verus!
