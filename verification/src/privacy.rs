//! Recognising sensitive clipboard text: passwords named in notes, bank card numbers
//! (checked with the Luhn algorithm), identity numbers and phone numbers.
use vstd::prelude::*;
use crate::clipboard::ClipboardItem;
use crate::text::{is_whitespace, occurs_at, spec_is_whitespace, to_chars};
use vstd::utf8::is_ascii_chars;

verus! {

// ---------------------------------------------------------------- Luhn check

/// Whether `c` separates the groups of a card number (white space or a hyphen).
pub open spec fn is_card_separator(c: char) -> bool {
    spec_is_whitespace(c) || c == '-'
}

/// `s` without its separators.
pub open spec fn spec_strip_separators(s: Seq<char>) -> Seq<char>
    decreases s.len(),
{
    if s.len() == 0 {
        s
    } else if is_card_separator(s.last()) {
        spec_strip_separators(s.drop_last())
    } else {
        spec_strip_separators(s.drop_last()).push(s.last())
    }
}

/// Every character of `s` is one of the ASCII digits.
pub open spec fn all_ascii_digits(s: Seq<char>) -> bool {
    forall|i: int| 0 <= i < s.len() ==> '0' <= #[trigger] s[i] && s[i] <= '9'
}

/// The value of an ASCII digit.
pub open spec fn digit_value(c: char) -> int {
    (c as int) - ('0' as int)
}

/// What the digit `d` at position `i`, counted from the right starting at 0, adds to
/// the Luhn sum: every second digit is doubled, and 9 is taken off a doubled digit above 9.
pub open spec fn luhn_term(d: int, i: int) -> int {
    if i % 2 == 1 {
        if 2 * d > 9 {
            2 * d - 9
        } else {
            2 * d
        }
    } else {
        d
    }
}

/// The Luhn terms of the digits at positions `i` and beyond, counted from the right.
pub open spec fn luhn_sum_from(s: Seq<char>, i: nat) -> int
    decreases s.len() - i,
{
    if i >= s.len() {
        0
    } else {
        luhn_term(digit_value(s[s.len() - 1 - i]), i as int) + luhn_sum_from(s, i + 1)
    }
}

/// The Luhn sum of a string of digits.
pub open spec fn luhn_sum(s: Seq<char>) -> int {
    luhn_sum_from(s, 0)
}

/// A card number passes the Luhn check: without its separators it is a non-empty
/// string of ASCII digits whose Luhn sum is a multiple of 10.
pub open spec fn spec_is_valid_luhn(s: Seq<char>) -> bool {
    let d = spec_strip_separators(s);
    d.len() > 0 && all_ascii_digits(d) && luhn_sum(d) % 10 == 0
}

/// `s` without its separators.
fn strip_separators(s: &str) -> (res: Vec<char>)
    ensures
        res@ == spec_strip_separators(s@),
{
    let v = to_chars(s);
    let mut out: Vec<char> = Vec::new();
    let mut i: usize = 0;
    while i < v.len()
        invariant
            v@ == s@,
            i <= v.len(),
            out@ == spec_strip_separators(v@.take(i as int)),
        decreases v.len() - i,
    {
        let c = v[i];
        assert(v@.take(i + 1).drop_last() == v@.take(i as int));
        assert(v@.take(i + 1).last() == c);
        if !(is_whitespace(c) || c == '-') {
            out.push(c);
        }
        i += 1;
    }
    assert(v@.take(v.len() as int) == v@);
    out
}

/// Whether a card number passes the Luhn check. White space and hyphens between the
/// digits are ignored; anything else that is not an ASCII digit fails the check.
pub fn is_valid_luhn(card_number: &str) -> (res: bool)
    ensures
        res == spec_is_valid_luhn(card_number@),
{
    let d = strip_separators(card_number);
    if d.len() == 0 {
        return false;
    }
    let mut k: usize = 0;
    while k < d.len()
        invariant
            d@ == spec_strip_separators(card_number@),
            k <= d.len(),
            forall|j: int| 0 <= j < k ==> '0' <= #[trigger] d@[j] && d@[j] <= '9',
        decreases d.len() - k,
    {
        if !('0' <= d[k] && d[k] <= '9') {
            assert(!('0' <= d@[k as int] && d@[k as int] <= '9'));
            assert(!all_ascii_digits(d@));
            return false;
        }
        k += 1;
    }
    let n = d.len();
    let mut acc: u32 = 0;
    let mut i: usize = 0;
    while i < n
        invariant
            n == d.len(),
            i <= n,
            all_ascii_digits(d@),
            acc < 10,
            (acc as int + luhn_sum_from(d@, i as nat)) % 10 == luhn_sum(d@) % 10,
        decreases n - i,
    {
        let c = d[n - 1 - i];
        let dv: u32 = (c as u32) - ('0' as u32);
        assert(0 <= dv <= 9);
        let term: u32 = if i % 2 != 0 {
            if dv * 2 > 9 {
                dv * 2 - 9
            } else {
                dv * 2
            }
        } else {
            dv
        };
        assert(term == luhn_term(digit_value(d@[n - 1 - i]), i as int));
        assert(luhn_sum_from(d@, i as nat) == term + luhn_sum_from(d@, (i + 1) as nat));
        let ghost before = acc;
        acc = (acc + term) % 10;
        assert((acc as int + luhn_sum_from(d@, (i + 1) as nat)) % 10 == (before as int + term
            + luhn_sum_from(d@, (i + 1) as nat)) % 10) by (nonlinear_arith)
            requires
                acc as int == (before as int + term as int) % 10,
        ;
        i += 1;
    }
    acc == 0
}


/// Removing separators from two pieces and joining them is removing them from the whole.
pub proof fn lemma_strip_separators_concat(a: Seq<char>, b: Seq<char>)
    ensures
        spec_strip_separators(a + b) == spec_strip_separators(a) + spec_strip_separators(b),
    decreases b.len(),
{
    if b.len() == 0 {
        assert(a + b =~= a);
        assert(spec_strip_separators(a) + spec_strip_separators(b) =~= spec_strip_separators(a));
    } else {
        lemma_strip_separators_concat(a, b.drop_last());
        assert((a + b).drop_last() =~= a + b.drop_last());
        assert((a + b).last() == b.last());
        if !is_card_separator(b.last()) {
            assert(spec_strip_separators(a) + spec_strip_separators(b.drop_last()).push(b.last())
                =~= (spec_strip_separators(a) + spec_strip_separators(b.drop_last())).push(b.last()));
        }
    }
}

/// A string of ASCII digits has no separators to remove.
proof fn lemma_strip_digits(s: Seq<char>)
    requires
        all_ascii_digits(s),
    ensures
        spec_strip_separators(s) == s,
    decreases s.len(),
{
    if s.len() > 0 {
        assert(all_ascii_digits(s.drop_last()));
        lemma_strip_digits(s.drop_last());
        assert('0' <= s[s.len() - 1] && s[s.len() - 1] <= '9');
        assert(s.drop_last().push(s.last()) =~= s);
    }
}

/// Two digit strings that differ only at position `k` have Luhn partial sums that differ
/// only by the terms of that position, once the sum reaches it.
proof fn lemma_luhn_sum_one_change(s: Seq<char>, t: Seq<char>, k: int, j: nat)
    requires
        s.len() == t.len(),
        0 <= k < s.len(),
        forall|i: int| 0 <= i < s.len() && i != k ==> s[i] == t[i],
    ensures
        luhn_sum_from(s, j) - luhn_sum_from(t, j) == if j <= s.len() - 1 - k {
            luhn_term(digit_value(s[k]), s.len() - 1 - k) - luhn_term(
                digit_value(t[k]),
                s.len() - 1 - k,
            )
        } else {
            0
        },
    decreases s.len() - j,
{
    if j < s.len() {
        lemma_luhn_sum_one_change(s, t, k, j + 1);
        let idx = s.len() - 1 - j;
        if idx != k {
            assert(s[idx] == t[idx]);
        }
    }
}

/// The Luhn term of a digit is a digit, and different digits in one position give
/// different terms.
proof fn lemma_luhn_term_digits(a: int, b: int, i: int)
    requires
        0 <= a <= 9,
        0 <= b <= 9,
        a != b,
    ensures
        0 <= luhn_term(a, i) <= 9,
        luhn_term(a, i) != luhn_term(b, i),
{
}

/// The Luhn check detects every single-digit error: when a string of digits passes it,
/// changing exactly one of its digits to another digit makes it fail.
pub proof fn lemma_luhn_detects_single_digit_change(s: Seq<char>, t: Seq<char>, k: int)
    requires
        all_ascii_digits(s),
        all_ascii_digits(t),
        s.len() == t.len(),
        0 <= k < s.len(),
        s[k] != t[k],
        forall|i: int| 0 <= i < s.len() && i != k ==> s[i] == t[i],
        spec_is_valid_luhn(s),
    ensures
        !spec_is_valid_luhn(t),
{
    lemma_strip_digits(s);
    lemma_strip_digits(t);
    lemma_luhn_sum_one_change(s, t, k, 0);
    let p = s.len() - 1 - k;
    assert('0' <= s[k] && s[k] <= '9');
    assert('0' <= t[k] && t[k] <= '9');
    let a = digit_value(s[k]);
    let b = digit_value(t[k]);
    lemma_luhn_term_digits(a, b, p);
    lemma_luhn_term_digits(b, a, p);
    let d = luhn_term(a, p) - luhn_term(b, p);
    let x = luhn_sum(s);
    let y = luhn_sum(t);
    assert(y == x - d);
    assert(y % 10 != 0) by (nonlinear_arith)
        requires
            x % 10 == 0,
            y == x - d,
            -9 <= d <= 9,
            d != 0,
    ;
}

/// The Luhn check ignores white space and hyphens: putting one anywhere in a card number
/// does not change whether it passes.
pub proof fn lemma_luhn_ignores_separator(a: Seq<char>, c: char, b: Seq<char>)
    requires
        is_card_separator(c),
    ensures
        spec_is_valid_luhn(a + seq![c] + b) == spec_is_valid_luhn(a + b),
{
    lemma_strip_separators_concat(a + seq![c], b);
    lemma_strip_separators_concat(a, seq![c]);
    lemma_strip_separators_concat(a, b);
    assert(seq![c].drop_last() =~= Seq::<char>::empty());
    assert(seq![c].last() == c);
    assert(spec_strip_separators(Seq::<char>::empty()) =~= Seq::<char>::empty());
    assert(spec_strip_separators(seq![c]) =~= Seq::<char>::empty());
    assert(spec_strip_separators(a + seq![c]) =~= spec_strip_separators(a));
}


// ---------------------------------------------------------------- regular expressions

#[verifier::external_type_specification]
#[verifier::external_body]
pub struct ExRegex(regex::Regex);

/// Whether the `regex` crate accepts the pattern with these characters.
pub uninterp spec fn spec_regex_compiles(pattern: Seq<char>) -> bool;

/// Whether the regular expression `pattern` matches somewhere in `text`.
pub uninterp spec fn spec_regex_is_match(pattern: Seq<char>, text: Seq<char>) -> bool;

/// The successive non-overlapping matches of `pattern` in `text`, as text.
pub uninterp spec fn spec_regex_find_all(pattern: Seq<char>, text: Seq<char>) -> Seq<Seq<char>>;

/// A compiled regular expression together with the pattern it was compiled from.
/// It is only built by `compile_pattern`, so the two always belong together.
pub struct CompiledPattern {
    regex: regex::Regex,
    pattern: String,
}

impl CompiledPattern {
    /// The pattern this expression was compiled from.
    pub closed spec fn pattern(&self) -> Seq<char> {
        self.pattern@
    }
}

/// Compiles `pattern` (`regex::Regex::new`). Trusted: it succeeds exactly when the
/// crate accepts the pattern, a fact named here; the error text is the crate's message
/// and is not stated.
#[verifier::external_body]
pub(crate) fn compile_pattern(pattern: &str) -> (res: Result<CompiledPattern, String>)
    ensures
        res is Ok <==> spec_regex_compiles(pattern@),
        res matches Ok(cp) ==> cp.pattern() == pattern@,
{
    match regex::Regex::new(pattern) {
        Ok(regex) => Ok(CompiledPattern { regex, pattern: pattern.to_string() }),
        Err(e) => Err(e.to_string()),
    }
}

/// Whether the expression matches anywhere in `text` (`regex::Regex::is_match`).
/// Trusted: the result is named by the pattern and the text.
#[verifier::external_body]
pub(crate) fn pattern_is_match(cp: &CompiledPattern, text: &str) -> (res: bool)
    ensures
        res == spec_regex_is_match(cp.pattern(), text@),
{
    cp.regex.is_match(text)
}

/// The successive non-overlapping matches of the expression in `text`
/// (`regex::Regex::find_iter`), as text. Trusted: the result is named by the pattern and
/// the text; as the crate documents, there is at least one match exactly when
/// `is_match` holds.
#[verifier::external_body]
pub(crate) fn pattern_find_all(cp: &CompiledPattern, text: &str) -> (res: Vec<String>)
    ensures
        res@.map_values(|m: String| m@) == spec_regex_find_all(cp.pattern(), text@),
        res@.len() > 0 <==> spec_regex_is_match(cp.pattern(), text@),
{
    cp.regex.find_iter(text).map(|m| m.as_str().to_string()).collect()
}

/// The characters that have a meaning in a regular expression.
pub open spec fn is_regex_meta(c: char) -> bool {
    c == '\\' || c == '.' || c == '+' || c == '*' || c == '?' || c == '(' || c == ')' || c == '|'
        || c == '[' || c == ']' || c == '{' || c == '}' || c == '^' || c == '$' || c == '#' || c
        == '&' || c == '-' || c == '~'
}

/// `s` with a backslash put before each meta character.
pub open spec fn spec_regex_escape(s: Seq<char>) -> Seq<char>
    decreases s.len(),
{
    if s.len() == 0 {
        s
    } else if is_regex_meta(s.last()) {
        spec_regex_escape(s.drop_last()) + seq!['\\', s.last()]
    } else {
        spec_regex_escape(s.drop_last()).push(s.last())
    }
}

/// `s` made safe to use as a literal in a pattern (`regex::escape`). Trusted: the
/// result is what the crate's source computes, a backslash before each meta character.
#[verifier::external_body]
pub(crate) fn regex_escape(s: &str) -> (res: String)
    ensures
        res@ == spec_regex_escape(s@),
{
    regex::escape(s)
}

// ---------------------------------------------------------------- the patterns

/// The words that mark a note as naming a password.
pub open spec fn spec_password_keywords() -> Seq<Seq<char>> {
    seq![
        "password"@, "密码"@, "pwd"@, "pass"@, "secret"@, "key"@, "token"@, "credential"@,
        "login"@, "auth"@, "authentication"@,
    ]
}

/// The alternative of the password pattern for one keyword: case-insensitive, and
/// between ASCII word boundaries when `bounded` and the keyword is ASCII.
pub open spec fn spec_keyword_piece(kw: Seq<char>, bounded: bool) -> Seq<char> {
    if bounded && is_ascii_chars(kw) {
        "(?i)(?-u:\\b)"@ + spec_regex_escape(kw) + "(?-u:\\b)"@
    } else {
        "(?i)"@ + spec_regex_escape(kw)
    }
}

/// The pieces of `parts` joined with `sep` between them.
pub open spec fn spec_join(parts: Seq<Seq<char>>, sep: Seq<char>) -> Seq<char>
    decreases parts.len(),
{
    if parts.len() == 0 {
        Seq::empty()
    } else if parts.len() == 1 {
        parts[0]
    } else {
        spec_join(parts.drop_last(), sep) + sep + parts.last()
    }
}

/// The password pattern: one alternative per keyword, joined with "|".
pub open spec fn spec_password_pattern(bounded: bool) -> Seq<char> {
    spec_join(spec_password_keywords().map_values(|kw: Seq<char>| spec_keyword_piece(kw, bounded)), "|"@)
}

fn password_keywords() -> (res: Vec<&'static str>)
    ensures
        res@.map_values(|s: &str| s@) == spec_password_keywords(),
{
    let v: Vec<&'static str> = vec![
        "password",
        "密码",
        "pwd",
        "pass",
        "secret",
        "key",
        "token",
        "credential",
        "login",
        "auth",
        "authentication",
    ];
    assert(v@.map_values(|s: &str| s@) =~= spec_password_keywords());
    v
}

fn keyword_piece(kw: &str, bounded: bool) -> (res: String)
    ensures
        res@ == spec_keyword_piece(kw@, bounded),
{
    let escaped = regex_escape(kw);
    if bounded && kw.is_ascii() {
        let mut p = "(?i)(?-u:\\b)".to_string();
        p.append(escaped.as_str());
        p.append("(?-u:\\b)");
        p
    } else {
        let mut p = "(?i)".to_string();
        p.append(escaped.as_str());
        p
    }
}

/// The pattern that recognises a password note; `bounded` asks for whole ASCII words.
pub fn password_pattern(bounded: bool) -> (res: String)
    ensures
        res@ == spec_password_pattern(bounded),
{
    let kws = password_keywords();
    let ghost pieces = spec_password_keywords().map_values(
        |kw: Seq<char>| spec_keyword_piece(kw, bounded),
    );
    let mut out = String::new();
    let mut i: usize = 0;
    while i < kws.len()
        invariant
            kws@.map_values(|s: &str| s@) == spec_password_keywords(),
            pieces == spec_password_keywords().map_values(
                |kw: Seq<char>| spec_keyword_piece(kw, bounded),
            ),
            i <= kws@.len(),
            out@ == spec_join(pieces.take(i as int), "|"@),
        decreases kws.len() - i,
    {
        let piece = keyword_piece(kws[i], bounded);
        assert(kws@.map_values(|s: &str| s@)[i as int] == kws@[i as int]@);
        assert(pieces[i as int] == piece@);
        assert(pieces.take(i + 1).drop_last() == pieces.take(i as int));
        if i > 0 {
            out.append("|");
        }
        out.append(piece.as_str());
        i += 1;
    }
    assert(pieces.take(kws@.len() as int) == pieces);
    out
}

/// The bank card pattern used when marking stored records (Visa, Mastercard, Amex and
/// other major ranges, digits optionally grouped by spaces or hyphens).
pub const CARD_PATTERN: &'static str = r"(?x)
        \b
        (?:
            # Visa (4xxxx): 13, 16, 19位
            4\d{3}[\s-]?\d{4}[\s-]?\d{4}(?:[\s-]?\d{4}(?:[\s-]?\d{3})?)? |
            
            # Mastercard (51-55 或 2221-2720): 16位
            (5[1-5]|222[1-9]|22[3-9]|2[3-6]|27[0-2])\d{2}[\s-]?\d{4}[\s-]?\d{4}[\s-]?\d{4} |
            
            # Amex (34, 37): 15位，分组通常是 4-6-5
            3[47]\d{2}[\s-]?\d{6}[\s-]?\d{5} |

            # Discover/Diners/JCB 等其他主要卡段 (14-19位)
            (3(?:0[0-5]|[689])|6(?:011|5\d{2}|4[4-9]\d{1}))\d{10,15}
        )
        \b
    ";


/// The same card ranges as `card_pattern`, written without comments; the check of a
/// single record uses this text.
pub const CARD_PATTERN_COMPACT: &'static str = r"(?x)
        \b
        (?:
            4\d{3}[\s-]?\d{4}[\s-]?\d{4}(?:[\s-]?\d{4}(?:[\s-]?\d{3})?)? |
            (5[1-5]|222[1-9]|22[3-9]|2[3-6]|27[0-2])\d{2}[\s-]?\d{4}[\s-]?\d{4}[\s-]?\d{4} |
            3[47]\d{2}[\s-]?\d{6}[\s-]?\d{5} |
            (3(?:0[0-5]|[689])|6(?:011|5\d{2}|4[4-9]\d{1}))\d{10,15}
        )
        \b
    ";


/// The identity number pattern: 15 or 18 digits, or 17 digits and an X.
pub const ID_NUMBER_PATTERN: &'static str = r"\b\d{15}\b|\b\d{18}\b|\b\d{17}X\b";


/// The phone number pattern: a mainland Chinese mobile number.
pub const PHONE_PATTERN: &'static str = r"\b1[3-9]\d{9}\b";



// ---------------------------------------------------------------- detection

/// Some match of the card pattern in `text` passes the Luhn check.
pub open spec fn spec_card_found(pattern: Seq<char>, text: Seq<char>) -> bool {
    exists|i: int|
        0 <= i < spec_regex_find_all(pattern, text).len() && #[trigger] spec_is_valid_luhn(
            spec_regex_find_all(pattern, text)[i],
        )
}

/// Whether some match of the card expression in `text` passes the Luhn check.
pub fn contains_valid_card(cp: &CompiledPattern, text: &str) -> (res: bool)
    ensures
        res == spec_card_found(cp.pattern(), text@),
{
    let found = pattern_find_all(cp, text);
    let ghost f = spec_regex_find_all(cp.pattern(), text@);
    let mut i: usize = 0;
    while i < found.len()
        invariant
            found@.map_values(|m: String| m@) == f,
            f == spec_regex_find_all(cp.pattern(), text@),
            i <= found@.len(),
            forall|j: int| 0 <= j < i ==> !#[trigger] spec_is_valid_luhn(f[j]),
        decreases found.len() - i,
    {
        assert(f[i as int] == found@[i as int]@);
        if is_valid_luhn(found[i].as_str()) {
            return true;
        }
        i += 1;
    }
    false
}

/// The kinds of sensitive content.
#[derive(Debug, Clone, Copy, PartialEq, Eq, Structural)]
pub enum PrivacyKind {
    /// A note that names a password, secret, key, token or login.
    Password,
    /// A bank card number that passes the Luhn check.
    BankCard,
    /// An identity card number.
    IdNumber,
    /// A mobile phone number.
    PhoneNumber,
}

/// The pattern that marking stored records uses for each kind.
pub open spec fn spec_kind_pattern(kind: PrivacyKind) -> Seq<char> {
    match kind {
        PrivacyKind::Password => spec_password_pattern(true),
        PrivacyKind::BankCard => CARD_PATTERN@,
        PrivacyKind::IdNumber => ID_NUMBER_PATTERN@,
        PrivacyKind::PhoneNumber => PHONE_PATTERN@,
    }
}

/// Every part of a joined sequence occurs in it.
proof fn lemma_join_contains_parts(parts: Seq<Seq<char>>, sep: Seq<char>, j: int)
    requires
        0 <= j < parts.len(),
    ensures
        exists|i: int| occurs_at(spec_join(parts, sep), parts[j], i),
    decreases parts.len(),
{
    if parts.len() == 1 {
        assert(spec_join(parts, sep).subrange(0, parts[0].len() as int) =~= parts[0]);
        assert(occurs_at(spec_join(parts, sep), parts[j], 0));
    } else {
        let front = spec_join(parts.drop_last(), sep);
        let whole = spec_join(parts, sep);
        assert(whole == front + sep + parts.last());
        if j == parts.len() - 1 {
            let at: int = (front.len() + sep.len()) as int;
            assert(whole.subrange(at, at + parts[j].len()) =~= parts[j]);
            assert(occurs_at(whole, parts[j], at));
        } else {
            lemma_join_contains_parts(parts.drop_last(), sep, j);
            assert(parts.drop_last()[j] == parts[j]);
            let i = choose|i: int| occurs_at(front, parts[j], i);
            assert(whole.subrange(i, i + parts[j].len()) =~= front.subrange(i, i + parts[j].len()));
            assert(occurs_at(whole, parts[j], i));
        }
    }
}

/// Marking the stored records that name a password looks for each ASCII keyword as a
/// whole ASCII word: the pattern holds every such keyword between two ASCII
/// word-boundary assertions, so a keyword inside a longer word ("keyboard",
/// "passport") does not count.
pub proof fn lemma_password_marking_matches_whole_words(j: int)
    requires
        0 <= j < spec_password_keywords().len(),
        is_ascii_chars(spec_password_keywords()[j]),
    ensures
        exists|i: int|
            occurs_at(
                spec_kind_pattern(PrivacyKind::Password),
                "(?-u:\\b)"@ + spec_regex_escape(spec_password_keywords()[j]) + "(?-u:\\b)"@,
                i,
            ),
{
    let kws = spec_password_keywords();
    let pieces = kws.map_values(|kw: Seq<char>| spec_keyword_piece(kw, true));
    lemma_join_contains_parts(pieces, "|"@, j);
    let piece = pieces[j];
    let core = "(?-u:\\b)"@ + spec_regex_escape(kws[j]) + "(?-u:\\b)"@;
    assert(piece == "(?i)"@ + core) by {
        reveal_strlit("(?i)(?-u:\\b)");
        reveal_strlit("(?i)");
        reveal_strlit("(?-u:\\b)");
        assert("(?i)(?-u:\\b)"@ =~= "(?i)"@ + "(?-u:\\b)"@);
        assert(piece =~= "(?i)"@ + core);
    }
    let pat = spec_kind_pattern(PrivacyKind::Password);
    assert(pat == spec_join(pieces, "|"@));
    assert(exists|i: int| occurs_at(pat, piece, i));
    let i0 = choose|i: int| occurs_at(pat, piece, i);
    assert(occurs_at(pat, piece, i0));
    assert(piece.len() == "(?i)"@.len() + core.len());
    let at: int = i0 + "(?i)"@.len();
    assert(piece.subrange("(?i)"@.len() as int, piece.len() as int) =~= core);
    assert(pat.subrange(i0, i0 + piece.len()) == piece);
    assert(pat.subrange(at, at + core.len()) =~= pat.subrange(i0, i0 + piece.len()).subrange(
        "(?i)"@.len() as int,
        piece.len() as int,
    ));
    assert(occurs_at(pat, core, at));
}

/// Whether `text` shows content of the kind, by the expression `pattern`.
pub open spec fn spec_detected(kind: PrivacyKind, pattern: Seq<char>, text: Seq<char>) -> bool {
    match kind {
        PrivacyKind::BankCard => spec_card_found(pattern, text),
        _ => spec_regex_is_match(pattern, text),
    }
}

/// The identifiers of the rows whose text shows content of the kind, in row order.
pub open spec fn spec_selected_ids(kind: PrivacyKind, rows: Seq<(Seq<char>, Seq<char>)>) -> Seq<
    Seq<char>,
>
    decreases rows.len(),
{
    if rows.len() == 0 {
        Seq::empty()
    } else {
        let rest = spec_selected_ids(kind, rows.drop_last());
        if spec_detected(kind, spec_kind_pattern(kind), rows.last().1) {
            rest.push(rows.last().0)
        } else {
            rest
        }
    }
}

/// Rows of (identifier, text) as character sequences.
pub open spec fn rows_view(rows: Seq<(String, String)>) -> Seq<(Seq<char>, Seq<char>)> {
    rows.map_values(|r: (String, String)| (r.0@, r.1@))
}

fn kind_pattern(kind: PrivacyKind) -> (res: String)
    ensures
        res@ == spec_kind_pattern(kind),
{
    match kind {
        PrivacyKind::Password => password_pattern(true),
        PrivacyKind::BankCard => CARD_PATTERN.to_string(),
        PrivacyKind::IdNumber => ID_NUMBER_PATTERN.to_string(),
        PrivacyKind::PhoneNumber => PHONE_PATTERN.to_string(),
    }
}

/// Whether `text` shows content of the kind, by the compiled expression.
pub fn detect(kind: PrivacyKind, cp: &CompiledPattern, text: &str) -> (res: bool)
    ensures
        res == spec_detected(kind, cp.pattern(), text@),
{
    match kind {
        PrivacyKind::BankCard => contains_valid_card(cp, text),
        _ => pattern_is_match(cp, text),
    }
}

/// Which of the given (identifier, text) rows hold content of the kind: for passwords
/// the text is the record's note, for the other kinds its content. The identifiers come
/// back in row order; the error is the regex crate's message if the kind's pattern
/// does not compile.
pub fn mark_private_rows(kind: PrivacyKind, rows: &Vec<(String, String)>) -> (res: Result<
    Vec<String>,
    String,
>)
    ensures
        res is Ok <==> spec_regex_compiles(spec_kind_pattern(kind)),
        res matches Ok(ids) ==> ids@.map_values(|s: String| s@) == spec_selected_ids(
            kind,
            rows_view(rows@),
        ),
{
    let pattern = kind_pattern(kind);
    let cp = compile_pattern(pattern.as_str())?;
    let mut ids: Vec<String> = Vec::new();
    let mut i: usize = 0;
    while i < rows.len()
        invariant
            cp.pattern() == spec_kind_pattern(kind),
            i <= rows@.len(),
            ids@.map_values(|s: String| s@) == spec_selected_ids(kind, rows_view(rows@).take(i as int)),
        decreases rows.len() - i,
    {
        let ghost pre = rows_view(rows@).take(i as int);
        assert(rows_view(rows@).take(i + 1).drop_last() == pre);
        assert(rows_view(rows@).take(i + 1).last() == (rows@[i as int].0@, rows@[i as int].1@));
        if detect(kind, &cp, rows[i].1.as_str()) {
            ids.push(rows[i].0.clone());
            assert(ids@.map_values(|s: String| s@) =~= spec_selected_ids(kind, pre).push(rows@[i as int].0@));
        }
        i += 1;
    }
    assert(rows_view(rows@).take(rows@.len() as int) == rows_view(rows@));
    Ok(ids)
}

/// What to do with one record's privacy mark.
#[derive(Debug, Clone, Copy, PartialEq, Eq, Structural)]
pub enum PrivacyAction {
    /// Mark the record as private.
    Mark,
    /// Remove the record's private mark.
    Unmark,
}

/// The action for a detector that fired: mark when its kind is to be kept private,
/// unmark otherwise.
pub open spec fn action_for(flag: bool) -> PrivacyAction {
    if flag {
        PrivacyAction::Mark
    } else {
        PrivacyAction::Unmark
    }
}

/// One action when `hit`, none otherwise.
pub open spec fn action_if(hit: bool, flag: bool) -> Seq<PrivacyAction> {
    if hit {
        seq![action_for(flag)]
    } else {
        Seq::empty()
    }
}

/// The actions for one record, in the order the checks run: a password note, a bank
/// card in the content, an identity number, a phone number. A check that finds nothing
/// leaves the mark alone.
pub open spec fn spec_item_actions(
    notes: Seq<char>,
    content: Seq<char>,
    password_flag: bool,
    bank_card_flag: bool,
    id_number_flag: bool,
    phone_number_flag: bool,
) -> Seq<PrivacyAction> {
    action_if(spec_regex_is_match(spec_password_pattern(false), notes), password_flag)
        + action_if(spec_card_found(CARD_PATTERN_COMPACT@, content), bank_card_flag)
        + action_if(spec_regex_is_match(ID_NUMBER_PATTERN@, content), id_number_flag)
        + action_if(spec_regex_is_match(PHONE_PATTERN@, content), phone_number_flag)
}

/// All four patterns of the single-record check compile.
pub open spec fn item_patterns_compile() -> bool {
    &&& spec_regex_compiles(spec_password_pattern(false))
    &&& spec_regex_compiles(CARD_PATTERN_COMPACT@)
    &&& spec_regex_compiles(ID_NUMBER_PATTERN@)
    &&& spec_regex_compiles(PHONE_PATTERN@)
}

fn push_action_if(actions: &mut Vec<PrivacyAction>, hit: bool, flag: bool)
    ensures
        final(actions)@ == old(actions)@ + action_if(hit, flag),
{
    if hit {
        actions.push(if flag {
            PrivacyAction::Mark
        } else {
            PrivacyAction::Unmark
        });
        assert(final(actions)@ =~= old(actions)@ + action_if(hit, flag));
    } else {
        assert(actions@ =~= actions@ + action_if(hit, flag));
    }
}

/// The actions that checking one record calls for, given which kinds are to be kept
/// private; the error is the regex crate's message when a pattern does not compile.
pub fn private_item_actions(
    item: &ClipboardItem,
    password_flag: bool,
    bank_card_flag: bool,
    id_number_flag: bool,
    phone_number_flag: bool,
) -> (res: Result<Vec<PrivacyAction>, String>)
    ensures
        res is Ok <==> item_patterns_compile(),
        res matches Ok(actions) ==> actions@ == spec_item_actions(
            item.notes@,
            item.content@,
            password_flag,
            bank_card_flag,
            id_number_flag,
            phone_number_flag,
        ),
{
    let mut actions: Vec<PrivacyAction> = Vec::new();
    let pwd = password_pattern(false);
    let pwd_re = compile_pattern(pwd.as_str())?;
    let hit = pattern_is_match(&pwd_re, item.notes.as_str());
    push_action_if(&mut actions, hit, password_flag);
    let card_re = compile_pattern(CARD_PATTERN_COMPACT)?;
    let hit = contains_valid_card(&card_re, item.content.as_str());
    push_action_if(&mut actions, hit, bank_card_flag);
    let id_re = compile_pattern(ID_NUMBER_PATTERN)?;
    let hit = pattern_is_match(&id_re, item.content.as_str());
    push_action_if(&mut actions, hit, id_number_flag);
    let phone_re = compile_pattern(PHONE_PATTERN)?;
    let hit = pattern_is_match(&phone_re, item.content.as_str());
    push_action_if(&mut actions, hit, phone_number_flag);
    assert(actions@ =~= spec_item_actions(
        item.notes@,
        item.content@,
        password_flag,
        bank_card_flag,
        id_number_flag,
        phone_number_flag,
    ));
    Ok(actions)
}

/// Whether a record is marked private after `actions` are applied in order to a record
/// whose mark was `initial`: the last action decides, and no action leaves it as it was.
pub open spec fn spec_final_status(initial: bool, actions: Seq<PrivacyAction>) -> bool {
    if actions.len() == 0 {
        initial
    } else {
        actions.last() == PrivacyAction::Mark
    }
}

/// Whether a record is marked private after the actions are applied in order.
pub fn final_private_status(initial: bool, actions: &Vec<PrivacyAction>) -> (res: bool)
    ensures
        res == spec_final_status(initial, actions@),
{
    if actions.len() == 0 {
        initial
    } else {
        actions[actions.len() - 1] == PrivacyAction::Mark
    }
}

/// Applying the actions one at a time, each mark or unmark overwriting the previous
/// state, ends in `spec_final_status`; applying them a second time changes nothing.
pub proof fn lemma_privacy_actions_fold(initial: bool, actions: Seq<PrivacyAction>)
    ensures
        actions.len() > 0 ==> spec_final_status(initial, actions) == spec_final_status(
            spec_final_status(initial, actions.drop_last()),
            seq![actions.last()],
        ),
        spec_final_status(spec_final_status(initial, actions), actions) == spec_final_status(
            initial,
            actions,
        ),
{
}

/// A record none of whose checks fire keeps its mark; otherwise the last check that
/// fires decides, by its kind's flag.
pub proof fn lemma_item_status(
    initial: bool,
    notes: Seq<char>,
    content: Seq<char>,
    f1: bool,
    f2: bool,
    f3: bool,
    f4: bool,
)
    ensures
        ({
            let a = spec_item_actions(notes, content, f1, f2, f3, f4);
            let h1 = spec_regex_is_match(spec_password_pattern(false), notes);
            let h2 = spec_card_found(CARD_PATTERN_COMPACT@, content);
            let h3 = spec_regex_is_match(ID_NUMBER_PATTERN@, content);
            let h4 = spec_regex_is_match(PHONE_PATTERN@, content);
            &&& !h1 && !h2 && !h3 && !h4 ==> spec_final_status(initial, a) == initial
            &&& h4 ==> spec_final_status(initial, a) == f4
            &&& !h4 && h3 ==> spec_final_status(initial, a) == f3
            &&& !h4 && !h3 && h2 ==> spec_final_status(initial, a) == f2
            &&& !h4 && !h3 && !h2 && h1 ==> spec_final_status(initial, a) == f1
        }),
{
    let h1 = spec_regex_is_match(spec_password_pattern(false), notes);
    let h2 = spec_card_found(CARD_PATTERN_COMPACT@, content);
    let h3 = spec_regex_is_match(ID_NUMBER_PATTERN@, content);
    let h4 = spec_regex_is_match(PHONE_PATTERN@, content);
    let a1 = action_if(h1, f1);
    let a2 = action_if(h2, f2);
    let a3 = action_if(h3, f3);
    let a4 = action_if(h4, f4);
    let a = spec_item_actions(notes, content, f1, f2, f3, f4);
    assert(a == a1 + a2 + a3 + a4);
    if h4 {
        assert(a.last() == action_for(f4));
    } else if h3 {
        assert(a == a1 + a2 + a3);
        assert(a.last() == action_for(f3));
    } else if h2 {
        assert(a == a1 + a2);
        assert(a.last() == action_for(f2));
    } else if h1 {
        assert(a == a1);
    } else {
        assert(a.len() == 0);
    }
}

} // verus!
