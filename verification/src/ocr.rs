//! Text recognition settings: reading the provider and language names the user gives,
//! the defaults, the slot that holds the configured engine, and the text kept from a
//! recognition result.
use vstd::prelude::*;
use crate::text::{spec_to_lowercase, spec_trim, str_eq, to_lowercase, trim};
use vstd::string::StringExecFns;

verus! {

broadcast use vstd::string::group_string_axioms;

/// The languages text can be recognised in.
#[derive(Debug, Clone, Copy, PartialEq, Eq, Structural)]
pub enum OcrLanguage {
    English,
    Chinese,
    Japanese,
}

/// The recognition back ends.
#[derive(Debug, Clone, Copy, PartialEq, Eq, Structural)]
pub enum OcrProviderKind {
    Auto,
    Tesseract,
    Windows,
    MacOS,
}

/// A name as it is compared: trimmed and lower-cased.
pub open spec fn normalized_name(s: Seq<char>) -> Seq<char> {
    spec_to_lowercase(spec_trim(s))
}

/// The language that a normalised code names, if any.
pub open spec fn spec_language(n: Seq<char>) -> Option<OcrLanguage> {
    if n == "eng"@ || n == "en"@ || n == "english"@ {
        Some(OcrLanguage::English)
    } else if n == "zh"@ || n == "chi"@ || n == "chinese"@ || n == "zh-cn"@ || n == "chi_sim"@
        || n == "zh_cn"@ {
        Some(OcrLanguage::Chinese)
    } else if n == "ja"@ || n == "jpn"@ || n == "japanese"@ {
        Some(OcrLanguage::Japanese)
    } else {
        None
    }
}

/// The back end that a normalised name names, if any.
pub open spec fn spec_provider(n: Seq<char>) -> Option<OcrProviderKind> {
    if n == "auto"@ {
        Some(OcrProviderKind::Auto)
    } else if n == "tesseract"@ {
        Some(OcrProviderKind::Tesseract)
    } else if n == "windows"@ {
        Some(OcrProviderKind::Windows)
    } else if n == "macos"@ {
        Some(OcrProviderKind::MacOS)
    } else {
        None
    }
}

/// Reads a language code, ignoring surrounding white space and case; an unknown code is
/// refused with the normalised code in the message.
pub fn parse_language(code: &str) -> (res: Result<OcrLanguage, String>)
    ensures
        match spec_language(normalized_name(code@)) {
            Some(l) => res == Ok::<OcrLanguage, String>(l),
            None => res is Err && res->Err_0@ == "Unsupported language code: "@ + normalized_name(
                code@,
            ),
        },
{
    let t = trim(code);
    let n = to_lowercase(t.as_str());
    let s = n.as_str();
    if str_eq(s, "eng") || str_eq(s, "en") || str_eq(s, "english") {
        Ok(OcrLanguage::English)
    } else if str_eq(s, "zh") || str_eq(s, "chi") || str_eq(s, "chinese") || str_eq(s, "zh-cn")
        || str_eq(s, "chi_sim") || str_eq(s, "zh_cn") {
        Ok(OcrLanguage::Chinese)
    } else if str_eq(s, "ja") || str_eq(s, "jpn") || str_eq(s, "japanese") {
        Ok(OcrLanguage::Japanese)
    } else {
        let mut msg = "Unsupported language code: ".to_string();
        msg.append(s);
        Err(msg)
    }
}

/// Reads a back-end name, ignoring surrounding white space and case; an unknown name is
/// refused with the normalised name in the message.
pub fn parse_provider(provider: &str) -> (res: Result<OcrProviderKind, String>)
    ensures
        match spec_provider(normalized_name(provider@)) {
            Some(p) => res == Ok::<OcrProviderKind, String>(p),
            None => res is Err && res->Err_0@ == "Unsupported OCR provider: "@ + normalized_name(
                provider@,
            ),
        },
{
    let t = trim(provider);
    let n = to_lowercase(t.as_str());
    let s = n.as_str();
    if str_eq(s, "auto") {
        Ok(OcrProviderKind::Auto)
    } else if str_eq(s, "tesseract") {
        Ok(OcrProviderKind::Tesseract)
    } else if str_eq(s, "windows") {
        Ok(OcrProviderKind::Windows)
    } else if str_eq(s, "macos") {
        Ok(OcrProviderKind::MacOS)
    } else {
        let mut msg = "Unsupported OCR provider: ".to_string();
        msg.append(s);
        Err(msg)
    }
}

/// The settings a recognition engine is made with (the confidence threshold, a float,
/// is kept by the caller).
#[derive(Debug, PartialEq)]
pub struct OcrSettings {
    pub provider: OcrProviderKind,
    pub languages: Vec<OcrLanguage>,
    pub timeout_secs: u64,
}

/// The language codes used when none are given.
pub open spec fn default_language_codes() -> Seq<Seq<char>> {
    seq!["eng"@, "chi"@]
}

/// The codes to read: those given, else the defaults.
pub open spec fn effective_codes(language: Option<Seq<Seq<char>>>) -> Seq<Seq<char>> {
    match language {
        Some(v) => v,
        None => default_language_codes(),
    }
}

/// Whether every one of the first `n` codes names a language.
pub open spec fn codes_known(codes: Seq<Seq<char>>, n: int) -> bool {
    forall|i: int| 0 <= i < n ==> (#[trigger] spec_language(normalized_name(codes[i]))) is Some
}

/// Code `k` is the first that names no language.
pub open spec fn first_unknown(codes: Seq<Seq<char>>, k: int) -> bool {
    0 <= k < codes.len() && codes_known(codes, k) && spec_language(normalized_name(codes[k])) is None
}

/// What resolving the settings gives for the provider name `pname`, the language codes
/// `codes` and the timeout `timeout`: an unknown provider and the first unknown code are
/// refused with their messages; otherwise the settings hold the provider, the languages
/// of the codes in order, and the timeout.
pub open spec fn settings_outcome(
    pname: Seq<char>,
    codes: Seq<Seq<char>>,
    timeout: u64,
    res: Result<OcrSettings, String>,
) -> bool {
    match spec_provider(normalized_name(pname)) {
        None => res is Err && res->Err_0@ == "Failed to parse OCR provider: "@
            + "Unsupported OCR provider: "@ + normalized_name(pname),
        Some(p) => if codes_known(codes, codes.len() as int) {
            res matches Ok(s) && s.provider == p && s.timeout_secs == timeout
                && s.languages@.len() == codes.len() && forall|i: int|
                0 <= i < codes.len() ==> Some(#[trigger] s.languages@[i]) == spec_language(
                    normalized_name(codes[i]),
                )
        } else {
            res is Err && exists|k: int| #[trigger] first_unknown(codes, k)
                && res->Err_0@ == "Failed to parse languages: "@
                + "Unsupported language code: "@ + normalized_name(codes[k])
        },
    }
}

/// The settings for an engine: the provider given or "auto", the language codes given
/// or "eng" and "chi", the timeout given or 30 seconds. A provider that is not known
/// gives "Failed to parse OCR provider: " and the reason; otherwise the first code that
/// names no language gives "Failed to parse languages: " and the reason.
pub fn resolve_ocr_settings(
    provider: Option<String>,
    language: Option<Vec<String>>,
    timeout_secs: Option<u64>,
) -> (res: Result<OcrSettings, String>)
    ensures
        settings_outcome(
            match provider {
                Some(p) => p@,
                None => "auto"@,
            },
            effective_codes(
                match language {
                    Some(v) => Some(v@.map_values(|s: String| s@)),
                    None => None,
                },
            ),
            match timeout_secs {
                Some(t) => t,
                None => 30,
            },
            res,
        ),
{
    let pname = match provider {
        Some(p) => p,
        None => "auto".to_string(),
    };
    let codes: Vec<String> = match language {
        Some(v) => v,
        None => {
            let mut d: Vec<String> = Vec::new();
            d.push("eng".to_string());
            d.push("chi".to_string());
            assert(d@.map_values(|s: String| s@) =~= default_language_codes());
            d
        },
    };
    let ghost cv = codes@.map_values(|s: String| s@);
    assert(pname@ == match provider {
        Some(p) => p@,
        None => "auto"@,
    });
    assert(cv == effective_codes(
        match language {
            Some(v) => Some(v@.map_values(|s: String| s@)),
            None => None,
        },
    ));
    let p = match parse_provider(pname.as_str()) {
        Ok(p) => p,
        Err(e) => {
            let mut msg = "Failed to parse OCR provider: ".to_string();
            msg.append(e.as_str());
            assert(msg@ =~= "Failed to parse OCR provider: "@ + "Unsupported OCR provider: "@
                + normalized_name(pname@));
            return Err(msg);
        },
    };
    let mut langs: Vec<OcrLanguage> = Vec::new();
    let mut i: usize = 0;
    while i < codes.len()
        invariant
            cv == codes@.map_values(|s: String| s@),
            cv == effective_codes(
                match language {
                    Some(v) => Some(v@.map_values(|s: String| s@)),
                    None => None,
                },
            ),
            pname@ == match provider {
                Some(p) => p@,
                None => "auto"@,
            },
            spec_provider(normalized_name(pname@)) == Some(p),
            i <= codes.len(),
            langs@.len() == i,
            codes_known(cv, i as int),
            forall|j: int| 0 <= j < i ==> Some(#[trigger] langs@[j]) == spec_language(normalized_name(cv[j])),
        decreases codes.len() - i,
    {
        assert(cv[i as int] == codes@[i as int]@);
        match parse_language(codes[i].as_str()) {
            Ok(l) => {
                langs.push(l);
            },
            Err(e) => {
                let mut msg = "Failed to parse languages: ".to_string();
                msg.append(e.as_str());
                assert(spec_language(normalized_name(cv[i as int])) is None);
                assert(msg@ =~= "Failed to parse languages: "@ + "Unsupported language code: "@
                    + normalized_name(cv[i as int]));
                assert(codes_known(cv, i as int));
                assert(!codes_known(cv, cv.len() as int));
                assert(spec_provider(normalized_name(pname@)) == Some(p));
                assert(first_unknown(cv, i as int));
                let r: Result<OcrSettings, String> = Err(msg);
                assert(settings_outcome(pname@, cv, match timeout_secs {
                    Some(t) => t,
                    None => 30,
                }, r));
                return r;
            },
        }
        i += 1;
    }
    let timeout = match timeout_secs {
        Some(t) => t,
        None => 30,
    };
    Ok(OcrSettings { provider: p, languages: langs, timeout_secs: timeout })
}

/// Holds the configured engine, if any.
pub struct EngineSlot<E> {
    engine: Option<E>,
}

impl<E> EngineSlot<E> {
    /// A slot with no engine.
    pub fn new() -> (res: Self)
        ensures
            res.engine() is None,
    {
        EngineSlot { engine: None }
    }

    /// The engine held.
    pub closed spec fn engine(&self) -> Option<E> {
        self.engine
    }
}

/// Holds `engine` in place of any earlier one (configuring again replaces it).
pub fn install_engine<E>(slot: &mut EngineSlot<E>, engine: E)
    ensures
        final(slot).engine() == Some(engine),
{
    slot.engine = Some(engine);
}

/// Empties the slot.
pub fn reset_ocr_engine<E>(slot: &mut EngineSlot<E>) -> (res: Result<(), String>)
    ensures
        res is Ok,
        final(slot).engine() is None,
{
    slot.engine = None;
    Ok(())
}

/// The engine to recognise with, or "OCR engine is not configured." when there is none.
pub fn configured_engine<E>(slot: &EngineSlot<E>) -> (res: Result<&E, String>)
    ensures
        slot.engine() is None ==> res is Err && res->Err_0@ == "OCR engine is not configured."@,
        slot.engine() matches Some(e) ==> res == Ok::<&E, String>(&e),
{
    match &slot.engine {
        Some(e) => Ok(e),
        None => Err("OCR engine is not configured.".to_string()),
    }
}

/// The texts of a result's entries that have one, joined with line breaks.
pub open spec fn joined_texts(items: Seq<Option<Seq<char>>>) -> Seq<char>
    decreases items.len(),
{
    if items.len() == 0 {
        Seq::empty()
    } else {
        let rest = joined_texts(items.drop_last());
        match items.last() {
            Some(t) => if !has_text(items.drop_last()) {
                t
            } else {
                rest + seq!['\n'] + t
            },
            None => rest,
        }
    }
}

/// Whether some entry has a text.
pub open spec fn has_text(items: Seq<Option<Seq<char>>>) -> bool {
    exists|i: int| 0 <= i < items.len() && (#[trigger] items[i]) is Some
}

/// The texts of a list of entries, as character sequences.
pub open spec fn entries_view(v: Seq<Option<String>>) -> Seq<Option<Seq<char>>> {
    v.map_values(
        |o: Option<String>|
            match o {
                Some(s) => Some(s@),
                None => None,
            },
    )
}

/// The text kept from a recognition result: when the result reads as a list of entries,
/// the texts of the entries that have one, joined with line breaks; otherwise the result
/// as it came.
pub fn ocr_text_from_result(parsed: Option<Vec<Option<String>>>, raw: String) -> (res: String)
    ensures
        match parsed {
            Some(v) => res@ == joined_texts(entries_view(v@)),
            None => res == raw,
        },
{
    match parsed {
        None => raw,
        Some(v) => {
            let mut out = String::new();
            let mut any = false;
            let mut i: usize = 0;
            while i < v.len()
                invariant
                    i <= v.len(),
                    out@ == joined_texts(entries_view(v@.subrange(0, i as int))),
                    any == has_text(entries_view(v@.subrange(0, i as int))),
                decreases v.len() - i,
            {
                let ghost pre = entries_view(v@.subrange(0, i as int));
                let ghost next = entries_view(v@.subrange(0, i + 1));
                assert(next.drop_last() =~= pre);
                match &v[i] {
                    Some(t) => {
                        assert(next.last() == Some(t@));
                        if any {
                            out.append("\n");
                            out.append(t.as_str());
                            assert(out@ =~= joined_texts(pre) + seq!['\n'] + t@) by {
                                reveal_strlit("\n");
                            }
                        } else {
                            out = t.clone();
                        }
                        assert(next[i as int] is Some);
                        any = true;
                    },
                    None => {
                        assert(next.last() is None);
                        assert(has_text(next) == has_text(pre)) by {
                            if has_text(next) {
                                let k = choose|k: int| 0 <= k < next.len() && (#[trigger] next[k]) is Some;
                                assert(k < i);
                                assert(pre[k] == next[k]);
                            }
                            if has_text(pre) {
                                let k = choose|k: int| 0 <= k < pre.len() && (#[trigger] pre[k]) is Some;
                                assert(next[k] == pre[k]);
                            }
                        }
                    },
                }
                i += 1;
            }
            assert(v@.subrange(0, v.len() as int) == v@);
            out
        },
    }
}

/// The entries of a recognition result read as a JSON array, each with the text of its
/// "text" field when that field holds a string; `None` when the result is not a JSON
/// array.
pub uninterp spec fn spec_ocr_entries(raw: Seq<char>) -> Option<Seq<Option<Seq<char>>>>;

/// Reads a recognition result as a JSON array (`serde_json::from_str::<Vec<Value>>`)
/// and takes the "text" string of each entry. Trusted: the outcome depends on the text
/// alone and is named.
#[verifier::external_body]
fn parse_ocr_entries(raw: &str) -> (res: Option<Vec<Option<String>>>)
    ensures
        match res {
            Some(v) => spec_ocr_entries(raw@) == Some(entries_view(v@)),
            None => spec_ocr_entries(raw@) is None,
        },
{
    match serde_json::from_str::<Vec<serde_json::Value>>(raw) {
        Ok(values) => Some(
            values.iter().map(|v| v.get("text").and_then(|t| t.as_str()).map(|t| t.to_string())).collect(),
        ),
        Err(_) => None,
    }
}

/// The text kept from a recognition result as it came from the engine: the texts of
/// its entries joined with line breaks when it is a JSON array, else the result itself.
pub fn recognized_text(raw: String) -> (res: String)
    ensures
        match spec_ocr_entries(raw@) {
            Some(e) => res@ == joined_texts(e),
            None => res == raw,
        },
{
    let parsed = parse_ocr_entries(raw.as_str());
    ocr_text_from_result(parsed, raw)
}

} // verus!
