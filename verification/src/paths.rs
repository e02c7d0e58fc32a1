//! Where the application keeps its files: the storage directory, the database file,
//! and stored paths made absolute.
use vstd::prelude::*;
use crate::config::{with_storage_path, Config};
use crate::text::{from_chars, is_blank, replace_all, spec_is_blank, spec_replace, to_chars};

verus! {

/// What `Path::parent` gives for the path with these characters, as text.
pub uninterp spec fn spec_path_parent(p: Seq<char>) -> Option<Seq<char>>;

/// What `Path::join` gives for these two paths, as text.
pub uninterp spec fn spec_path_join(base: Seq<char>, rel: Seq<char>) -> Seq<char>;

/// The parent directory of `p` (`std::path::Path::parent`), as text. Trusted: the result
/// depends on `p` alone and is named; it is `None` for a root, a prefix or the empty path.
#[verifier::external_body]
pub(crate) fn path_parent(p: &str) -> (res: Option<String>)
    ensures
        match res {
            Some(s) => spec_path_parent(p@) == Some(s@),
            None => spec_path_parent(p@) is None,
        },
{
    std::path::Path::new(p).parent().map(|q| q.to_string_lossy().to_string())
}

/// `rel` appended to `base` as a path (`std::path::Path::join`), as text. Trusted: the
/// result depends on the two paths alone and is named (an absolute `rel` replaces `base`).
#[verifier::external_body]
pub(crate) fn path_join(base: &str, rel: &str) -> (res: String)
    ensures
        res@ == spec_path_join(base@, rel@),
{
    std::path::Path::new(base).join(rel).to_string_lossy().to_string()
}

/// Whether two paths are equal as `std::path::Path` compares them (component by
/// component), given as text.
pub uninterp spec fn spec_same_path(a: Seq<char>, b: Seq<char>) -> bool;

/// Whether `a` and `b` name the same path (`PartialEq` of `std::path::Path`, which
/// compares components). Trusted: the result depends on the two texts alone and is
/// named; the one fact stated is that equal texts give equal paths.
#[verifier::external_body]
pub(crate) fn same_path(a: &str, b: &str) -> (res: bool)
    ensures
        res == spec_same_path(a@, b@),
        a@ == b@ ==> res,
{
    std::path::Path::new(a) == std::path::Path::new(b)
}

/// The directory where data is kept: the configured storage path when it is set and not
/// blank, else the directory of the settings file, else the current directory.
pub open spec fn spec_storage_path(cfg: Option<Config>, config_path: Seq<char>) -> Seq<char> {
    if cfg is Some && cfg->0.storage_path is Some && !spec_is_blank(cfg->0.storage_path->0@) {
        cfg->0.storage_path->0@
    } else {
        match spec_path_parent(config_path) {
            Some(parent) => parent,
            None => "."@,
        }
    }
}

/// The directory where data is kept, given the loaded settings (if any) and the path of
/// the settings file.
pub fn get_current_storage_path(cfg: Option<&Config>, config_path: &str) -> (res: String)
    ensures
        res@ == spec_storage_path(
            match cfg {
                Some(c) => Some(*c),
                None => None,
            },
            config_path@,
        ),
{
    if let Some(c) = cfg {
        if let Some(p) = &c.storage_path {
            if !is_blank(p.as_str()) {
                return p.clone();
            }
        }
    }
    match path_parent(config_path) {
        Some(parent) => parent,
        None => ".".to_string(),
    }
}

/// A stored path relative to the storage directory, made absolute.
pub fn resolve_absolute_path(cfg: Option<&Config>, config_path: &str, relative_path: &str) -> (res:
    String)
    ensures
        res@ == spec_path_join(
            spec_storage_path(
                match cfg {
                    Some(c) => Some(*c),
                    None => None,
                },
                config_path@,
            ),
            relative_path@,
        ),
{
    let root = get_current_storage_path(cfg, config_path);
    path_join(root.as_str(), relative_path)
}

/// `path` with every backslash turned into a forward slash.
pub fn normalize_to_forward_slashes(path: &str) -> (res: String)
    ensures
        res@ == spec_replace(path@, "\\"@, "/"@),
{
    proof {
        reveal_strlit("\\");
    }
    let v = replace_all(&to_chars(path), &to_chars("\\"), &to_chars("/"));
    from_chars(&v)
}

/// The database file: the one configured, else "smartpaste.db" in the working directory.
pub fn get_db_path(configured: Option<&str>) -> (res: String)
    ensures
        match configured {
            Some(p) => res@ == p@,
            None => res@ == "smartpaste.db"@,
        },
{
    match configured {
        Some(p) => p.to_string(),
        None => "smartpaste.db".to_string(),
    }
}

/// The settings file: the one set, else "config.json" in the working directory.
pub fn get_config_path(configured: Option<&str>) -> (res: String)
    ensures
        match configured {
            Some(p) => res@ == p@,
            None => res@ == "config.json"@,
        },
{
    match configured {
        Some(p) => p.to_string(),
        None => "config.json".to_string(),
    }
}

/// The directory of the settings file at `config_path`, or "." when it has none.
pub open spec fn spec_config_dir(config_path: Seq<char>) -> Seq<char> {
    match spec_path_parent(config_path) {
        Some(parent) => parent,
        None => "."@,
    }
}

/// When the settings name no storage directory (none, or only white space), the
/// directory of the settings file becomes it, with forward slashes; that directory is
/// returned so that the caller creates it. Settings that name one are left as they are.
pub fn fill_default_storage_path(cfg: &mut Config, config_path: &str) -> (res: Option<String>)
    ensures
        (old(cfg).storage_path is Some && !spec_is_blank(old(cfg).storage_path->0@)) ==> res is None
            && *final(cfg) == *old(cfg),
        !(old(cfg).storage_path is Some && !spec_is_blank(old(cfg).storage_path->0@)) ==> res
            is Some && res->0@ == spec_config_dir(config_path@) && final(cfg).storage_path is Some
            && final(cfg).storage_path->0@ == spec_replace(spec_config_dir(config_path@), "\\"@, "/"@)
            && *final(cfg) == with_storage_path(*old(cfg), final(cfg).storage_path),
{
    if let Some(p) = &cfg.storage_path {
        if !is_blank(p.as_str()) {
            return None;
        }
    }
    let dir = match path_parent(config_path) {
        Some(parent) => parent,
        None => ".".to_string(),
    };
    set_storage_path(cfg, normalize_to_forward_slashes(dir.as_str()));
    Some(dir)
}

fn set_storage_path(cfg: &mut Config, p: String)
    ensures
        final(cfg).storage_path == Some(p),
        *final(cfg) == with_storage_path(*old(cfg), Some(p)),
{
    cfg.storage_path = Some(p);
}

} // verus!
