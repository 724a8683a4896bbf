//! Server configuration values and their defaults.

use vstd::prelude::*;

verus! {

/// The bind address used when the configuration names none.
pub const DEFAULT_BIND: &'static str = "0.0.0.0:8443";

/// The file name of the store, placed beside the executable by default.
pub const DB_FILE_NAME: &'static str = "inventory.db";

/// Server configuration, as read from the configuration file.
#[derive(Debug, Clone, PartialEq, Eq)]
pub struct Config {
    pub bind: String,
    pub db_path: Option<String>,
    pub tls_cert: Option<String>,
    pub tls_key: Option<String>,
    pub debug: bool,
}

/// The text of the default bind address.
pub open spec fn default_bind_text() -> Seq<char> {
    seq!['0', '.', '0', '.', '0', '.', '0', ':', '8', '4', '4', '3']
}

pub open spec fn ends_with(s: Seq<char>, suffix: Seq<char>) -> bool {
    suffix.len() <= s.len() && s.subrange(s.len() - suffix.len(), s.len() as int) == suffix
}

pub open spec fn starts_with(s: Seq<char>, prefix: Seq<char>) -> bool {
    prefix.len() <= s.len() && s.subrange(0, prefix.len() as int) == prefix
}

/// A character that keeps a file name relative and free of any drive or
/// root prefix, on every platform.
pub open spec fn is_plain_name_char(c: char) -> bool {
    ('a' <= c <= 'z') || ('A' <= c <= 'Z') || ('0' <= c <= '9') || c == '.' || c == '_' || c
        == '-'
}

pub open spec fn is_separator(c: char) -> bool {
    c == '/' || c == '\\'
}

/// A directory that a name is appended to with nothing between: empty, or
/// ending in a separator or in the `:` of a bare drive.
pub open spec fn joins_directly(dir: Seq<char>) -> bool {
    dir.len() == 0 || is_separator(dir.last()) || dir.last() == ':'
}

/// `dir` followed by `name`: directly where the directory ends in a
/// separator, a drive's `:` or is empty; otherwise with one separator between.
pub open spec fn is_joined(r: Seq<char>, dir: Seq<char>, name: Seq<char>) -> bool {
    ||| joins_directly(dir) && r == dir + name
    ||| {
        &&& r.len() == dir.len() + 1 + name.len()
        &&& r.subrange(0, dir.len() as int) == dir
        &&& is_separator(r[dir.len() as int])
        &&& r.subrange(dir.len() + 1int, r.len() as int) == name
    }
}

/// A directory that may carry a Windows verbatim prefix (`\\?\`), under
/// which a joined path is normalized.
pub open spec fn may_be_verbatim(dir: Seq<char>) -> bool {
    dir.len() >= 4 && is_separator(dir[0]) && is_separator(dir[1]) && dir[2] == '?'
        && is_separator(dir[3])
}

/// Relies on std::path::Path::join (documented on `PathBuf::push`): a relative
/// name is appended to the directory, with one separator unless the directory
/// is empty or already ends with one (or, on Windows, is a bare drive). Under a
/// verbatim prefix the result is normalized, so nothing is said of it there.
#[verifier::external_body]
fn join_path(dir: &str, name: &str) -> (r: String)
    requires
        exists|i: int| 0 <= i < name@.len() && #[trigger] name@[i] != '.',
        forall|i: int| 0 <= i < name@.len() ==> is_plain_name_char(#[trigger] name@[i]),
    ensures
        !may_be_verbatim(dir@) ==> is_joined(r@, dir@, name@),
{
    std::path::Path::new(dir).join(name).to_string_lossy().into_owned()
}

/// The bind address used when the configuration names none.
pub fn default_bind() -> (r: String)
    ensures
        r@ == default_bind_text(),
{
    proof {
        reveal_strlit("0.0.0.0:8443");
    }
    String::from_str(DEFAULT_BIND)
}

impl Default for Config {
    fn default() -> (r: Config)
        ensures
            r.bind@ == default_bind_text(),
            r.db_path is None,
            r.tls_cert is None,
            r.tls_key is None,
            !r.debug,
    {
        Config { bind: default_bind(), db_path: None, tls_cert: None, tls_key: None, debug: false }
    }
}

/// The store path used when the configuration names none: `inventory.db`
/// inside the directory that holds the executable.
pub fn default_db_path(exe_dir: &str) -> (r: String)
    ensures
        !may_be_verbatim(exe_dir@) ==> is_joined(r@, exe_dir@, DB_FILE_NAME@),
        !may_be_verbatim(exe_dir@) ==> starts_with(r@, exe_dir@),
        !may_be_verbatim(exe_dir@) ==> ends_with(r@, DB_FILE_NAME@),
{
    proof {
        reveal_strlit("inventory.db");
        assert(DB_FILE_NAME@[0] != '.');
    }
    let r = join_path(exe_dir, DB_FILE_NAME);
    proof {
        let d = exe_dir@;
        let n = DB_FILE_NAME@;
        if r@ == d + n {
            assert(r@.subrange(0, d.len() as int) =~= d);
            assert(r@.subrange(r@.len() - n.len(), r@.len() as int) =~= n);
        }
    }
    r
}

/// Overrides read from the process environment, each absent when unset.
pub struct EnvOverrides {
    pub bind: Option<String>,
    pub db_path: Option<String>,
    pub tls_cert: Option<String>,
    pub tls_key: Option<String>,
    pub debug: Option<String>,
}

/// Certificate and key files for serving over TLS.
pub struct TlsPaths {
    pub cert: String,
    pub key: String,
}

/// The settings the server runs with, after every source is consulted.
pub struct Settings {
    pub bind: String,
    pub db_path: String,
    pub tls: Option<TlsPaths>,
    pub debug: bool,
}

/// What std's `str::to_lowercase` gives for a text.
pub uninterp spec fn lower_of(s: Seq<char>) -> Seq<char>;

/// Relies on std's `str::to_lowercase`: the result depends on the characters alone.
#[verifier::external_body]
fn lowercase(s: &str) -> (r: String)
    ensures
        r@ == lower_of(s@),
{
    s.to_lowercase()
}

pub open spec fn one_text() -> Seq<char> {
    seq!['1']
}

pub open spec fn true_text() -> Seq<char> {
    seq!['t', 'r', 'u', 'e']
}

/// An environment value that switches a flag on: `1`, or `true` in any case.
pub open spec fn is_truthy(v: Seq<char>) -> bool {
    v == one_text() || lower_of(v) == true_text()
}

fn first_of(primary: Option<String>, fallback: Option<String>) -> (r: Option<String>)
    ensures
        r == (match primary {
            Some(_) => primary,
            None => fallback,
        }),
{
    match primary {
        Some(v) => Some(v),
        None => fallback,
    }
}

/// Whether an environment value switches a flag on, given its lowercase form.
pub fn truthy_given(v: &str, lowered: &str) -> (r: bool)
    ensures
        r == (v@ == one_text() || lowered@ == true_text()),
{
    proof {
        reveal_strlit("1");
        reveal_strlit("true");
    }
    let one = String::from_str("1");
    let t = String::from_str("true");
    let given = String::from_str(v);
    let lower = String::from_str(lowered);
    assert(one@ =~= one_text());
    assert(t@ =~= true_text());
    given == one || lower == t
}

/// Whether an environment value switches a flag on.
pub fn truthy(v: &str) -> (r: bool)
    ensures
        r == is_truthy(v@),
{
    let lower = lowercase(v);
    truthy_given(v, lower.as_str())
}

pub open spec fn text_or_empty(o: Option<String>) -> Seq<char> {
    match o {
        Some(s) => s@,
        None => Seq::empty(),
    }
}

/// Resolves the settings: an environment value overrides the file's; the
/// store path falls back to `inventory.db` beside the executable; TLS is used
/// only when both a certificate and a key path are non-empty; debug mode is on
/// when the command-line flag, a truthy environment value, or the file says so.
pub fn resolve_settings(cfg: Config, env: EnvOverrides, debug_flag: bool, exe_dir: &str) -> (r:
    Settings)
    ensures
        r.bind@ == (match env.bind {
            Some(b) => b@,
            None => cfg.bind@,
        }),
        match env.db_path {
            Some(p) => r.db_path@ == p@,
            None => match cfg.db_path {
                Some(p) => r.db_path@ == p@,
                None => !may_be_verbatim(exe_dir@) ==> is_joined(
                    r.db_path@,
                    exe_dir@,
                    DB_FILE_NAME@,
                ),
            },
        },
        ({
            let cert = text_or_empty(
                match env.tls_cert {
                    Some(_) => env.tls_cert,
                    None => cfg.tls_cert,
                },
            );
            let key = text_or_empty(
                match env.tls_key {
                    Some(_) => env.tls_key,
                    None => cfg.tls_key,
                },
            );
            match r.tls {
                Some(t) => cert.len() > 0 && key.len() > 0 && t.cert@ == cert && t.key@ == key,
                None => cert.len() == 0 || key.len() == 0,
            }
        }),
        r.debug == (debug_flag || (env.debug is Some && is_truthy(env.debug->Some_0@))
            || cfg.debug),
{
    let bind = match env.bind {
        Some(b) => b,
        None => cfg.bind,
    };
    let db_path = match first_of(env.db_path, cfg.db_path) {
        Some(p) => p,
        None => default_db_path(exe_dir),
    };
    let cert = match first_of(env.tls_cert, cfg.tls_cert) {
        Some(c) => c,
        None => String::new(),
    };
    let key = match first_of(env.tls_key, cfg.tls_key) {
        Some(k) => k,
        None => String::new(),
    };
    let tls = if cert.as_str().unicode_len() > 0 && key.as_str().unicode_len() > 0 {
        Some(TlsPaths { cert, key })
    } else {
        None
    };
    let env_debug = match &env.debug {
        Some(v) => truthy(v.as_str()),
        None => false,
    };
    Settings { bind, db_path, tls, debug: debug_flag || env_debug || cfg.debug }
}

} // verus!
