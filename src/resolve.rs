//! Destination resolution: choosing the branch of a per-platform destination
//! and substituting the well-known directory placeholders.
use vstd::prelude::*;
use vstd::string::StrSliceExecFns;
use vstd::string::StringExecFns;
use crate::path::{join, matches_at, occurs_at, path_join, push_char_of};

verus! {

/// The operating systems a destination can be written for.
#[derive(Clone, Copy, Debug, PartialEq, Eq, Structural)]
pub enum Platform {
    MacOs,
    Linux,
}

/// A destination: one string for every platform, or one string per platform.
#[derive(Debug)]
pub enum OsOrString {
    Os { macos: String, linux: String },
    String(String),
}

/// One declared mapping from a repository path to a destination.
#[derive(Debug)]
pub struct Location {
    pub from: String,
    pub to: OsOrString,
}

/// The directories that placeholders stand for, as discovered on the host.
#[derive(Debug)]
pub struct HostDirs {
    /// The user's home directory.
    pub home: String,
    /// The per-user local configuration directory.
    pub config: String,
}

/// The placeholder for `<home>/.config`.
pub open spec fn unix_config_token() -> Seq<char> {
    seq!['$', 'U', 'N', 'I', 'X', '_', 'C', 'O', 'N', 'F', 'I', 'G']
}

/// The placeholder for the per-user local configuration directory.
pub open spec fn config_token() -> Seq<char> {
    seq!['$', 'C', 'O', 'N', 'F', 'I', 'G']
}

/// The placeholder for the home directory.
pub open spec fn home_token() -> Seq<char> {
    seq!['$', 'H', 'O', 'M', 'E']
}

/// The text `.config`.
pub open spec fn dot_config() -> Seq<char> {
    seq!['.', 'c', 'o', 'n', 'f', 'i', 'g']
}

/// The directory that `$UNIX_CONFIG` stands for.
pub open spec fn unix_config_dir(home: Seq<char>) -> Seq<char> {
    path_join(home, dot_config())
}

/// Single left-to-right pass over `s`: at each position the placeholders are
/// tried in the order `$UNIX_CONFIG`, `$CONFIG`, `$HOME`, a match is replaced
/// by its value and scanning resumes after the placeholder, so substituted
/// text is never scanned again.
pub open spec fn substitute(s: Seq<char>, unix: Seq<char>, config: Seq<char>, home: Seq<char>) -> Seq<char>
    decreases s.len(),
{
    if s.len() == 0 {
        seq![]
    } else if occurs_at(s, 0, unix_config_token()) {
        unix + substitute(s.skip(12), unix, config, home)
    } else if occurs_at(s, 0, config_token()) {
        config + substitute(s.skip(7), unix, config, home)
    } else if occurs_at(s, 0, home_token()) {
        home + substitute(s.skip(5), unix, config, home)
    } else {
        seq![s[0]] + substitute(s.skip(1), unix, config, home)
    }
}

/// The resolved form of a destination string for the given host directories.
pub open spec fn resolve_placeholders(s: Seq<char>, home: Seq<char>, config: Seq<char>) -> Seq<char> {
    substitute(s, unix_config_dir(home), config, home)
}

/// The destination string written for `platform`.
pub open spec fn select_for(to: OsOrString, platform: Platform) -> Seq<char> {
    match to {
        OsOrString::String(s) => s@,
        OsOrString::Os { macos, linux } => match platform {
            Platform::MacOs => macos@,
            Platform::Linux => linux@,
        },
    }
}

/// The fully resolved destination of a mapping.
pub open spec fn resolved_destination(loc: Location, platform: Platform, dirs: HostDirs) -> Seq<char> {
    resolve_placeholders(select_for(loc.to, platform), dirs.home@, dirs.config@)
}

proof fn lemma_occurs_skip(s: Seq<char>, i: int, pat: Seq<char>)
    requires
        0 <= i <= s.len(),
    ensures
        occurs_at(s, i, pat) == occurs_at(s.skip(i), 0, pat),
{
    if i + pat.len() <= s.len() {
        assert(s.skip(i).subrange(0, pat.len() as int) =~= s.subrange(i, i + pat.len()));
    }
}

/// Substitutes the placeholders of `s` in one left-to-right pass.
pub fn format_path(s: &str, dirs: &HostDirs) -> (r: String)
    ensures
        r@ == resolve_placeholders(s@, dirs.home@, dirs.config@),
{
    let unix = join(dirs.home.as_str(), ".config");
    proof {
        reveal_strlit(".config");
        reveal_strlit("$UNIX_CONFIG");
        reveal_strlit("$CONFIG");
        reveal_strlit("$HOME");
        assert(".config"@ =~= dot_config());
        assert("$UNIX_CONFIG"@ =~= unix_config_token());
        assert("$CONFIG"@ =~= config_token());
        assert("$HOME"@ =~= home_token());
    }
    let ghost u = unix@;
    let ghost c = dirs.config@;
    let ghost h = dirs.home@;
    let n = s.unicode_len();
    let mut out = String::new();
    let mut i: usize = 0;
    assert(s@.skip(0) =~= s@);
    assert(out@ + substitute(s@, u, c, h) =~= substitute(s@, u, c, h));
    while i < n
        invariant
            n == s@.len(),
            i <= n,
            u == unix_config_dir(h),
            u == unix@,
            c == dirs.config@,
            h == dirs.home@,
            "$UNIX_CONFIG"@ == unix_config_token(),
            "$CONFIG"@ == config_token(),
            "$HOME"@ == home_token(),
            substitute(s@, u, c, h) == out@ + substitute(s@.skip(i as int), u, c, h),
        decreases n - i,
    {
        let ghost t = s@.skip(i as int);
        let ghost before = out@;
        proof {
            lemma_occurs_skip(s@, i as int, unix_config_token());
            lemma_occurs_skip(s@, i as int, config_token());
            lemma_occurs_skip(s@, i as int, home_token());
        }
        if matches_at(s, i, "$UNIX_CONFIG") {
            out.append(unix.as_str());
            assert(t.skip(12) =~= s@.skip(i + 12));
            i = i + 12;
        } else if matches_at(s, i, "$CONFIG") {
            out.append(dirs.config.as_str());
            assert(t.skip(7) =~= s@.skip(i + 7));
            i = i + 7;
        } else if matches_at(s, i, "$HOME") {
            out.append(dirs.home.as_str());
            assert(t.skip(5) =~= s@.skip(i + 5));
            i = i + 5;
        } else {
            push_char_of(&mut out, s, i);
            assert(t[0] == s@[i as int]);
            assert(t.skip(1) =~= s@.skip(i + 1));
            i = i + 1;
        }
        assert(out@ + substitute(s@.skip(i as int), u, c, h) =~= before + substitute(t, u, c, h));
    }
    assert(s@.skip(n as int) =~= Seq::<char>::empty());
    assert(out@ + substitute(s@.skip(i as int), u, c, h) =~= out@);
    out
}

/// The directory lookups were made: the host reported both directories.
pub open spec fn dirs_from(home: Option<String>, config: Option<String>, r: Option<HostDirs>) -> bool {
    match (home, config) {
        (Some(h), Some(c)) => r matches Some(d) && d.home@ == h@ && d.config@ == c@,
        _ => r is None,
    }
}

/// Relies on dirs::home_dir: the home directory reported by the host, when it
/// reports one as a UTF-8 path.
#[verifier::external_body]
fn host_home_dir() -> (r: Option<String>) {
    dirs::home_dir().and_then(|p| p.into_os_string().into_string().ok())
}

/// Relies on dirs::config_local_dir: the per-user local configuration
/// directory reported by the host, when it reports one as a UTF-8 path.
#[verifier::external_body]
fn host_config_local_dir() -> (r: Option<String>) {
    dirs::config_local_dir().and_then(|p| p.into_os_string().into_string().ok())
}

impl HostDirs {
    /// Builds the directory set from the two host lookups; `None` when either
    /// lookup found nothing.
    pub fn from_lookups(home: Option<String>, config: Option<String>) -> (r: Option<HostDirs>)
        ensures
            dirs_from(home, config, r),
    {
        match home {
            Some(h) => match config {
                Some(c) => Some(HostDirs { home: h, config: c }),
                None => None,
            },
            None => None,
        }
    }

    /// Asks the host for its home and local configuration directories.
    pub fn discover() -> (r: Option<HostDirs>) {
        let home = host_home_dir();
        let config = host_config_local_dir();
        HostDirs::from_lookups(home, config)
    }
}

impl OsOrString {
    /// Picks the string written for `platform`.
    pub fn select(&self, platform: Platform) -> (r: &String)
        ensures
            r@ == select_for(*self, platform),
    {
        match self {
            OsOrString::String(s) => s,
            OsOrString::Os { macos, linux } => match platform {
                Platform::MacOs => macos,
                Platform::Linux => linux,
            },
        }
    }

    /// A one-line human-readable rendering of the destination.
    pub fn describe(&self) -> (r: String)
        ensures
            r@ == match *self {
                OsOrString::String(s) => s@,
                OsOrString::Os { macos, linux } => "macOS: "@ + macos@ + ", Linux: "@ + linux@,
            },
    {
        match self {
            OsOrString::String(s) => s.clone(),
            OsOrString::Os { macos, linux } => {
                let mut r = String::from_str("macOS: ");
                r.append(macos.as_str());
                r.append(", Linux: ");
                r.append(linux.as_str());
                r
            },
        }
    }
}

/// Resolves a mapping's destination on `platform`: the platform's branch is
/// chosen, then its placeholders are substituted. An empty result means the
/// mapping does not apply on this platform.
pub fn format_location(loc: &Location, platform: Platform, dirs: &HostDirs) -> (r: String)
    ensures
        r@ == resolved_destination(*loc, platform, *dirs),
{
    format_path(loc.to.select(platform).as_str(), dirs)
}

/// A per-platform destination resolves from the macOS string alone on macOS
/// and from the Linux string alone on Linux.
pub proof fn lemma_platform_selection(loc: Location, dirs: HostDirs)
    requires
        loc.to is Os,
    ensures
        resolved_destination(loc, Platform::MacOs, dirs)
            == resolve_placeholders(loc.to->macos@, dirs.home@, dirs.config@),
        resolved_destination(loc, Platform::Linux, dirs)
            == resolve_placeholders(loc.to->linux@, dirs.home@, dirs.config@),
{
}

/// Each placeholder at the front of a destination is replaced by its
/// directory verbatim, and resolution goes on with the text after the
/// placeholder: the inserted directory is never scanned for placeholders.
pub proof fn lemma_placeholders_not_rescanned(rest: Seq<char>, home: Seq<char>, config: Seq<char>)
    ensures
        resolve_placeholders(unix_config_token() + rest, home, config)
            == unix_config_dir(home) + resolve_placeholders(rest, home, config),
        resolve_placeholders(config_token() + rest, home, config)
            == config + resolve_placeholders(rest, home, config),
        resolve_placeholders(home_token() + rest, home, config)
            == home + resolve_placeholders(rest, home, config),
{
    let u = unix_config_dir(home);
    let a = unix_config_token() + rest;
    assert(a.subrange(0, 12) =~= unix_config_token());
    assert(a.skip(12) =~= rest);
    let b = config_token() + rest;
    assert(b.subrange(0, 7) =~= config_token());
    if b.len() >= 12 {
        assert(b.subrange(0, 12)[1] != unix_config_token()[1]);
    }
    assert(b.skip(7) =~= rest);
    let c = home_token() + rest;
    assert(c.subrange(0, 5) =~= home_token());
    assert(c[1] != unix_config_token()[1]);
    assert(c[1] != config_token()[1]);
    if c.len() >= 12 {
        assert(c.subrange(0, 12)[1] != unix_config_token()[1]);
    }
    if c.len() >= 7 {
        assert(c.subrange(0, 7)[1] != config_token()[1]);
    }
    assert(c.skip(5) =~= rest);
}

} // verus!
