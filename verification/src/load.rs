//! Configuration discovery: probing an ordered list of candidate filenames in
//! a directory, optionally rooted at the enclosing repository's top-level
//! directory.
//!
//! Reading the filesystem itself happens outside this crate; discovery is
//! given, for each candidate in order, what reading that file yielded.

use vstd::prelude::*;
use vstd::string::{StringExecFns, StrSliceExecFns};
use crate::config::{Config, ConfigV, Error, decode_config, parse};
use crate::json::json_parse;

verus! {

/// What reading one candidate file yielded: its text, "no such file", or any
/// other filesystem fault with its description.
#[derive(Debug, Clone, PartialEq)]
pub enum FileRead {
    Content(String),
    NotFound,
    Failed(String),
}

/// A parsed configuration paired with the path it was read from.
#[derive(Debug, Clone)]
pub struct LoadedConfig {
    pub path: String,
    pub config: Config,
}

/// Whether configuration text parses and decodes.
pub open spec fn parse_ok(s: Seq<char>) -> bool {
    json_parse(s) matches Some(j) && decode_config(j) is Some
}

/// The configuration that valid text stands for.
pub open spec fn parse_value(s: Seq<char>) -> ConfigV {
    decode_config(json_parse(s)->Some_0)->Some_0
}

/// Turn one file-read outcome into a configuration: text is parsed, a missing
/// file is the distinguished "not found" fault, and any other fault is kept.
pub fn load(read: &FileRead) -> (r: Result<Config, Error>)
    ensures
        read matches FileRead::Content(s) ==> ((parse_ok(s@) ==> (r matches Ok(c) && c@
            == parse_value(s@))) && (!parse_ok(s@) ==> (r matches Err(e) && e is Json))),
        read is NotFound ==> (r matches Err(e) && e.is_not_exist_spec()),
        read matches FileRead::Failed(m) ==> (r matches Err(e) && e matches Error::Io {
            not_found,
            message,
        } && !not_found && message@ == m@),
{
    match read {
        FileRead::Content(s) => parse(s.as_str()),
        FileRead::NotFound => Err(
            Error::Io { not_found: true, message: String::from_str("file not found") },
        ),
        FileRead::Failed(m) => Err(Error::Io { not_found: false, message: m.clone() }),
    }
}

/// The fixed, ordered list of candidate configuration filenames.
pub open spec fn candidate_name(i: int) -> Seq<char> {
    if i == 0 {
        ".ggrc.json"@
    } else if i == 1 {
        ".gg.json"@
    } else {
        "gg.config.json"@
    }
}

/// The fixed, ordered list of candidate configuration filenames.
pub fn config_filenames() -> (r: Vec<String>)
    ensures
        r@.len() == 3,
        forall|i: int| 0 <= i < 3 ==> r@[i]@ == candidate_name(i),
{
    let mut v: Vec<String> = Vec::new();
    v.push(String::from_str(".ggrc.json"));
    v.push(String::from_str(".gg.json"));
    v.push(String::from_str("gg.config.json"));
    v
}

/// A file path under a directory, as the path joining used here renders it.
pub open spec fn join_path(dir: Seq<char>, name: Seq<char>) -> Seq<char> {
    if dir.len() == 0 {
        name
    } else if dir.last() == '/' {
        dir + name
    } else {
        dir + "/"@ + name
    }
}

/// Join a candidate filename onto a directory path.
fn join_path_exec(dir: &str, name: &str) -> (r: String)
    ensures
        r@ == join_path(dir@, name@),
{
    let n = dir.unicode_len();
    if n == 0 {
        return String::from_str(name);
    }
    let mut out = String::new();
    out.append(dir);
    if dir.get_char(n - 1) != '/' {
        out.append("/");
    }
    out.append(name);
    out
}

/// What probing one candidate that is present must yield: a parse of its
/// text when it is valid, the parse error when it is not, and the fault when
/// reading it failed for another reason.
pub open spec fn candidate_outcome(
    dir: Seq<char>,
    name: Seq<char>,
    read: FileRead,
    r: Result<Option<LoadedConfig>, Error>,
) -> bool {
    match read {
        FileRead::Content(s) => if parse_ok(s@) {
            r matches Ok(Some(lc)) && lc.config@ == parse_value(s@) && lc.path@ == join_path(
                dir,
                name,
            )
        } else {
            r matches Err(e) && e is Json
        },
        FileRead::Failed(m) => r matches Err(e) && (e matches Error::Io { not_found, message }
            && !not_found && message@ == m@),
        FileRead::NotFound => r matches Ok(None),
    }
}

/// What discovery over the three ordered candidates must yield: the outcome
/// of the first candidate that is present, and "nothing found" when none is.
pub open spec fn auto_load_matches(
    dir: Seq<char>,
    reads: Seq<FileRead>,
    r: Result<Option<LoadedConfig>, Error>,
) -> bool {
    if !(reads[0] is NotFound) {
        candidate_outcome(dir, candidate_name(0), reads[0], r)
    } else if !(reads[1] is NotFound) {
        candidate_outcome(dir, candidate_name(1), reads[1], r)
    } else if !(reads[2] is NotFound) {
        candidate_outcome(dir, candidate_name(2), reads[2], r)
    } else {
        r matches Ok(None)
    }
}

/// Probe one present candidate.
fn candidate_load(dir: &str, name: &str, read: &FileRead) -> (r: Result<
    Option<LoadedConfig>,
    Error,
>)
    ensures
        candidate_outcome(dir@, name@, *read, r),
{
    match read {
        FileRead::Content(s) => match parse(s.as_str()) {
            Ok(c) => Ok(Some(LoadedConfig { path: join_path_exec(dir, name), config: c })),
            Err(e) => Err(e),
        },
        FileRead::Failed(m) => Err(Error::Io { not_found: false, message: m.clone() }),
        FileRead::NotFound => Ok(None),
    }
}

/// Discover a configuration in a directory.
///
/// `reads[i]` is what reading the `i`-th candidate filename (see
/// [`config_filenames`]) under `dir` yielded. The first candidate that is
/// present decides: a parse failure or a filesystem fault there is surfaced
/// and later candidates are not considered; a missing candidate is skipped
/// silently; when all three are missing the result is `Ok(None)`.
pub fn auto_load(dir: &str, reads: &Vec<FileRead>) -> (r: Result<Option<LoadedConfig>, Error>)
    requires
        reads@.len() == 3,
    ensures
        auto_load_matches(dir@, reads@, r),
{
    let names = config_filenames();
    if !is_not_found(&reads[0]) {
        return candidate_load(dir, names[0].as_str(), &reads[0]);
    }
    if !is_not_found(&reads[1]) {
        return candidate_load(dir, names[1].as_str(), &reads[1]);
    }
    if !is_not_found(&reads[2]) {
        return candidate_load(dir, names[2].as_str(), &reads[2]);
    }
    Ok(None)
}

/// Whether the read found no file.
fn is_not_found(read: &FileRead) -> (r: bool)
    ensures
        r == (read is NotFound),
{
    match read {
        FileRead::NotFound => true,
        _ => false,
    }
}

/// The directory that repository-aware discovery searches: the repository's
/// top-level directory when the root lookup succeeded, the directory itself
/// when it did not.
pub open spec fn effective_dir(dir: Seq<char>, root: Option<String>) -> Seq<char> {
    match root {
        Some(rt) => rt@,
        None => dir,
    }
}

/// Repository-aware discovery.
///
/// `root` is what the repository root lookup yielded: `None` when the
/// directory is not inside a repository or the VCS tool is unavailable, in
/// which case discovery falls back to `dir` itself, unchanged. `reads` are
/// the candidate reads under the effective directory.
pub fn auto_load_for_repo(dir: &str, root: &Option<String>, reads: &Vec<FileRead>) -> (r: Result<
    Option<LoadedConfig>,
    Error,
>)
    requires
        reads@.len() == 3,
    ensures
        auto_load_matches(effective_dir(dir@, *root), reads@, r),
        root is None ==> auto_load_matches(dir@, reads@, r),
        root matches Some(rt) ==> auto_load_matches(rt@, reads@, r),
{
    match root {
        Some(rt) => auto_load(rt.as_str(), reads),
        None => auto_load(dir, reads),
    }
}

/// First match wins: when the first candidate is present and parses, its
/// parse is returned, whatever the later candidates hold.
pub proof fn lemma_discovery_first_match_wins(
    dir: Seq<char>,
    reads: Seq<FileRead>,
    r: Result<Option<LoadedConfig>, Error>,
    s: String,
)
    requires
        reads.len() == 3,
        auto_load_matches(dir, reads, r),
        reads[0] == FileRead::Content(s),
        parse_ok(s@),
    ensures
        r matches Ok(Some(lc)) && lc.config@ == parse_value(s@) && lc.path@ == join_path(
            dir,
            ".ggrc.json"@,
        ),
{
}

/// When no candidate is present, discovery yields "nothing found" rather
/// than an error.
pub proof fn lemma_discovery_none_found(
    dir: Seq<char>,
    reads: Seq<FileRead>,
    r: Result<Option<LoadedConfig>, Error>,
)
    requires
        reads.len() == 3,
        auto_load_matches(dir, reads, r),
        forall|i: int| 0 <= i < 3 ==> reads[i] is NotFound,
    ensures
        r matches Ok(None),
{
}

/// When the first candidate is present but malformed, its parse error is
/// surfaced, whatever the later candidates hold: discovery does not fall
/// through to them.
pub proof fn lemma_discovery_error_stops(
    dir: Seq<char>,
    reads: Seq<FileRead>,
    r: Result<Option<LoadedConfig>, Error>,
    s: String,
)
    requires
        reads.len() == 3,
        auto_load_matches(dir, reads, r),
        reads[0] == FileRead::Content(s),
        !parse_ok(s@),
    ensures
        r matches Err(e) && e is Json,
{
}

/// Extends an optional discovery result with "the found configuration, or an
/// empty one".
pub trait OptionalLoadedConfig {
    /// The configuration this value stands for: the found one, or the empty
    /// configuration when none was found.
    spec fn config_spec(&self) -> ConfigV;

    /// The found configuration, or the default (empty) one.
    fn get(self) -> (r: Config)
        ensures
            r@ == self.config_spec(),
    ;
}

/// The configuration that fallback resolution proceeds with: the found one;
/// the empty one when none was found; and, since resolution never hard-fails
/// because loading failed, the empty one again on a load error, which is
/// handed back so that the caller can warn about it.
pub fn config_for_resolution(loaded: Result<Option<LoadedConfig>, Error>) -> (r: (
    Config,
    Option<Error>,
))
    ensures
        loaded matches Ok(found) ==> (r.0@ == found.config_spec() && r.1 is None),
        loaded matches Err(e) ==> (r.0@ == ConfigV { gg: None, scripts: Map::empty() } && r.1
            == Some(e)),
{
    match loaded {
        Ok(found) => (found.get(), None),
        Err(e) => {
            let c = Config::default();
            proof {
                assert(c@ =~= ConfigV { gg: None, scripts: Map::empty() });
            }
            (c, Some(e))
        },
    }
}

impl OptionalLoadedConfig for Option<LoadedConfig> {
    open spec fn config_spec(&self) -> ConfigV {
        match self {
            Some(lc) => lc.config@,
            None => ConfigV { gg: None, scripts: Map::empty() },
        }
    }

    fn get(self) -> (r: Config) {
        match self {
            Some(lc) => lc.config,
            None => {
                let c = Config::default();
                proof {
                    assert(c@ =~= ConfigV { gg: None, scripts: Map::empty() });
                }
                c
            },
        }
    }
}

} // verus!
