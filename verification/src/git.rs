//! The repository root finder's data model, and the computation on the VCS
//! tool's output.
//!
//! Running the external VCS tool itself happens outside this crate; what is
//! computed from its output — the top-level directory, with trailing
//! whitespace trimmed — is verified here.

use vstd::prelude::*;
use vstd::string::{StringExecFns, StrSliceExecFns};

verus! {

/// A handle on the version-control tool, bound to the directory it is run
/// in.
#[derive(Debug, Clone)]
pub struct G {
    pub dir: String,
}

/// What a successful run of the VCS tool produced on its two output streams.
#[derive(PartialEq, Eq, Clone)]
pub struct SuccessOutput {
    pub stdout: Vec<u8>,
    pub stderr: Vec<u8>,
}

/// How a run of the VCS tool can fail: the executable could not be run (with
/// its "not found" sub-kind), it exited with a non-zero status, or its output
/// was not text.
#[derive(Debug, Clone)]
pub enum Error {
    Io { not_found: bool, message: String },
    Exit { stdout: Vec<u8>, stderr: Vec<u8> },
    Utf8 { message: String },
}

impl G {
    /// A handle bound to `dir`.
    pub fn new(dir: &str) -> (g: G)
        ensures
            g.dir@ == dir@,
    {
        G { dir: String::from_str(dir) }
    }
}

/// Whether the character counts as trailing whitespace of the VCS tool's
/// output.
pub open spec fn is_trim_ws(c: char) -> bool {
    c == ' ' || c == '\t' || c == '\n' || c == '\r'
}

/// The length of `s` once its trailing whitespace is dropped.
pub open spec fn trimmed_len(s: Seq<char>) -> int
    decreases s.len(),
{
    if s.len() == 0 {
        0
    } else if is_trim_ws(s.last()) {
        trimmed_len(s.drop_last())
    } else {
        s.len() as int
    }
}

/// When everything from `k` on is whitespace and what stands just before `k`
/// is not, the trimmed length is exactly `k`.
proof fn lemma_trimmed_len_at(s: Seq<char>, k: int)
    requires
        0 <= k <= s.len(),
        forall|j: int| k <= j < s.len() ==> is_trim_ws(s[j]),
        k > 0 ==> !is_trim_ws(s[k - 1]),
    ensures
        trimmed_len(s) == k,
    decreases s.len(),
{
    if s.len() > k {
        assert(s.last() == s[s.len() - 1]);
        lemma_trimmed_len_at(s.drop_last(), k);
    } else if k > 0 {
        assert(s.last() == s[k - 1]);
    }
}

/// The repository root that the VCS tool's standard output stands for: the
/// output with its trailing whitespace trimmed, read as a path.
pub fn root_from_stdout(out: &str) -> (r: String)
    ensures
        r@ == out@.subrange(0, trimmed_len(out@)),
{
    let mut k = out.unicode_len();
    loop
        invariant
            k <= out@.len(),
            forall|j: int| k <= j < out@.len() ==> is_trim_ws(out@[j]),
        ensures
            k <= out@.len(),
            forall|j: int| k <= j < out@.len() ==> is_trim_ws(out@[j]),
            k > 0 ==> !is_trim_ws(out@[k - 1]),
        decreases k,
    {
        if k == 0 {
            break ;
        }
        let c = out.get_char(k - 1);
        if c == ' ' || c == '\t' || c == '\n' || c == '\r' {
            k = k - 1;
        } else {
            break ;
        }
    }
    proof {
        lemma_trimmed_len_at(out@, k as int);
    }
    let sub = out.substring_char(0, k);
    String::from_str(sub)
}

} // verus!
