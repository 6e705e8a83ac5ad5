//! Two-phase command resolution: a first token that names a built-in
//! subcommand dispatches to it unconditionally; an unrecognized token that
//! names a configured script is re-dispatched, once, as `run <token> ...`;
//! anything else is an unknown subcommand.

use vstd::prelude::*;
use vstd::string::StringExecFns;
use crate::config::Config;

verus! {

/// Where an invocation's first token dispatches to.
#[derive(Debug, Clone, PartialEq)]
pub enum Resolution {
    /// The token names a built-in subcommand: the strict phase handles it.
    Builtin,
    /// The token names a configured script: re-parse the carried argument
    /// vector, whose second element names the built-in `run` subcommand.
    RunScript(Vec<String>),
    /// The token names neither: the invocation fails as an unknown
    /// subcommand.
    Unknown,
}

/// Whether `tok` is one of `names`.
pub open spec fn in_names(names: Seq<String>, tok: Seq<char>) -> bool {
    exists|i: int| 0 <= i < names.len() && names[i]@ == tok
}

/// The built-in subcommand names of the dispatcher's grammar.
pub fn builtin_names() -> (r: Vec<String>)
    ensures
        r@.len() == 1,
        r@[0]@ == "run"@,
        in_names(r@, "run"@),
{
    let mut v: Vec<String> = Vec::new();
    v.push(String::from_str("run"));
    proof {
        assert(v@[0]@ == "run"@);
    }
    v
}

/// Whether `tok` is one of `names`.
fn contains_name(names: &Vec<String>, tok: &String) -> (r: bool)
    ensures
        r == in_names(names@, tok@),
{
    let mut i: usize = 0;
    while i < names.len()
        invariant
            0 <= i <= names@.len(),
            forall|k: int| 0 <= k < i ==> names@[k]@ != tok@,
        decreases names@.len() - i,
    {
        if names[i] == *tok {
            proof {
                assert(names@[i as int]@ == tok@);
            }
            return true;
        }
        i = i + 1;
    }
    false
}

/// Resolve an invocation's first token.
///
/// `args` is the full argument vector (`args[0]` the program name, `args[1]`
/// the token under resolution). A token naming a built-in subcommand always
/// dispatches to it, even when a script shares the name. Otherwise a token
/// naming a configured script is re-dispatched as
/// `[program, "run", token, rest...]`; that vector's own first token names
/// the built-in `run`, so re-resolving it dispatches in the strict phase and
/// the fallback can never be taken twice. A token naming neither is unknown.
pub fn resolve_tokens(args: &Vec<String>, builtins: &Vec<String>, config: &Config) -> (r:
    Resolution)
    requires
        args@.len() >= 2,
        in_names(builtins@, "run"@),
    ensures
        in_names(builtins@, args@[1]@) ==> r is Builtin,
        !in_names(builtins@, args@[1]@) && config@.scripts.contains_key(args@[1]@) ==> (r
            matches Resolution::RunScript(v) && v@.len() == args@.len() + 1 && v@[0]@
            == args@[0]@ && v@[1]@ == "run"@ && (forall|i: int|
            2 <= i < v@.len() ==> v@[i]@ == args@[i - 1]@)),
        !in_names(builtins@, args@[1]@) && !config@.scripts.contains_key(args@[1]@) ==> r
            is Unknown,
        r matches Resolution::RunScript(v) ==> in_names(builtins@, v@[1]@),
{
    if contains_name(builtins, &args[1]) {
        return Resolution::Builtin;
    }
    match config.get_script(&args[1]) {
        None => Resolution::Unknown,
        Some(_) => {
            let mut v: Vec<String> = Vec::new();
            v.push(args[0].clone());
            v.push(String::from_str("run"));
            let mut i: usize = 1;
            while i < args.len()
                invariant
                    1 <= i <= args@.len(),
                    v@.len() == i + 1,
                    v@[0]@ == args@[0]@,
                    v@[1]@ == "run"@,
                    forall|j: int| 2 <= j < v@.len() ==> v@[j]@ == args@[j - 1]@,
                decreases args@.len() - i,
            {
                v.push(args[i].clone());
                i = i + 1;
            }
            Resolution::RunScript(v)
        },
    }
}

/// The message reported for a token that names neither a built-in subcommand
/// nor a configured script.
pub fn unknown_subcommand_message(tok: &String) -> (r: String)
    ensures
        r@ == "unknown subcommand "@ + tok@,
{
    let mut s = String::from_str("unknown subcommand ");
    s.append(tok.as_str());
    s
}

} // verus!
