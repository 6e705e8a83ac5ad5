//! The script executor's computation: building a shell command line from a
//! script's base command and the invocation's trailing arguments, tokenizing
//! it, and deciding everything up to the final hand-off to the child process.
//!
//! Quoting and tokenizing follow POSIX shell word rules through the `shlex`
//! crate, behind trusted contracts; launching the child happens outside this
//! crate.

use vstd::prelude::*;
use vstd::string::StringExecFns;
use crate::config::{Config, ConfigV, Error};
use crate::load::{LoadedConfig, OptionalLoadedConfig};

verus! {

/// How preparing a script run can fail.
#[derive(Debug, Clone, PartialEq)]
pub enum RunError {
    /// The invocation carried no script name at all.
    NoScript,
    /// Loading the configuration failed; the message describes the fault.
    LoadFailed { message: String },
    /// No configured script carries the requested name.
    ScriptNotFound { script: String },
    /// A trailing argument contains a nul byte, which no shell quoting can
    /// carry.
    NulArgument,
    /// The combined command line does not tokenize under shell word rules.
    BadCommand,
    /// The combined command line tokenizes to no words at all.
    EmptyCommand,
}

impl RunError {
    /// The user-facing description of the failure.
    pub open spec fn message_spec(self) -> Seq<char> {
        match self {
            RunError::NoScript => "no script specified"@,
            RunError::LoadFailed { message } => "failed to load config: "@ + message@,
            RunError::ScriptNotFound { script } => "script '"@ + script@ + "' not found"@,
            RunError::NulArgument => "argument contains a nul byte"@,
            RunError::BadCommand => "cannot parse the command line"@,
            RunError::EmptyCommand => "the command line holds no command"@,
        }
    }

    /// The user-facing description of the failure.
    pub fn message(&self) -> (r: String)
        ensures
            r@ == self.message_spec(),
    {
        match self {
            RunError::NoScript => String::from_str("no script specified"),
            RunError::LoadFailed { message } => {
                let mut s = String::from_str("failed to load config: ");
                s.append(message.as_str());
                s
            },
            RunError::ScriptNotFound { script } => {
                let mut s = String::from_str("script '");
                s.append(script.as_str());
                s.append("' not found");
                s
            },
            RunError::NulArgument => String::from_str("argument contains a nul byte"),
            RunError::BadCommand => String::from_str("cannot parse the command line"),
            RunError::EmptyCommand => String::from_str("the command line holds no command"),
        }
    }
}

/// The single string that shell-quoting each word and joining them with
/// single spaces yields.
pub uninterp spec fn joined_words(words: Seq<Seq<char>>) -> Seq<char>;

/// The words that POSIX shell word-splitting yields on a line; `None` when
/// the line is erroneous (an unclosed quote or a trailing escape).
pub uninterp spec fn split_words(line: Seq<char>) -> Option<Seq<Seq<char>>>;

/// Whether no word contains a nul byte, the one thing shell quoting cannot
/// carry.
pub open spec fn no_nul(words: Seq<Seq<char>>) -> bool {
    forall|i: int| 0 <= i < words.len() ==> !words[i].contains('\0')
}

/// Relies on `shlex::try_join`: it quotes each word so that embedded
/// whitespace and shell metacharacters stay one logical word, joins them
/// with single spaces, and fails exactly when a word contains a nul byte;
/// its result is a function of the words alone.
#[verifier::external_body]
fn shlex_try_join(words: &Vec<String>) -> (r: Option<String>)
    ensures
        r is Some <==> no_nul(words.deep_view()),
        r matches Some(s) ==> s@ == joined_words(words.deep_view()),
{
    match shlex::try_join(words.iter().map(|w| w.as_str())) {
        Ok(s) => Some(s),
        Err(_) => None,
    }
}

/// Relies on `shlex::split`: it splits a line into words under POSIX shell
/// word rules, honoring quotes and escapes, and fails exactly on an
/// erroneous line; its result is a function of the line alone.
#[verifier::external_body]
fn shlex_split(line: &str) -> (r: Option<Vec<String>>)
    ensures
        r is Some <==> split_words(line@) is Some,
        r matches Some(v) ==> split_words(line@) == Some(v.deep_view()),
{
    shlex::split(line)
}

/// The combined command line: the script's base command, one space, and the
/// quoted-and-joined trailing arguments.
pub open spec fn command_line_spec(base: Seq<char>, args: Seq<Seq<char>>) -> Seq<char> {
    base + " "@ + joined_words(args)
}

/// Build the combined command line from a script's base command and the
/// trailing arguments, each argument individually shell-quoted.
pub fn build_command_line(base: &String, args: &Vec<String>) -> (r: Result<String, RunError>)
    ensures
        r is Ok <==> no_nul(args.deep_view()),
        r matches Ok(s) ==> s@ == command_line_spec(base@, args.deep_view()),
        r matches Err(e) ==> e is NulArgument,
{
    match shlex_try_join(args) {
        None => Err(RunError::NulArgument),
        Some(joined) => {
            let mut out = base.clone();
            out.append(" ");
            out.append(joined.as_str());
            Ok(out)
        },
    }
}

/// Build and then tokenize the combined command line under shell word
/// rules.
pub fn build_command_tokens(base: &String, args: &Vec<String>) -> (r: Result<
    Vec<String>,
    RunError,
>)
    ensures
        r is Ok <==> (no_nul(args.deep_view()) && split_words(
            command_line_spec(base@, args.deep_view()),
        ) is Some),
        r matches Ok(v) ==> split_words(command_line_spec(base@, args.deep_view())) == Some(
            v.deep_view(),
        ),
        !no_nul(args.deep_view()) ==> (r matches Err(e) && e is NulArgument),
        no_nul(args.deep_view()) && split_words(command_line_spec(base@, args.deep_view()))
            is None ==> (r matches Err(e) && e is BadCommand),
{
    match build_command_line(base, args) {
        Err(e) => Err(e),
        Ok(line) => match shlex_split(line.as_str()) {
            None => Err(RunError::BadCommand),
            Some(tokens) => Ok(tokens),
        },
    }
}

/// Everything the final hand-off needs: the directory to run in, the
/// command line to display, and its tokens (the program, then its
/// arguments).
#[derive(Debug, Clone)]
pub struct RunPlan {
    pub workdir: String,
    pub command_line: String,
    pub tokens: Vec<String>,
}

/// The views of an invocation's trailing arguments, after the script name.
pub open spec fn args_tail(sa: Seq<String>) -> Seq<Seq<char>> {
    sa.skip(1).map_values(|s: String| s@)
}

/// The directory the script runs in: the repository root when its lookup
/// succeeded, the current working directory otherwise.
pub open spec fn workdir_spec(root: Option<String>, cwd: Seq<char>) -> Seq<char> {
    match root {
        Some(rt) => rt@,
        None => cwd,
    }
}

/// Decide a script run.
///
/// `script_and_args` is the invocation (`[0]` the script name, the rest its
/// trailing arguments); `loaded` is what repository-aware discovery yielded;
/// `root` is what the repository root lookup yielded, `None` standing for a
/// failed lookup; `cwd` is the current working directory; `base_command` is
/// the base command of the resolved script definition.
pub fn plan_run(
    script_and_args: &Vec<String>,
    loaded: &Result<Option<LoadedConfig>, Error>,
    root: &Option<String>,
    cwd: &String,
    base_command: &String,
) -> (r: Result<RunPlan, RunError>)
    ensures
        script_and_args@.len() == 0 ==> (r matches Err(e) && e is NoScript),
        script_and_args@.len() > 0 ==> (loaded matches Err(le) ==> (r matches Err(e) && e
            matches RunError::LoadFailed { message } && message@ == le.message_spec())),
        script_and_args@.len() > 0 ==> (loaded matches Ok(opt)
            ==> ((!opt.config_spec().scripts.contains_key(script_and_args@[0]@) ==> (r
            matches Err(e) && e matches RunError::ScriptNotFound { script } && script@
            == script_and_args@[0]@)) && (opt.config_spec().scripts.contains_key(
            script_and_args@[0]@,
        ) ==> plan_outcome(
            args_tail(script_and_args@),
            *root,
            cwd@,
            base_command@,
            r,
        )))),
{
    if script_and_args.len() == 0 {
        return Err(RunError::NoScript);
    }
    let default_config = Config::default();
    proof {
        assert(default_config@ =~= ConfigV { gg: None, scripts: Map::empty() });
    }
    let config: &Config = match loaded {
        Err(le) => {
            return Err(RunError::LoadFailed { message: le.message() });
        },
        Ok(opt) => match opt {
            Some(lc) => &lc.config,
            None => &default_config,
        },
    };
    let script = &script_and_args[0];
    if config.get_script(script).is_none() {
        return Err(RunError::ScriptNotFound { script: script.clone() });
    }
    let workdir = match root {
        Some(rt) => rt.clone(),
        None => cwd.clone(),
    };
    let mut tail: Vec<String> = Vec::new();
    let mut i: usize = 1;
    while i < script_and_args.len()
        invariant
            1 <= i <= script_and_args@.len(),
            tail@.len() == i - 1,
            forall|j: int| 0 <= j < tail@.len() ==> tail@[j]@ == script_and_args@[j + 1]@,
        decreases script_and_args@.len() - i,
    {
        tail.push(script_and_args[i].clone());
        i = i + 1;
    }
    proof {
        assert(tail.deep_view() =~= args_tail(script_and_args@));
    }
    match build_command_line(base_command, &tail) {
        Err(e) => Err(e),
        Ok(line) => match shlex_split(line.as_str()) {
            None => Err(RunError::BadCommand),
            Some(tokens) => {
                if tokens.len() == 0 {
                    Err(RunError::EmptyCommand)
                } else {
                    Ok(RunPlan { workdir, command_line: line, tokens })
                }
            },
        },
    }
}

/// What deciding a run of a found script must yield: the command line is
/// built and tokenized, and each way that can fail is reported as itself.
pub open spec fn plan_outcome(
    tail: Seq<Seq<char>>,
    root: Option<String>,
    cwd: Seq<char>,
    base: Seq<char>,
    r: Result<RunPlan, RunError>,
) -> bool {
    if !no_nul(tail) {
        r matches Err(e) && e is NulArgument
    } else {
        match split_words(command_line_spec(base, tail)) {
            None => r matches Err(e) && e is BadCommand,
            Some(words) => if words.len() == 0 {
                r matches Err(e) && e is EmptyCommand
            } else {
                r matches Ok(plan) && plan.command_line@ == command_line_spec(base, tail)
                    && plan.tokens.deep_view() == words && plan.workdir@ == workdir_spec(
                    root,
                    cwd,
                )
            },
        }
    }
}

} // verus!
