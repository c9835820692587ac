//! What the embedded Lua runtime computes on plain values: the assertion
//! type that `ok` was called with, the search paths that let a script
//! require its neighbours, the code that runs a script file, and the
//! arguments of `sh`.
use vstd::prelude::*;

use crate::error::{FrorkError, FrorkFailure};
use crate::text::{owned, views};
use crate::utils::{parent_of, path_parent};

verus! {

/// The assertion type that `ok` names. `first` is `None` when `ok` got no
/// argument at all, `Some(None)` when its first argument has no string form.
pub open spec fn assertion_type_spec(first: Option<Option<Seq<char>>>) -> Result<
    Seq<char>,
    FrorkFailure,
> {
    match first {
        None => Err(FrorkFailure::NoOperation),
        Some(None) => Err(FrorkFailure::MissingAssertionType),
        Some(Some(t)) => Ok(t),
    }
}

/// The assertion type that `ok` names: an error when it got no argument, or
/// when its first argument has no string form.
pub fn assertion_type_of(first: Option<Option<String>>) -> (r: Result<String, FrorkError>)
    ensures
        match r {
            Ok(t) => assertion_type_spec(
                match first {
                    None => None,
                    Some(o) => Some(crate::status::opt_view(o)),
                },
            ) == Ok::<Seq<char>, FrorkFailure>(t@),
            Err(e) => assertion_type_spec(
                match first {
                    None => None,
                    Some(o) => Some(crate::status::opt_view(o)),
                },
            ) == Err::<Seq<char>, FrorkFailure>(e@),
        },
{
    match first {
        None => Err(FrorkError::NoOperation),
        Some(None) => Err(FrorkError::MissingAssertionType),
        Some(Some(t)) => Ok(t),
    }
}

/// The Lua search path with the script directory `dir` added after `current`.
pub open spec fn lua_path_spec(current: Seq<char>, dir: Seq<char>) -> Seq<char> {
    current + ";"@ + dir + "/?.lua;"@ + dir + "/?/init.lua"@
}

/// The Fennel search path used when Fennel has none.
pub open spec fn default_fennel_path() -> Seq<char> {
    "./?.fnl;./?/init.fnl"@
}

/// The Fennel search path with the script directory `dir` added after
/// `current`, or after the default path when Fennel has none.
pub open spec fn fennel_path_spec(current: Option<Seq<char>>, dir: Seq<char>) -> Seq<char> {
    let base = match current {
        Some(c) => c,
        None => default_fennel_path(),
    };
    base + ";"@ + dir + "/?.fnl;"@ + dir + "/?/init.fnl"@
}

/// The Lua search path with the script directory added.
pub fn lua_search_path(current: &str, dir: &str) -> (r: String)
    ensures
        r@ == lua_path_spec(current@, dir@),
{
    owned(current).concat(";").concat(dir).concat("/?.lua;").concat(dir).concat("/?/init.lua")
}

/// The Fennel search path with the script directory added.
pub fn fennel_search_path(current: Option<&str>, dir: &str) -> (r: String)
    ensures
        r@ == fennel_path_spec(
            match current {
                Some(c) => Some(c@),
                None => None,
            },
            dir@,
        ),
{
    let base = match current {
        Some(c) => owned(c),
        None => owned("./?.fnl;./?/init.fnl"),
    };
    base.concat(";").concat(dir).concat("/?.fnl;").concat(dir).concat("/?/init.fnl")
}

/// The directory of a script, whose modules it may require; `None` for a
/// path without a parent.
pub fn script_dir(script: &str) -> (r: Option<String>)
    ensures
        match r {
            Some(d) => path_parent(script@) == Some(d@),
            None => path_parent(script@) is None,
        },
{
    parent_of(script)
}

/// The Lua code that runs the Fennel script at `script`.
pub open spec fn dofile_spec(script: Seq<char>) -> Seq<char> {
    "require(\"fennel\").install().dofile(\""@ + script + "\")"@
}

/// The Lua code that runs the Fennel script at `script`.
pub fn dofile_code(script: &str) -> (r: String)
    ensures
        r@ == dofile_spec(script@),
{
    owned("require(\"fennel\").install().dofile(\"").concat(script).concat("\")")
}

/// The message for `sh` called without a command.
pub open spec fn sh_without_command() -> Seq<char> {
    "sh requires at least a command"@
}

/// Splits the arguments of `sh` into the command and its arguments; an
/// invalid-arguments error when there is no command.
pub fn split_command(args: Vec<String>) -> (r: Result<(String, Vec<String>), FrorkError>)
    ensures
        args@.len() == 0 ==> (r matches Err(e) && e@ == FrorkFailure::InvalidArguments(
            sh_without_command(),
        )),
        args@.len() > 0 ==> (r matches Ok((cmd, rest)) && cmd@ == args@[0]@ && views(rest@) == views(
            args@,
        ).drop_first()),
{
    if args.len() == 0 {
        return Err(FrorkError::InvalidArguments(owned("sh requires at least a command")));
    }
    let mut rest: Vec<String> = Vec::new();
    let mut i: usize = 1;
    while i < args.len()
        invariant
            1 <= i <= args@.len(),
            views(rest@) == views(args@).subrange(1, i as int),
        decreases args@.len() - i,
    {
        let ghost before = rest@;
        rest.push(args[i].clone());
        assert(views(rest@) =~= views(before).push(args@[i as int]@));
        assert(views(args@).subrange(1, i + 1) =~= views(args@).subrange(1, i as int).push(
            args@[i as int]@,
        ));
        i = i + 1;
    }
    assert(views(args@).subrange(1, args@.len() as int) =~= views(args@).drop_first());
    let cmd = args[0].clone();
    Ok((cmd, rest))
}

/// What `sh` hands back to Lua: the output and exit code of a command that
/// ran, or no output and `-1` for one that could not be run.
pub fn sh_reply(ran: Option<(String, i32)>) -> (r: (Option<String>, i32))
    ensures
        match ran {
            Some((out, code)) => r.0 == Some(out) && r.1 == code,
            None => r.0 is None && r.1 == -1,
        },
{
    match ran {
        Some((out, code)) => (Some(out), code),
        None => (None, -1),
    }
}

} // verus!
