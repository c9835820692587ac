//! The lenient flavour of frork: path helpers that never fail (whatever
//! cannot be expanded stays as written), a smaller set of built-in assertion
//! types, and a `satisfy` that does not handle conflicts yet.
use vstd::prelude::*;

pub use crate::error::FrorkError;

use crate::bindings::Environment;
use crate::error::FrorkFailure;
use crate::registry::{BuiltIn, Factory, FactoryView, Registry};
use crate::report::{
    cli_answer_views, render, rendered, CliAnswer, CliAnswerView, CliRequest, CliRequestView,
    CliStep, CliStepView,
};
use crate::status::{Status, StatusView};
use crate::text::{owned, str_eq, views};
use crate::utils::{chomped, lenient_expansion, parent_of, path_parent, substitute};

verus! {

/// Lenient path and text helpers.
pub struct Utils;

impl Utils {
    /// `s` without trailing line feeds, then without trailing carriage returns.
    pub fn chomp(s: &str) -> (r: String)
        ensures
            r@ == chomped(s@),
    {
        crate::utils::Utils::chomp(s)
    }

    /// Expands `path` in `env` without failing: a leading `~` is replaced by
    /// `HOME` when it is set, and each `$NAME` by the variable's value when
    /// it is set; whatever is not set stays as written.
    pub fn expand_path(path: &str, env: &Environment) -> (r: String)
        ensures
            r@ == lenient_expansion(path@, *env),
    {
        let n = path.unicode_len();
        let home = env.get("HOME");
        let with_home = if n > 0 && path.get_char(0) == '~' && home.is_some() {
            let h = home.unwrap();
            assert(path@.subrange(1, n as int) =~= path@.drop_first());
            h.clone().concat(path.substring_char(1, n))
        } else {
            owned(path)
        };
        let (expanded, _missing) = substitute(with_home.as_str(), env);
        expanded
    }

    /// The parent directory of `path` after lenient expansion.
    pub fn dirname(path: &str, env: &Environment) -> (r: Option<String>)
        ensures
            match r {
                Some(d) => path_parent(lenient_expansion(path@, *env)) == Some(d@),
                None => path_parent(lenient_expansion(path@, *env)) is None,
            },
    {
        let expanded = Utils::expand_path(path, env);
        parent_of(expanded.as_str())
    }
}

/// The built-in type of the lenient flavour called `name`, if any.
pub open spec fn lenient_built_in_named(name: Seq<char>) -> Option<BuiltIn> {
    if name == "debug"@ {
        Some(BuiltIn::Debug)
    } else if name == "directory"@ {
        Some(BuiltIn::Directory)
    } else if name == "symlink"@ {
        Some(BuiltIn::Symlink)
    } else {
        None
    }
}

/// What the lenient flavour resolves `name` to: a registered type, else one of
/// its built-in types, else an unknown-type error.
pub open spec fn lenient_resolve<T>(registry: Registry<T>, name: Seq<char>) -> Result<
    FactoryView<T>,
    FrorkFailure,
> {
    match registry.registered(name) {
        Some(t) => Ok(FactoryView::Registered { assertion_type: name, lua_assertion_type: t }),
        None => match lenient_built_in_named(name) {
            Some(b) => Ok(FactoryView::BuiltIn(b)),
            None => Err(FrorkFailure::UnknownAssertionType { assertion_type: name }),
        },
    }
}

/// What builds an assertion of the type `assertion_type` in the lenient flavour.
pub fn create<'a, T>(registry: &'a Registry<T>, assertion_type: &str) -> (r: Result<
    Factory<'a, T>,
    FrorkError,
>)
    ensures
        match r {
            Ok(f) => lenient_resolve(*registry, assertion_type@) == Ok::<
                FactoryView<T>,
                FrorkFailure,
            >(f.view()),
            Err(e) => lenient_resolve(*registry, assertion_type@) == Err::<
                FactoryView<T>,
                FrorkFailure,
            >(e@),
        },
{
    match registry.get_factory(assertion_type) {
        Ok(Factory::Registered { assertion_type: name, lua_assertion_type }) => {
            Ok(Factory::Registered { assertion_type: name, lua_assertion_type })
        },
        _ => {
            if str_eq(assertion_type, "debug") {
                Ok(Factory::BuiltIn(BuiltIn::Debug))
            } else if str_eq(assertion_type, "directory") {
                Ok(Factory::BuiltIn(BuiltIn::Directory))
            } else if str_eq(assertion_type, "symlink") {
                Ok(Factory::BuiltIn(BuiltIn::Symlink))
            } else {
                Err(FrorkError::UnknownAssertionType { assertion_type: owned(assertion_type) })
            }
        },
    }
}

/// The message of the lenient `satisfy` for a conflict.
pub open spec fn conflict_not_handled(expected: Seq<char>, actual: Seq<char>) -> Seq<char> {
    "Handle conflict upgrade status in satisfy: expected: "@ + expected + ", actual: "@ + actual
}

/// The order of work in the lenient `satisfy`: print the status; for a
/// missing assertion install it and print it as ok. A conflict is not
/// handled yet.
pub open spec fn lenient_satisfy_plan(
    s: StatusView,
    shown: Seq<char>,
    a: Seq<CliAnswerView>,
) -> CliStepView {
    match s {
        StatusView::ConflictUpgrade(c) => CliStepView::Unimplemented(
            conflict_not_handled(c.expected, c.actual),
        ),
        _ => if a.len() == 0 {
            CliStepView::Do(CliRequestView::Print(rendered(s, shown)))
        } else if s is Okay {
            CliStepView::Finished
        } else if a.len() == 1 {
            CliStepView::Do(CliRequestView::Install)
        } else if a.len() == 2 {
            CliStepView::Do(CliRequestView::Print(seq!["ok: "@ + shown]))
        } else {
            CliStepView::Finished
        },
    }
}

/// The next thing the lenient `satisfy` does.
pub fn satisfy_step(status: &Status, assertion: &str, answers: &Vec<CliAnswer>) -> (r: CliStep)
    ensures
        r@ == lenient_satisfy_plan(status@, assertion@, cli_answer_views(answers@)),
{
    if let Status::ConflictUpgrade(c) = status {
        return CliStep::Unimplemented(
            owned("Handle conflict upgrade status in satisfy: expected: ").concat(
                c.expected.as_str(),
            ).concat(", actual: ").concat(c.actual.as_str()),
        );
    }
    let n = answers.len();
    if n == 0 {
        CliStep::Do(CliRequest::Print(render(status, assertion)))
    } else if let Status::Okay = status {
        CliStep::Finished
    } else if n == 1 {
        CliStep::Do(CliRequest::Install)
    } else if n == 2 {
        let r = vec![owned("ok: ").concat(assertion)];
        assert(views(r@) =~= seq!["ok: "@ + assertion@]);
        CliStep::Do(CliRequest::Print(r))
    } else {
        CliStep::Finished
    }
}

/// With nothing registered under them, the lenient flavour resolves
/// `debug`, `directory` and `symlink` to their built-in types; a registered
/// type always wins; any other unregistered name is unknown, `git`, `brew`
/// and `brew-bundle` included.
pub proof fn law_lenient_built_ins<T>(registry: Registry<T>, name: Seq<char>)
    ensures
        registry.registered("debug"@) is None ==> lenient_resolve(registry, "debug"@) == Ok::<
            FactoryView<T>,
            FrorkFailure,
        >(FactoryView::BuiltIn(BuiltIn::Debug)),
        registry.registered("directory"@) is None ==> lenient_resolve(registry, "directory"@)
            == Ok::<FactoryView<T>, FrorkFailure>(FactoryView::BuiltIn(BuiltIn::Directory)),
        registry.registered("symlink"@) is None ==> lenient_resolve(registry, "symlink"@) == Ok::<
            FactoryView<T>,
            FrorkFailure,
        >(FactoryView::BuiltIn(BuiltIn::Symlink)),
        registry.registered(name) matches Some(t) ==> lenient_resolve(registry, name) == Ok::<
            FactoryView<T>,
            FrorkFailure,
        >(FactoryView::Registered { assertion_type: name, lua_assertion_type: t }),
        registry.registered(name) is None && name != "debug"@ && name != "directory"@ && name
            != "symlink"@ ==> lenient_resolve(registry, name) == Err::<FactoryView<T>, FrorkFailure>(
            FrorkFailure::UnknownAssertionType { assertion_type: name },
        ),
{
    reveal_strlit("debug");
    reveal_strlit("directory");
    reveal_strlit("symlink");
    assert("directory"@.len() != "debug"@.len());
    assert("symlink"@.len() != "debug"@.len());
    assert("symlink"@.len() != "directory"@.len());
}

} // verus!
