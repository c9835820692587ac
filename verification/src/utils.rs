//! Path expansion (`~` and `$VAR`), line chomping and the other helpers that
//! assertion types and Fennel scripts share.
use vstd::prelude::*;

use crate::bindings::Environment;
use crate::text::{join, join_strings, lowered, stripped_trailing, to_lowercase, views};

verus! {

// ---------------------------------------------------------------------------
// The grammar of variable references: `$` followed by a name made of ASCII
// letters, digits and underscores that does not start with a digit.
// ---------------------------------------------------------------------------

pub open spec fn is_name_start(c: char) -> bool {
    let u = c as u32;
    (0x41 <= u <= 0x5a) || (0x61 <= u <= 0x7a) || u == 0x5f
}

pub open spec fn is_name_char(c: char) -> bool {
    is_name_start(c) || (0x30 <= (c as u32) <= 0x39)
}

/// How many name characters follow position `j` of `s` without a break.
pub open spec fn name_run(s: Seq<char>, j: int) -> nat
    decreases s.len() - j,
{
    if 0 <= j < s.len() && is_name_char(s[j]) {
        1 + name_run(s, j + 1)
    } else {
        0
    }
}

pub proof fn lemma_name_run_bound(s: Seq<char>, j: int)
    requires
        0 <= j <= s.len(),
    ensures
        j + name_run(s, j) <= s.len(),
    decreases s.len() - j,
{
    if j < s.len() && is_name_char(s[j]) {
        lemma_name_run_bound(s, j + 1);
    }
}

/// Whether a variable reference starts at position `i` of `s`.
pub open spec fn reference_at(s: Seq<char>, i: int) -> bool {
    0 <= i && i + 1 < s.len() && s[i] == '$' && is_name_start(s[i + 1])
}

/// Where the reference that starts at `i` ends.
pub open spec fn reference_end(s: Seq<char>, i: int) -> int {
    i + 1 + name_run(s, i + 1)
}

/// The text from position `i` on with every variable reference replaced by
/// the variable's value, and the names of the variables that are not set, in
/// order. A reference to a variable that is not set stays as it was.
pub open spec fn substitute_from(s: Seq<char>, i: int, env: Environment) -> (
    Seq<char>,
    Seq<Seq<char>>,
)
    decreases s.len() - i,
{
    if i < 0 || i >= s.len() {
        (seq![], seq![])
    } else if reference_at(s, i) {
        let end = reference_end(s, i);
        proof {
            lemma_name_run_bound(s, i + 1);
        }
        let name = s.subrange(i + 1, end);
        let rest = substitute_from(s, end, env);
        match env.var(name) {
            Some(value) => (value + rest.0, rest.1),
            None => (s.subrange(i, end) + rest.0, seq![name] + rest.1),
        }
    } else {
        let rest = substitute_from(s, i + 1, env);
        (seq![s[i]] + rest.0, rest.1)
    }
}

/// `s` with its variable references replaced.
pub open spec fn substituted(s: Seq<char>, env: Environment) -> Seq<char> {
    substitute_from(s, 0, env).0
}

/// The names of the variables that `s` refers to and `env` does not set.
pub open spec fn unset_names(s: Seq<char>, env: Environment) -> Seq<Seq<char>> {
    substitute_from(s, 0, env).1
}

/// Whether `s` starts with a tilde.
pub open spec fn starts_with_tilde(s: Seq<char>) -> bool {
    s.len() > 0 && s[0] == '~'
}

/// `s` with its leading tilde replaced by `home`.
pub open spec fn tilde_replaced(s: Seq<char>, home: Seq<char>) -> Seq<char> {
    home + s.drop_first()
}

/// Why a path could not be expanded.
#[derive(Debug)]
pub enum ExpandError {
    /// The path starts with `~` and `HOME` is not set.
    HomeNotSet,
    /// The path refers to variables that are not set; their names, in order.
    VarsNotFound(Vec<String>),
}

/// The mathematical form of an [`ExpandError`].
pub enum ExpandFailure {
    HomeNotSet,
    VarsNotFound(Seq<Seq<char>>),
}

impl View for ExpandError {
    type V = ExpandFailure;

    open spec fn view(&self) -> ExpandFailure {
        match self {
            ExpandError::HomeNotSet => ExpandFailure::HomeNotSet,
            ExpandError::VarsNotFound(names) => ExpandFailure::VarsNotFound(views(names@)),
        }
    }
}

/// The message an [`ExpandFailure`] is reported with.
pub open spec fn expand_failure_message(f: ExpandFailure) -> Seq<char> {
    match f {
        ExpandFailure::HomeNotSet => "HOME environment variable not set"@,
        ExpandFailure::VarsNotFound(names) => "Environment variables not found: "@ + join(
            names,
            ", "@,
        ),
    }
}

impl ExpandError {
    /// The message this error is reported with.
    pub fn message(&self) -> (r: String)
        ensures
            r@ == expand_failure_message(self@),
    {
        match self {
            ExpandError::HomeNotSet => String::from_str("HOME environment variable not set"),
            ExpandError::VarsNotFound(names) => {
                let joined = join_strings(names, ", ");
                String::from_str("Environment variables not found: ").concat(joined.as_str())
            },
        }
    }
}

/// What expanding `path` in `env` gives: the leading `~` is replaced by
/// `HOME` (an error if `HOME` is not set), then every `$NAME` reference by the
/// variable's value (an error naming each variable that is not set).
pub open spec fn expansion(path: Seq<char>, env: Environment) -> Result<Seq<char>, ExpandFailure> {
    if starts_with_tilde(path) && env.var("HOME"@) is None {
        Err(ExpandFailure::HomeNotSet)
    } else {
        let with_home = if starts_with_tilde(path) {
            tilde_replaced(path, env.var("HOME"@)->0)
        } else {
            path
        };
        if unset_names(with_home, env).len() > 0 {
            Err(ExpandFailure::VarsNotFound(unset_names(with_home, env)))
        } else {
            Ok(substituted(with_home, env))
        }
    }
}

/// What expanding `path` in `env` gives where nothing that is missing is an
/// error: a leading `~` stays when `HOME` is not set, and a reference to a
/// variable that is not set stays as it was written.
pub open spec fn lenient_expansion(path: Seq<char>, env: Environment) -> Seq<char> {
    let with_home = if starts_with_tilde(path) && env.var("HOME"@) is Some {
        tilde_replaced(path, env.var("HOME"@)->0)
    } else {
        path
    };
    substituted(with_home, env)
}

/// The pattern of a variable reference, in the syntax of the `regex` crate:
/// `$`, then a name made of ASCII letters, digits and underscores that does
/// not start with a digit, captured as the first group.
pub const REFERENCE_PATTERN: &'static str = "\\$([A-Za-z_][A-Za-z0-9_]*)";

/// What the reference `whole` to the variable `name` is replaced with: the
/// variable's value when it is set; else the reference itself, and `name` is
/// added to `missing`.
pub fn resolve_reference(
    whole: &str,
    name: &str,
    env: &Environment,
    missing: &mut Vec<String>,
) -> (r: String)
    ensures
        match env.var(name@) {
            Some(value) => r@ == value && final(missing)@ == old(missing)@,
            None => r@ == whole@ && views(final(missing)@) == views(old(missing)@).push(name@),
        },
{
    match env.get(name) {
        Some(value) => value.clone(),
        None => {
            let ghost before = old(missing)@;
            missing.push(String::from_str(name));
            assert(views(missing@) =~= views(before).push(name@));
            String::from_str(whole)
        },
    }
}

/// Compiles `pattern` with `regex::Regex::new` and replaces every match in
/// `text` with `Regex::replace_all`, handing each match and its first group
/// to [`resolve_reference`]. Claimed: `Regex::new` accepts the reference
/// pattern; `replace_all` visits the non-overlapping matches from left to
/// right, each the leftmost match that starts after the previous one, and a
/// match of this pattern is a `$` followed by the longest run of name
/// characters (the star is greedy), so the text comes back with every
/// reference replaced and the unset names collected in order, as
/// [`substitute_from`] describes.
#[verifier::external_body]
fn replace_references(pattern: &str, text: &str, env: &Environment) -> (r: (String, Vec<String>))
    requires
        pattern@ == REFERENCE_PATTERN@,
    ensures
        r.0@ == substituted(text@, *env),
        views(r.1@) == unset_names(text@, *env),
{
    let mut missing = Vec::new();
    let expanded = regex::Regex::new(pattern).unwrap().replace_all(
        text,
        |caps: &regex::Captures| resolve_reference(&caps[0], &caps[1], env, &mut missing),
    ).into_owned();
    (expanded, missing)
}

/// Replaces every variable reference of `s` by the variable's value and
/// collects the names of the variables that are not set.
pub fn substitute(s: &str, env: &Environment) -> (r: (String, Vec<String>))
    ensures
        r.0@ == substituted(s@, *env),
        views(r.1@) == unset_names(s@, *env),
{
    replace_references(REFERENCE_PATTERN, s, env)
}

/// `path` with a leading `~` replaced by `home`; other paths are copied.
fn replace_tilde(path: &str, home: Option<&String>) -> (r: String)
    ensures
        r@ == if starts_with_tilde(path@) && home is Some {
            tilde_replaced(path@, home->0@)
        } else {
            path@
        },
{
    let n = path.unicode_len();
    if n > 0 && path.get_char(0) == '~' {
        if let Some(h) = home {
            let r = h.clone().concat(path.substring_char(1, n));
            assert(path@.subrange(1, n as int) =~= path@.drop_first());
            return r;
        }
    }
    String::from_str(path)
}

/// A path after `~` and `$NAME` expansion.
#[derive(Debug)]
pub struct ExpandedPath {
    path: String,
}

impl View for ExpandedPath {
    type V = Seq<char>;

    closed spec fn view(&self) -> Seq<char> {
        self.path@
    }
}

impl ExpandedPath {
    /// Expands `path` in `env`; fails as [`Utils::expand_path`] does.
    pub fn new(path: &str, env: &Environment) -> (r: Result<ExpandedPath, ExpandError>)
        ensures
            match r {
                Ok(p) => expansion(path@, *env) == Ok::<Seq<char>, ExpandFailure>(p@),
                Err(e) => expansion(path@, *env) == Err::<Seq<char>, ExpandFailure>(e@),
            },
    {
        match Utils::expand_path(path, env) {
            Ok(p) => Ok(ExpandedPath { path: p }),
            Err(e) => Err(e),
        }
    }

    /// Expands `path` in `env` as the lenient flavour does, never failing:
    /// whatever is not set stays as written.
    pub fn lenient(path: &str, env: &Environment) -> (r: ExpandedPath)
        ensures
            r@ == lenient_expansion(path@, *env),
    {
        ExpandedPath { path: crate::lenient::Utils::expand_path(path, env) }
    }

    /// The expanded path.
    pub fn as_str(&self) -> (r: &str)
        ensures
            r@ == self@,
    {
        self.path.as_str()
    }

    /// The expanded path, as an owned string.
    pub fn into_string(self) -> (r: String)
        ensures
            r@ == self@,
    {
        self.path
    }
}

proof fn lemma_no_reference_from(s: Seq<char>, i: int, env: Environment)
    requires
        0 <= i <= s.len(),
        forall|k: int| 0 <= k < s.len() ==> s[k] != '$',
    ensures
        substitute_from(s, i, env) == (s.subrange(i, s.len() as int), Seq::<Seq<char>>::empty()),
    decreases s.len() - i,
{
    if i < s.len() {
        lemma_no_reference_from(s, i + 1, env);
        assert(s.subrange(i, s.len() as int) =~= seq![s[i]] + s.subrange(i + 1, s.len() as int));
    } else {
        assert(s.subrange(i, s.len() as int) =~= Seq::<char>::empty());
    }
}

proof fn lemma_unset_names_from(s: Seq<char>, i: int, env: Environment)
    ensures
        forall|k: int|
            0 <= k < substitute_from(s, i, env).1.len() ==> (#[trigger] env.var(
                substitute_from(s, i, env).1[k],
            )) is None,
    decreases s.len() - i,
{
    if 0 <= i < s.len() {
        if reference_at(s, i) {
            lemma_name_run_bound(s, i + 1);
            lemma_unset_names_from(s, reference_end(s, i), env);
            let name = s.subrange(i + 1, reference_end(s, i));
            let rest = substitute_from(s, reference_end(s, i), env);
            if env.var(name) is None {
                assert forall|k: int|
                    0 <= k < substitute_from(s, i, env).1.len() implies (#[trigger] env.var(
                    substitute_from(s, i, env).1[k],
                )) is None by {
                    if k > 0 {
                        assert(substitute_from(s, i, env).1[k] == rest.1[k - 1]);
                    }
                }
            }
        } else {
            lemma_unset_names_from(s, i + 1, env);
        }
    }
}

/// A path with no leading `~` and no `$` expands to itself, both strictly and
/// leniently.
pub proof fn law_plain_path_is_unchanged(path: Seq<char>, env: Environment)
    requires
        !starts_with_tilde(path),
        forall|k: int| 0 <= k < path.len() ==> path[k] != '$',
    ensures
        expansion(path, env) == Ok::<Seq<char>, ExpandFailure>(path),
        lenient_expansion(path, env) == path,
{
    lemma_no_reference_from(path, 0, env);
    assert(path.subrange(0, path.len() as int) =~= path);
}

/// Wherever strict expansion succeeds, lenient expansion gives the same path.
pub proof fn law_lenient_agrees_with_strict(path: Seq<char>, env: Environment)
    requires
        expansion(path, env) is Ok,
    ensures
        lenient_expansion(path, env) == expansion(path, env)->Ok_0,
{
}

/// Strict expansion fails on an unset variable exactly when lenient expansion
/// would leave a reference behind: every variable it names is unset.
pub proof fn law_named_variables_are_unset(path: Seq<char>, env: Environment)
    requires
        expansion(path, env) matches Err(ExpandFailure::VarsNotFound(names)),
    ensures
        expansion(path, env) matches Err(ExpandFailure::VarsNotFound(names)) && names.len() > 0
            && forall|k: int| 0 <= k < names.len() ==> (#[trigger] env.var(names[k])) is None,
{
    let with_home = if starts_with_tilde(path) {
        tilde_replaced(path, env.var("HOME"@)->0)
    } else {
        path
    };
    lemma_unset_names_from(with_home, 0, env);
}

/// The parent directory of `path` as `std::path::Path::parent` computes it,
/// by components; `None` for a root or an empty path.
pub uninterp spec fn path_parent(path: Seq<char>) -> Option<Seq<char>>;

/// Calls `Path::parent`, then `Path::to_str` on the parent. Claimed: the
/// result is `path_parent` of the argument, a function of the text alone. The
/// parent of a `str` path is a slice of it, so `to_str` always succeeds.
#[verifier::external_body]
pub(crate) fn parent_of(path: &str) -> (r: Option<String>)
    ensures
        match r {
            Some(p) => path_parent(path@) == Some(p@),
            None => path_parent(path@) is None,
        },
{
    std::path::Path::new(path).parent().and_then(|p| p.to_str()).map(|p| p.to_string())
}

/// `s` without trailing line feeds, then without trailing carriage returns.
pub open spec fn chomped(s: Seq<char>) -> Seq<char> {
    stripped_trailing(stripped_trailing(s, '\n'), '\r')
}

/// The message for a binary that `which` cannot find.
pub open spec fn bin_not_found_message(bin: Seq<char>) -> Seq<char> {
    "Required binary '"@ + bin + "' not found in PATH"@
}

/// The platform name that `uname -s` printed as `output`.
pub open spec fn platform_from(output: Seq<char>) -> Seq<char> {
    lowered(chomped(output))
}

/// Helpers exposed to Fennel scripts as `frork.utils`.
pub struct Utils;

impl Utils {
    /// `s` without trailing line feeds, then without trailing carriage returns.
    pub fn chomp(s: &str) -> (r: String)
        ensures
            r@ == chomped(s@),
    {
        let t = crate::text::strip_trailing(s, '\n');
        let t = crate::text::strip_trailing(t, '\r');
        String::from_str(t)
    }

    /// Expands `~` and `$NAME` references of `path` in `env`.
    pub fn expand_path(path: &str, env: &Environment) -> (r: Result<String, ExpandError>)
        ensures
            match r {
                Ok(p) => expansion(path@, *env) == Ok::<Seq<char>, ExpandFailure>(p@),
                Err(e) => expansion(path@, *env) == Err::<Seq<char>, ExpandFailure>(e@),
            },
    {
        let n = path.unicode_len();
        let home = env.get("HOME");
        if n > 0 && path.get_char(0) == '~' && home.is_none() {
            return Err(ExpandError::HomeNotSet);
        }
        let with_home = replace_tilde(path, home);
        let (expanded, missing) = substitute(with_home.as_str(), env);
        if missing.len() > 0 {
            Err(ExpandError::VarsNotFound(missing))
        } else {
            Ok(expanded)
        }
    }

    /// The parent directory of `path` after expansion.
    pub fn dirname(path: &str, env: &Environment) -> (r: Result<Option<String>, ExpandError>)
        ensures
            match r {
                Ok(parent) => match expansion(path@, *env) {
                    Ok(p) => match parent {
                        Some(d) => path_parent(p) == Some(d@),
                        None => path_parent(p) is None,
                    },
                    Err(_) => false,
                },
                Err(e) => expansion(path@, *env) == Err::<Seq<char>, ExpandFailure>(e@),
            },
    {
        let expanded = Utils::expand_path(path, env)?;
        Ok(parent_of(expanded.as_str()))
    }

    /// The platform name from the output of `uname -s`: chomped and lower-cased.
    pub fn platform(uname_output: &str) -> (r: String)
        ensures
            r@ == platform_from(uname_output@),
    {
        let chomped = Utils::chomp(uname_output);
        to_lowercase(chomped.as_str())
    }

    /// Whether the binary `bin_name` counts as found, given the exit code of
    /// `which bin_name`: found exactly when the exit code is 0.
    pub fn assert_bin(bin_name: &str, which_exit_code: i32) -> (r: Result<(), String>)
        ensures
            which_exit_code == 0 ==> r is Ok,
            which_exit_code != 0 ==> (r matches Err(m) && m@ == bin_not_found_message(bin_name@)),
    {
        if which_exit_code == 0 {
            Ok(())
        } else {
            Err(String::from_str("Required binary '").concat(bin_name).concat("' not found in PATH"))
        }
    }
}

} // verus!
