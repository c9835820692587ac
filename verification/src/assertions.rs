//! The built-in assertion types and the assertion types registered from
//! Fennel, each with the exchange that finds its status, installs it or
//! upgrades it.
use vstd::prelude::*;

use crate::bindings::Environment;
use crate::error::{from_lua_spec, FrorkError};
use crate::protocol::{
    answer_views, ask, done, failed, found, pair_views, to_strings, unexpected, Answer, AnswerView,
    Failure, FailureView, LuaFn, Request, RequestView, Step, StepView,
};
use crate::status::{Conflict, ConflictView, Status, StatusView};
use crate::text::{join, join_strings, owned, views};
use crate::utils::{
    bin_not_found_message, chomped, expansion, ExpandError, ExpandFailure, ExpandedPath, Utils,
};

verus! {

/// Whether two paths are equal as `std::path::Path` compares them, component
/// by component.
pub uninterp spec fn same_path(a: Seq<char>, b: Seq<char>) -> bool;

/// Whether the path `a` is the path `b`: equal texts always are, since
/// `Path`'s `==` is an equivalence; other texts are as [`same_path`] says.
pub open spec fn paths_match(a: Seq<char>, b: Seq<char>) -> bool {
    a == b || same_path(a, b)
}

/// Compares two paths with `Path`'s `==`. Claimed: the result is `same_path`
/// of the two texts, a function of the texts alone, and it is `true` for two
/// equal texts (`Path` implements `Eq`, so its `==` is reflexive).
#[verifier::external_body]
pub(crate) fn paths_equal(a: &str, b: &str) -> (r: bool)
    ensures
        r == same_path(a@, b@),
        a@ == b@ ==> r,
{
    std::path::Path::new(a) == std::path::Path::new(b)
}

pub open spec fn found_at(a: Seq<AnswerView>, k: int) -> Option<bool> {
    match a[k] {
        AnswerView::Found(b) => Some(b),
        _ => None,
    }
}

pub open spec fn conflict(expected: Seq<char>, actual: Seq<char>) -> StatusView {
    StatusView::ConflictUpgrade(ConflictView { expected, actual })
}

fn new_conflict(expected: &str, actual: &str) -> (r: Status)
    ensures
        r@ == conflict(expected@, actual@),
{
    Status::ConflictUpgrade(Conflict { expected: owned(expected), actual: owned(actual) })
}

/// Whether a binary counts as present for a command runner: an error when it
/// is absent.
pub fn require_bin(bin: &str, present: bool) -> (r: Result<(), String>)
    ensures
        present ==> r is Ok,
        !present ==> (r matches Err(m) && m@ == bin_not_found_message(bin@)),
{
    Utils::assert_bin(bin, if present {
        0
    } else {
        1
    })
}

fn no_envs() -> (r: Vec<(String, String)>)
    ensures
        pair_views(r@) == Seq::<(Seq<char>, Seq<char>)>::empty(),
{
    let r: Vec<(String, String)> = Vec::new();
    assert(pair_views(r@) =~= Seq::<(Seq<char>, Seq<char>)>::empty());
    r
}

// --- Symlink ---------------------------------------------------------------

/// A symbolic link at `target` that points to `source`.
#[derive(Debug)]
pub struct Symlink {
    pub target: ExpandedPath,
    pub source: ExpandedPath,
}

impl Symlink {
    pub open spec fn display_spec(self) -> Seq<char> {
        "symlink "@ + self.target@ + " "@ + self.source@
    }

    /// Builds the assertion from its two arguments, expanding both; the
    /// target is expanded first.
    pub fn new(target: &str, source: &str, env: &Environment) -> (r: Result<Symlink, ExpandError>)
        ensures
            match r {
                Ok(s) => expansion(target@, *env) == Ok::<Seq<char>, ExpandFailure>(s.target@)
                    && expansion(source@, *env) == Ok::<Seq<char>, ExpandFailure>(s.source@),
                Err(e) => match expansion(target@, *env) {
                    Err(f) => e@ == f,
                    Ok(_) => expansion(source@, *env) == Err::<Seq<char>, ExpandFailure>(e@),
                },
            },
    {
        let target = ExpandedPath::new(target, env)?;
        let source = ExpandedPath::new(source, env)?;
        Ok(Symlink { target, source })
    }

    /// How the assertion is shown: `symlink <target> <source>`.
    pub fn display(&self) -> (r: String)
        ensures
            r@ == self.display_spec(),
    {
        String::from_str("symlink ").concat(self.target.as_str()).concat(" ").concat(
            self.source.as_str(),
        )
    }

    /// The message for a target that links elsewhere; the lenient flavour
    /// words it as it always did.
    pub open spec fn wrong_target_message(self, lenient: bool) -> Seq<char> {
        if lenient {
            self.display_spec() + " points to wrong target"@
        } else {
            self.display_spec() + " points to the wrong target"@
        }
    }

    /// The message for a target that is not a link.
    pub open spec fn not_a_link_message(self, lenient: bool) -> Seq<char> {
        if lenient {
            self.display_spec() + " target exists but is not a symlink"@
        } else {
            self.display_spec() + " exists but is not a symlink"@
        }
    }

    /// What the link read at an existing target decides: Ok when it is a
    /// link and `same` (whether it is the source, as paths compare); a link
    /// elsewhere, or no link, is not handled yet.
    pub open spec fn link_verdict_spec(self, lenient: bool, link: Option<Seq<char>>, same: bool) -> Result<
        StatusView,
        FailureView,
    > {
        match link {
            Some(_) => if same {
                Ok(StatusView::Okay)
            } else {
                Err(FailureView::Unimplemented(self.wrong_target_message(lenient)))
            },
            None => Err(FailureView::Unimplemented(self.not_a_link_message(lenient))),
        }
    }

    /// Missing when nothing is at the target; Ok when the target is a link to
    /// the source. A link elsewhere, or something that is not a link, is not
    /// handled yet; `lenient` picks the lenient flavour's wording for those.
    pub open spec fn status_plan_in(self, lenient: bool, a: Seq<AnswerView>) -> StepView<StatusView> {
        if a.len() == 0 {
            ask(RequestView::Exists { path: self.target@ })
        } else if found_at(a, 0) is None {
            unexpected()
        } else if !found_at(a, 0)->0 {
            done(StatusView::Missing)
        } else if a.len() == 1 {
            ask(RequestView::ReadLink { path: self.target@ })
        } else {
            match a[1] {
                AnswerView::Link(l) => StepView::Finish(
                    self.link_verdict_spec(
                        lenient,
                        l,
                        l is Some && paths_match(l->0, self.source@),
                    ),
                ),
                _ => unexpected(),
            }
        }
    }

    /// The status exchange of the standard flavour.
    pub open spec fn status_plan(self, a: Seq<AnswerView>) -> StepView<StatusView> {
        self.status_plan_in(false, a)
    }

    /// The status exchange of the lenient flavour.
    pub open spec fn lenient_status_plan(self, a: Seq<AnswerView>) -> StepView<StatusView> {
        self.status_plan_in(true, a)
    }

    /// Decides the status from the link read at an existing target and from
    /// `same`, whether that link is the source as paths compare.
    pub fn link_verdict(&self, lenient: bool, link: &Option<String>, same: bool) -> (r: Step<Status>)
        ensures
            r@ == StepView::Finish(
                self.link_verdict_spec(lenient, crate::status::opt_view(*link), same),
            ),
    {
        match link {
            Some(_) => if same {
                Step::Finish(Ok(Status::Okay))
            } else {
                let message = if lenient {
                    self.display().concat(" points to wrong target")
                } else {
                    self.display().concat(" points to the wrong target")
                };
                Step::Finish(Err(Failure::Unimplemented(message)))
            },
            None => {
                let message = if lenient {
                    self.display().concat(" target exists but is not a symlink")
                } else {
                    self.display().concat(" exists but is not a symlink")
                };
                Step::Finish(Err(Failure::Unimplemented(message)))
            },
        }
    }

    fn status_step_in(&self, lenient: bool, answers: &Vec<Answer>) -> (s: Step<Status>)
        ensures
            s@ == self.status_plan_in(lenient, answer_views(answers@)),
    {
        let n = answers.len();
        if n == 0 {
            return Step::Ask(Request::Exists { path: owned(self.target.as_str()) });
        }
        match found(&answers[0]) {
            None => Step::Finish(Err(Failure::Unexpected)),
            Some(false) => Step::Finish(Ok(Status::Missing)),
            Some(true) => {
                if n == 1 {
                    return Step::Ask(Request::ReadLink { path: owned(self.target.as_str()) });
                }
                match &answers[1] {
                    Answer::Link(l) => {
                        let same = match l {
                            Some(p) => paths_equal(p.as_str(), self.source.as_str()),
                            None => false,
                        };
                        self.link_verdict(lenient, l, same)
                    },
                    _ => Step::Finish(Err(Failure::Unexpected)),
                }
            },
        }
    }

    /// The next step of the status exchange.
    pub fn status_step(&self, answers: &Vec<Answer>) -> (s: Step<Status>)
        ensures
            s@ == self.status_plan(answer_views(answers@)),
    {
        self.status_step_in(false, answers)
    }

    /// The next step of the status exchange, in the lenient flavour.
    pub fn lenient_status_step(&self, answers: &Vec<Answer>) -> (s: Step<Status>)
        ensures
            s@ == self.lenient_status_plan(answer_views(answers@)),
    {
        self.status_step_in(true, answers)
    }

    /// Creates the link; a failure is reported with the system's message.
    pub open spec fn install_plan(self, a: Seq<AnswerView>) -> StepView<()> {
        if a.len() == 0 {
            ask(RequestView::CreateSymlink { source: self.source@, target: self.target@ })
        } else {
            match a[0] {
                AnswerView::Done(Ok(())) => done(()),
                AnswerView::Done(Err(e)) => failed(
                    FailureView::Message("Failed to create symlink: "@ + e),
                ),
                _ => unexpected(),
            }
        }
    }

    pub fn install_step(&self, answers: &Vec<Answer>) -> (s: Step<()>)
        ensures
            s@ == self.install_plan(answer_views(answers@)),
    {
        if answers.len() == 0 {
            return Step::Ask(
                Request::CreateSymlink {
                    source: owned(self.source.as_str()),
                    target: owned(self.target.as_str()),
                },
            );
        }
        match &answers[0] {
            Answer::Done(Ok(())) => Step::Finish(Ok(())),
            Answer::Done(Err(e)) => Step::Finish(
                Err(Failure::Message(String::from_str("Failed to create symlink: ").concat(e.as_str()))),
            ),
            _ => Step::Finish(Err(Failure::Unexpected)),
        }
    }
}

// --- Directory -------------------------------------------------------------

/// A directory at `path`.
#[derive(Debug)]
pub struct Directory {
    pub path: ExpandedPath,
}

impl Directory {
    pub open spec fn display_spec(self) -> Seq<char> {
        "directory "@ + self.path@
    }

    /// Builds the assertion from its argument, expanding it.
    pub fn new(path: &str, env: &Environment) -> (r: Result<Directory, ExpandError>)
        ensures
            match r {
                Ok(d) => expansion(path@, *env) == Ok::<Seq<char>, ExpandFailure>(d.path@),
                Err(e) => expansion(path@, *env) == Err::<Seq<char>, ExpandFailure>(e@),
            },
    {
        let path = ExpandedPath::new(path, env)?;
        Ok(Directory { path })
    }

    /// How the assertion is shown: `directory <path>`.
    pub fn display(&self) -> (r: String)
        ensures
            r@ == self.display_spec(),
    {
        String::from_str("directory ").concat(self.path.as_str())
    }

    /// Ok for a directory, Missing when nothing is there; something else at
    /// the path is not handled yet.
    pub open spec fn status_plan(self, a: Seq<AnswerView>) -> StepView<StatusView> {
        if a.len() == 0 {
            ask(RequestView::IsDir { path: self.path@ })
        } else if found_at(a, 0) is None {
            unexpected()
        } else if found_at(a, 0)->0 {
            done(StatusView::Okay)
        } else if a.len() == 1 {
            ask(RequestView::Exists { path: self.path@ })
        } else if found_at(a, 1) is None {
            unexpected()
        } else if found_at(a, 1)->0 {
            failed(
                FailureView::Unimplemented(self.display_spec() + " exists but is not a directory"@),
            )
        } else {
            done(StatusView::Missing)
        }
    }

    pub fn status_step(&self, answers: &Vec<Answer>) -> (s: Step<Status>)
        ensures
            s@ == self.status_plan(answer_views(answers@)),
    {
        let n = answers.len();
        if n == 0 {
            return Step::Ask(Request::IsDir { path: owned(self.path.as_str()) });
        }
        match found(&answers[0]) {
            None => Step::Finish(Err(Failure::Unexpected)),
            Some(true) => Step::Finish(Ok(Status::Okay)),
            Some(false) => {
                if n == 1 {
                    return Step::Ask(Request::Exists { path: owned(self.path.as_str()) });
                }
                match found(&answers[1]) {
                    None => Step::Finish(Err(Failure::Unexpected)),
                    Some(true) => Step::Finish(
                        Err(
                            Failure::Unimplemented(
                                self.display().concat(" exists but is not a directory"),
                            ),
                        ),
                    ),
                    Some(false) => Step::Finish(Ok(Status::Missing)),
                }
            },
        }
    }

    /// Creates the directory and its parents; a failure is reported with the
    /// system's message, which the lenient flavour prefixes with what
    /// failed.
    pub open spec fn install_plan_in(self, lenient: bool, a: Seq<AnswerView>) -> StepView<()> {
        if a.len() == 0 {
            ask(RequestView::CreateDirAll { path: self.path@ })
        } else {
            match a[0] {
                AnswerView::Done(Ok(())) => done(()),
                AnswerView::Done(Err(e)) => failed(
                    FailureView::Message(
                        if lenient {
                            "Failed to create directory: "@ + e
                        } else {
                            e
                        },
                    ),
                ),
                _ => unexpected(),
            }
        }
    }

    /// The install exchange of the standard flavour.
    pub open spec fn install_plan(self, a: Seq<AnswerView>) -> StepView<()> {
        self.install_plan_in(false, a)
    }

    /// The install exchange of the lenient flavour.
    pub open spec fn lenient_install_plan(self, a: Seq<AnswerView>) -> StepView<()> {
        self.install_plan_in(true, a)
    }

    fn install_step_in(&self, lenient: bool, answers: &Vec<Answer>) -> (s: Step<()>)
        ensures
            s@ == self.install_plan_in(lenient, answer_views(answers@)),
    {
        if answers.len() == 0 {
            return Step::Ask(Request::CreateDirAll { path: owned(self.path.as_str()) });
        }
        match &answers[0] {
            Answer::Done(Ok(())) => Step::Finish(Ok(())),
            Answer::Done(Err(e)) => {
                let message = if lenient {
                    owned("Failed to create directory: ").concat(e.as_str())
                } else {
                    e.clone()
                };
                Step::Finish(Err(Failure::Message(message)))
            },
            _ => Step::Finish(Err(Failure::Unexpected)),
        }
    }

    /// The next step of the install exchange.
    pub fn install_step(&self, answers: &Vec<Answer>) -> (s: Step<()>)
        ensures
            s@ == self.install_plan(answer_views(answers@)),
    {
        self.install_step_in(false, answers)
    }

    /// The next step of the install exchange, in the lenient flavour.
    pub fn lenient_install_step(&self, answers: &Vec<Answer>) -> (s: Step<()>)
        ensures
            s@ == self.lenient_install_plan(answer_views(answers@)),
    {
        self.install_step_in(true, answers)
    }
}

// --- Git -------------------------------------------------------------------

/// A clone of the repository at `remote_url` in the directory `dir`.
#[derive(Debug)]
pub struct Git {
    pub dir: ExpandedPath,
    pub remote_url: String,
}

impl Git {
    pub open spec fn display_spec(self) -> Seq<char> {
        "git "@ + self.dir@ + " "@ + self.remote_url@
    }

    pub open spec fn remote_query(self) -> RequestView {
        RequestView::Run {
            cmd: "git"@,
            args: seq!["-C"@, self.dir@, "config"@, "--get"@, "remote.origin.url"@],
            envs: seq![],
        }
    }

    pub open spec fn clone_command(self) -> RequestView {
        RequestView::Run {
            cmd: "git"@,
            args: seq!["clone"@, self.remote_url@, self.dir@],
            envs: seq![],
        }
    }

    /// Builds the assertion from its arguments, expanding the directory.
    pub fn new(dir: &str, remote_url: &str, env: &Environment) -> (r: Result<Git, ExpandError>)
        ensures
            match r {
                Ok(g) => expansion(dir@, *env) == Ok::<Seq<char>, ExpandFailure>(g.dir@)
                    && g.remote_url@ == remote_url@,
                Err(e) => expansion(dir@, *env) == Err::<Seq<char>, ExpandFailure>(e@),
            },
    {
        let dir = ExpandedPath::new(dir, env)?;
        Ok(Git { dir, remote_url: owned(remote_url) })
    }

    /// How the assertion is shown: `git <dir> <remote url>`.
    pub fn display(&self) -> (r: String)
        ensures
            r@ == self.display_spec(),
    {
        String::from_str("git ").concat(self.dir.as_str()).concat(" ").concat(
            self.remote_url.as_str(),
        )
    }

    /// Needs `git` on `PATH`. Missing when nothing is at the directory or the
    /// directory is empty; a conflict when a file is there, when the remote
    /// cannot be read, or when the clone's `origin` is another remote; Ok
    /// when `origin` is the remote.
    pub open spec fn status_plan(self, a: Seq<AnswerView>) -> StepView<StatusView> {
        if a.len() == 0 {
            ask(RequestView::FindBin { bin: "git"@ })
        } else if found_at(a, 0) is None {
            unexpected()
        } else if !found_at(a, 0)->0 {
            failed(FailureView::Message(bin_not_found_message("git"@)))
        } else if a.len() == 1 {
            ask(RequestView::Exists { path: self.dir@ })
        } else if found_at(a, 1) is None {
            unexpected()
        } else if !found_at(a, 1)->0 {
            done(StatusView::Missing)
        } else if a.len() == 2 {
            ask(RequestView::IsDir { path: self.dir@ })
        } else if found_at(a, 2) is None {
            unexpected()
        } else if !found_at(a, 2)->0 {
            done(conflict("directory"@, "file"@))
        } else if a.len() == 3 {
            ask(RequestView::IsEmptyDir { path: self.dir@ })
        } else if found_at(a, 3) is None {
            unexpected()
        } else if found_at(a, 3)->0 {
            done(StatusView::Missing)
        } else if a.len() == 4 {
            ask(self.remote_query())
        } else {
            match a[4] {
                AnswerView::Ran { stdout, code } => if code != 0 {
                    done(
                        conflict(
                            "git repo with remote "@ + self.remote_url@,
                            "failed to get remote url"@,
                        ),
                    )
                } else if chomped(stdout) == self.remote_url@ {
                    done(StatusView::Okay)
                } else {
                    done(conflict(self.remote_url@, "current remote: "@ + chomped(stdout)))
                },
                _ => unexpected(),
            }
        }
    }

    pub fn status_step(&self, answers: &Vec<Answer>) -> (s: Step<Status>)
        ensures
            s@ == self.status_plan(answer_views(answers@)),
    {
        let n = answers.len();
        if n == 0 {
            return Step::Ask(Request::FindBin { bin: owned("git") });
        }
        match found(&answers[0]) {
            None => return Step::Finish(Err(Failure::Unexpected)),
            Some(false) => return Step::Finish(
                Err(Failure::Message(Utils::assert_bin("git", 1).unwrap_err())),
            ),
            Some(true) => {},
        }
        if n == 1 {
            return Step::Ask(Request::Exists { path: owned(self.dir.as_str()) });
        }
        match found(&answers[1]) {
            None => return Step::Finish(Err(Failure::Unexpected)),
            Some(false) => return Step::Finish(Ok(Status::Missing)),
            Some(true) => {},
        }
        if n == 2 {
            return Step::Ask(Request::IsDir { path: owned(self.dir.as_str()) });
        }
        match found(&answers[2]) {
            None => return Step::Finish(Err(Failure::Unexpected)),
            Some(false) => return Step::Finish(Ok(new_conflict("directory", "file"))),
            Some(true) => {},
        }
        if n == 3 {
            return Step::Ask(Request::IsEmptyDir { path: owned(self.dir.as_str()) });
        }
        match found(&answers[3]) {
            None => return Step::Finish(Err(Failure::Unexpected)),
            Some(true) => return Step::Finish(Ok(Status::Missing)),
            Some(false) => {},
        }
        if n == 4 {
            let args = to_strings(
                &["-C", self.dir.as_str(), "config", "--get", "remote.origin.url"],
            );
            assert(views(args@) =~= seq!["-C"@, self.dir@, "config"@, "--get"@, "remote.origin.url"@]);
            return Step::Ask(Request::Run { cmd: owned("git"), args, envs: no_envs() });
        }
        match &answers[4] {
            Answer::Ran { stdout, code } => {
                if *code != 0 {
                    Step::Finish(
                        Ok(
                            Status::ConflictUpgrade(
                                Conflict {
                                    expected: String::from_str("git repo with remote ").concat(
                                        self.remote_url.as_str(),
                                    ),
                                    actual: owned("failed to get remote url"),
                                },
                            ),
                        ),
                    )
                } else {
                    let current = Utils::chomp(stdout.as_str());
                    if crate::text::str_eq(current.as_str(), self.remote_url.as_str()) {
                        Step::Finish(Ok(Status::Okay))
                    } else {
                        Step::Finish(
                            Ok(
                                Status::ConflictUpgrade(
                                    Conflict {
                                        expected: self.remote_url.clone(),
                                        actual: String::from_str("current remote: ").concat(
                                            current.as_str(),
                                        ),
                                    },
                                ),
                            ),
                        )
                    }
                }
            },
            _ => Step::Finish(Err(Failure::Unexpected)),
        }
    }

    /// Needs `git` on `PATH`; clones the remote into the directory.
    pub open spec fn install_plan(self, a: Seq<AnswerView>) -> StepView<()> {
        if a.len() == 0 {
            ask(RequestView::FindBin { bin: "git"@ })
        } else if found_at(a, 0) is None {
            unexpected()
        } else if !found_at(a, 0)->0 {
            failed(FailureView::Message(bin_not_found_message("git"@)))
        } else if a.len() == 1 {
            ask(self.clone_command())
        } else {
            match a[1] {
                AnswerView::Ran { stdout: _, code } => if code != 0 {
                    failed(FailureView::Message("Failed to clone git repository"@))
                } else {
                    done(())
                },
                _ => unexpected(),
            }
        }
    }

    pub fn install_step(&self, answers: &Vec<Answer>) -> (s: Step<()>)
        ensures
            s@ == self.install_plan(answer_views(answers@)),
    {
        let n = answers.len();
        if n == 0 {
            return Step::Ask(Request::FindBin { bin: owned("git") });
        }
        match found(&answers[0]) {
            None => return Step::Finish(Err(Failure::Unexpected)),
            Some(false) => return Step::Finish(
                Err(Failure::Message(Utils::assert_bin("git", 1).unwrap_err())),
            ),
            Some(true) => {},
        }
        if n == 1 {
            let args = to_strings(&["clone", self.remote_url.as_str(), self.dir.as_str()]);
            assert(views(args@) =~= seq!["clone"@, self.remote_url@, self.dir@]);
            return Step::Ask(Request::Run { cmd: owned("git"), args, envs: no_envs() });
        }
        match &answers[1] {
            Answer::Ran { stdout: _, code } => {
                if *code != 0 {
                    Step::Finish(Err(Failure::Message(owned("Failed to clone git repository"))))
                } else {
                    Step::Finish(Ok(()))
                }
            },
            _ => Step::Finish(Err(Failure::Unexpected)),
        }
    }
}

// --- Brew ------------------------------------------------------------------

/// The script that installs Homebrew.
pub const HOMEBREW_INSTALL: &'static str =
    "/bin/bash -c \"$(curl -fsSL https://raw.githubusercontent.com/Homebrew/install/HEAD/install.sh)\"";

/// Homebrew itself.
#[derive(Debug)]
pub struct Brew;

impl Brew {
    pub fn new() -> (r: Brew) {
        Brew
    }

    /// How the assertion is shown: `brew`.
    pub fn display(&self) -> (r: String)
        ensures
            r@ == "brew"@,
    {
        owned("brew")
    }

    /// Missing when `brew` is not on `PATH` or `brew --version` fails; Ok
    /// otherwise.
    pub open spec fn status_plan(self, a: Seq<AnswerView>) -> StepView<StatusView> {
        if a.len() == 0 {
            ask(RequestView::HasBin { bin: "brew"@ })
        } else if found_at(a, 0) is None {
            unexpected()
        } else if !found_at(a, 0)->0 {
            done(StatusView::Missing)
        } else if a.len() == 1 {
            ask(RequestView::Run { cmd: "brew"@, args: seq!["--version"@], envs: seq![] })
        } else {
            match a[1] {
                AnswerView::Ran { stdout: _, code } => if code == 0 {
                    done(StatusView::Okay)
                } else {
                    done(StatusView::Missing)
                },
                _ => unexpected(),
            }
        }
    }

    pub fn status_step(&self, answers: &Vec<Answer>) -> (s: Step<Status>)
        ensures
            s@ == self.status_plan(answer_views(answers@)),
    {
        let n = answers.len();
        if n == 0 {
            return Step::Ask(Request::HasBin { bin: owned("brew") });
        }
        match found(&answers[0]) {
            None => return Step::Finish(Err(Failure::Unexpected)),
            Some(false) => return Step::Finish(Ok(Status::Missing)),
            Some(true) => {},
        }
        if n == 1 {
            let args = to_strings(&["--version"]);
            assert(views(args@) =~= seq!["--version"@]);
            return Step::Ask(Request::Run { cmd: owned("brew"), args, envs: no_envs() });
        }
        match &answers[1] {
            Answer::Ran { stdout: _, code } => {
                if *code == 0 {
                    Step::Finish(Ok(Status::Okay))
                } else {
                    Step::Finish(Ok(Status::Missing))
                }
            },
            _ => Step::Finish(Err(Failure::Unexpected)),
        }
    }

    /// Runs the Homebrew install script with `bash`; a failure carries what
    /// the script printed.
    pub open spec fn install_plan(self, a: Seq<AnswerView>) -> StepView<()> {
        if a.len() == 0 {
            ask(RequestView::Run { cmd: "bash"@, args: seq!["-c"@, HOMEBREW_INSTALL@], envs: seq![] })
        } else {
            match a[0] {
                AnswerView::Ran { stdout, code } => if code != 0 {
                    failed(FailureView::Message("Failed to install Homebrew: "@ + stdout))
                } else {
                    done(())
                },
                _ => unexpected(),
            }
        }
    }

    pub fn install_step(&self, answers: &Vec<Answer>) -> (s: Step<()>)
        ensures
            s@ == self.install_plan(answer_views(answers@)),
    {
        if answers.len() == 0 {
            let args = to_strings(&["-c", HOMEBREW_INSTALL]);
            assert(views(args@) =~= seq!["-c"@, HOMEBREW_INSTALL@]);
            return Step::Ask(Request::Run { cmd: owned("bash"), args, envs: no_envs() });
        }
        match &answers[0] {
            Answer::Ran { stdout, code } => {
                if *code != 0 {
                    Step::Finish(
                        Err(
                            Failure::Message(
                                String::from_str("Failed to install Homebrew: ").concat(
                                    stdout.as_str(),
                                ),
                            ),
                        ),
                    )
                } else {
                    Step::Finish(Ok(()))
                }
            },
            _ => Step::Finish(Err(Failure::Unexpected)),
        }
    }
}

// --- BrewBundle ------------------------------------------------------------

/// The packages of a Brewfile, installed with `brew bundle`; macOS only.
#[derive(Debug)]
pub struct BrewBundle {
    pub brewfile: ExpandedPath,
}

pub open spec fn not_macos_message() -> Seq<char> {
    "brew-bundle only supported on Darwin/macOS"@
}

impl BrewBundle {
    pub open spec fn display_spec(self) -> Seq<char> {
        "brew-bundle "@ + self.brewfile@
    }

    pub open spec fn file_arg(self) -> Seq<char> {
        "--file="@ + self.brewfile@
    }

    pub open spec fn no_auto_update() -> Seq<(Seq<char>, Seq<char>)> {
        seq![("HOMEBREW_NO_AUTO_UPDATE"@, "true"@)]
    }

    /// Builds the assertion from its argument, expanding it.
    pub fn new(brewfile: &str, env: &Environment) -> (r: Result<BrewBundle, ExpandError>)
        ensures
            match r {
                Ok(b) => expansion(brewfile@, *env) == Ok::<Seq<char>, ExpandFailure>(b.brewfile@),
                Err(e) => expansion(brewfile@, *env) == Err::<Seq<char>, ExpandFailure>(e@),
            },
    {
        let brewfile = ExpandedPath::new(brewfile, env)?;
        Ok(BrewBundle { brewfile })
    }

    /// How the assertion is shown: `brew-bundle <brewfile>`.
    pub fn display(&self) -> (r: String)
        ensures
            r@ == self.display_spec(),
    {
        String::from_str("brew-bundle ").concat(self.brewfile.as_str())
    }

    /// Fails off macOS and without `brew`. Missing when
    /// `brew bundle check --no-upgrade` fails; a conflict when only the check
    /// that also wants upgrades fails; Ok when both pass. Both checks run
    /// without Homebrew's auto-update.
    pub open spec fn status_plan(self, on_macos: bool, a: Seq<AnswerView>) -> StepView<StatusView> {
        if !on_macos {
            failed(FailureView::Message(not_macos_message()))
        } else if a.len() == 0 {
            ask(RequestView::HasBin { bin: "brew"@ })
        } else if found_at(a, 0) is None {
            unexpected()
        } else if !found_at(a, 0)->0 {
            failed(FailureView::Message(bin_not_found_message("brew"@)))
        } else if a.len() == 1 {
            ask(
                RequestView::Run {
                    cmd: "brew"@,
                    args: seq!["bundle"@, "check"@, "--no-upgrade"@, self.file_arg()],
                    envs: Self::no_auto_update(),
                },
            )
        } else if !(a[1] is Ran) {
            unexpected()
        } else if a[1]->code != 0 {
            done(StatusView::Missing)
        } else if a.len() == 2 {
            ask(
                RequestView::Run {
                    cmd: "brew"@,
                    args: seq!["bundle"@, "check"@, self.file_arg()],
                    envs: Self::no_auto_update(),
                },
            )
        } else if !(a[2] is Ran) {
            unexpected()
        } else if a[2]->code != 0 {
            done(conflict("up-to-date packages"@, "packages need upgrade"@))
        } else {
            done(StatusView::Okay)
        }
    }

    fn no_auto_update_envs() -> (r: Vec<(String, String)>)
        ensures
            pair_views(r@) == Self::no_auto_update(),
    {
        let mut r: Vec<(String, String)> = Vec::new();
        r.push((owned("HOMEBREW_NO_AUTO_UPDATE"), owned("true")));
        assert(pair_views(r@) =~= Self::no_auto_update());
        r
    }

    fn file_argument(&self) -> (r: String)
        ensures
            r@ == self.file_arg(),
    {
        String::from_str("--file=").concat(self.brewfile.as_str())
    }

    pub fn status_step(&self, on_macos: bool, answers: &Vec<Answer>) -> (s: Step<Status>)
        ensures
            s@ == self.status_plan(on_macos, answer_views(answers@)),
    {
        if !on_macos {
            return Step::Finish(
                Err(Failure::Message(owned("brew-bundle only supported on Darwin/macOS"))),
            );
        }
        let n = answers.len();
        if n == 0 {
            return Step::Ask(Request::HasBin { bin: owned("brew") });
        }
        match found(&answers[0]) {
            None => return Step::Finish(Err(Failure::Unexpected)),
            Some(false) => return Step::Finish(
                Err(Failure::Message(require_bin("brew", false).unwrap_err())),
            ),
            Some(true) => {},
        }
        let file = self.file_argument();
        if n == 1 {
            let args = to_strings(&["bundle", "check", "--no-upgrade", file.as_str()]);
            assert(views(args@) =~= seq!["bundle"@, "check"@, "--no-upgrade"@, self.file_arg()]);
            return Step::Ask(
                Request::Run { cmd: owned("brew"), args, envs: Self::no_auto_update_envs() },
            );
        }
        match &answers[1] {
            Answer::Ran { stdout: _, code } => {
                if *code != 0 {
                    return Step::Finish(Ok(Status::Missing));
                }
            },
            _ => return Step::Finish(Err(Failure::Unexpected)),
        }
        if n == 2 {
            let args = to_strings(&["bundle", "check", file.as_str()]);
            assert(views(args@) =~= seq!["bundle"@, "check"@, self.file_arg()]);
            return Step::Ask(
                Request::Run { cmd: owned("brew"), args, envs: Self::no_auto_update_envs() },
            );
        }
        match &answers[2] {
            Answer::Ran { stdout: _, code } => {
                if *code != 0 {
                    Step::Finish(Ok(new_conflict("up-to-date packages", "packages need upgrade")))
                } else {
                    Step::Finish(Ok(Status::Okay))
                }
            },
            _ => Step::Finish(Err(Failure::Unexpected)),
        }
    }

    /// Fails off macOS and without `brew`; runs `brew bundle install`.
    pub open spec fn install_plan(self, on_macos: bool, a: Seq<AnswerView>) -> StepView<()> {
        if !on_macos {
            failed(FailureView::Message(not_macos_message()))
        } else if a.len() == 0 {
            ask(RequestView::HasBin { bin: "brew"@ })
        } else if found_at(a, 0) is None {
            unexpected()
        } else if !found_at(a, 0)->0 {
            failed(FailureView::Message(bin_not_found_message("brew"@)))
        } else if a.len() == 1 {
            ask(
                RequestView::Run {
                    cmd: "brew"@,
                    args: seq!["bundle"@, "install"@, self.file_arg()],
                    envs: seq![],
                },
            )
        } else if !(a[1] is Ran) {
            unexpected()
        } else if a[1]->code != 0 {
            failed(FailureView::Message("Failed to install brew bundle"@))
        } else {
            done(())
        }
    }

    pub fn install_step(&self, on_macos: bool, answers: &Vec<Answer>) -> (s: Step<()>)
        ensures
            s@ == self.install_plan(on_macos, answer_views(answers@)),
    {
        if !on_macos {
            return Step::Finish(
                Err(Failure::Message(owned("brew-bundle only supported on Darwin/macOS"))),
            );
        }
        let n = answers.len();
        if n == 0 {
            return Step::Ask(Request::HasBin { bin: owned("brew") });
        }
        match found(&answers[0]) {
            None => return Step::Finish(Err(Failure::Unexpected)),
            Some(false) => return Step::Finish(
                Err(Failure::Message(require_bin("brew", false).unwrap_err())),
            ),
            Some(true) => {},
        }
        if n == 1 {
            let file = self.file_argument();
            let args = to_strings(&["bundle", "install", file.as_str()]);
            assert(views(args@) =~= seq!["bundle"@, "install"@, self.file_arg()]);
            return Step::Ask(Request::Run { cmd: owned("brew"), args, envs: no_envs() });
        }
        match &answers[1] {
            Answer::Ran { stdout: _, code } => {
                if *code != 0 {
                    Step::Finish(Err(Failure::Message(owned("Failed to install brew bundle"))))
                } else {
                    Step::Finish(Ok(()))
                }
            },
            _ => Step::Finish(Err(Failure::Unexpected)),
        }
    }
}

// --- Debug -----------------------------------------------------------------

/// An assertion for trying frork out: its status and install run the Lua
/// functions given for them, if any. `F` is the type of a Lua function handle.
#[derive(Debug)]
pub struct Debug<F> {
    pub status_fn: Option<F>,
    pub install_fn: Option<F>,
}

impl<F> Debug<F> {
    /// Builds the assertion from the functions its table holds under
    /// `status` and `install`.
    pub fn new(status_fn: Option<F>, install_fn: Option<F>) -> (r: Debug<F>)
        ensures
            r.status_fn == status_fn,
            r.install_fn == install_fn,
    {
        Debug { status_fn, install_fn }
    }

    /// How the assertion is shown: `debug`.
    pub fn display(&self) -> (r: String)
        ensures
            r@ == "debug"@,
    {
        owned("debug")
    }

    /// The status that the status function returns, called without
    /// arguments; Ok when there is no status function.
    pub open spec fn status_plan(self, a: Seq<AnswerView>) -> StepView<StatusView> {
        if self.status_fn is None {
            done(StatusView::Okay)
        } else if a.len() == 0 {
            ask(RequestView::CallLua { function: LuaFn::Status, with_args: false })
        } else {
            match a[0] {
                AnswerView::StatusReply(Ok(s)) => done(s),
                AnswerView::StatusReply(Err(e)) => failed(
                    FailureView::Message("Debug status function failed: "@ + e.display@),
                ),
                _ => unexpected(),
            }
        }
    }

    pub fn status_step(&self, answers: &Vec<Answer>) -> (s: Step<Status>)
        ensures
            s@ == self.status_plan(answer_views(answers@)),
    {
        if self.status_fn.is_none() {
            return Step::Finish(Ok(Status::Okay));
        }
        if answers.len() == 0 {
            return Step::Ask(Request::CallLua { function: LuaFn::Status, with_args: false });
        }
        match &answers[0] {
            Answer::StatusReply(Ok(s)) => Step::Finish(Ok(s.duplicate())),
            Answer::StatusReply(Err(e)) => Step::Finish(
                Err(
                    Failure::Message(
                        String::from_str("Debug status function failed: ").concat(
                            e.display.as_str(),
                        ),
                    ),
                ),
            ),
            _ => Step::Finish(Err(Failure::Unexpected)),
        }
    }

    /// Calls the install function without arguments; fails when there is none.
    pub open spec fn install_plan(self, a: Seq<AnswerView>) -> StepView<()> {
        if self.install_fn is None {
            failed(FailureView::Message("Install not implemented for debug assertion"@))
        } else if a.len() == 0 {
            ask(RequestView::CallLua { function: LuaFn::Install, with_args: false })
        } else {
            match a[0] {
                AnswerView::UnitReply(Ok(())) => done(()),
                AnswerView::UnitReply(Err(e)) => failed(
                    FailureView::Message("Debug install function failed: "@ + e.display@),
                ),
                _ => unexpected(),
            }
        }
    }

    pub fn install_step(&self, answers: &Vec<Answer>) -> (s: Step<()>)
        ensures
            s@ == self.install_plan(answer_views(answers@)),
    {
        if self.install_fn.is_none() {
            return Step::Finish(
                Err(Failure::Message(owned("Install not implemented for debug assertion"))),
            );
        }
        if answers.len() == 0 {
            return Step::Ask(Request::CallLua { function: LuaFn::Install, with_args: false });
        }
        match &answers[0] {
            Answer::UnitReply(Ok(())) => Step::Finish(Ok(())),
            Answer::UnitReply(Err(e)) => Step::Finish(
                Err(
                    Failure::Message(
                        String::from_str("Debug install function failed: ").concat(
                            e.display.as_str(),
                        ),
                    ),
                ),
            ),
            _ => Step::Finish(Err(Failure::Unexpected)),
        }
    }
}

// --- Assertion types registered from Fennel --------------------------------

/// The functions of an assertion type registered from Fennel: `status` and
/// `install` are required, `display` and `upgrade` optional.
#[derive(Debug)]
pub struct LuaAssertionType<F> {
    pub display_fn: Option<F>,
    pub status_fn: F,
    pub install_fn: F,
    pub upgrade_fn: Option<F>,
}

impl<F> LuaAssertionType<F> {
    /// Builds the type from what its table holds under `display`, `status`,
    /// `install` and `upgrade`; fails with the error of `status` if that is
    /// not a function, else with the error of `install` if that is not.
    pub fn from_parts<E>(
        display_fn: Option<F>,
        status_fn: Result<F, E>,
        install_fn: Result<F, E>,
        upgrade_fn: Option<F>,
    ) -> (r: Result<LuaAssertionType<F>, E>)
        ensures
            match r {
                Ok(t) => status_fn == Ok::<F, E>(t.status_fn) && install_fn == Ok::<F, E>(
                    t.install_fn,
                ) && t.display_fn == display_fn && t.upgrade_fn == upgrade_fn,
                Err(e) => status_fn == Err::<F, E>(e) || (status_fn is Ok && install_fn == Err::<
                    F,
                    E,
                >(e)),
            },
    {
        let status_fn = status_fn?;
        let install_fn = install_fn?;
        Ok(LuaAssertionType { display_fn, status_fn, install_fn, upgrade_fn })
    }
}

/// An assertion of a type registered from Fennel: the type's name, the
/// arguments it was made with (of type `A`), and the type's functions.
#[derive(Debug)]
pub struct LuaAssertion<A, F> {
    pub name: String,
    pub args: A,
    pub assertion_type: LuaAssertionType<F>,
}

/// How one argument shows in the default display: `?` for one that has no
/// display.
pub open spec fn arg_text(o: Option<Seq<char>>) -> Seq<char> {
    match o {
        Some(t) => t,
        None => "?"@,
    }
}

/// The default display: the type's name, a space, and the arguments
/// separated by spaces.
pub open spec fn default_display(name: Seq<char>, texts: Seq<Option<Seq<char>>>) -> Seq<char> {
    name + " "@ + join(texts.map_values(|o: Option<Seq<char>>| arg_text(o)), " "@)
}

pub fn default_display_of(name: &str, texts: &Vec<Option<String>>) -> (r: String)
    ensures
        r@ == default_display(name@, crate::protocol::opt_texts(texts@)),
{
    let mut shown: Vec<String> = Vec::new();
    let mut i: usize = 0;
    let ghost all = crate::protocol::opt_texts(texts@).map_values(
        |o: Option<Seq<char>>| arg_text(o),
    );
    while i < texts.len()
        invariant
            i <= texts@.len(),
            all == crate::protocol::opt_texts(texts@).map_values(
                |o: Option<Seq<char>>| arg_text(o),
            ),
            views(shown@) == all.take(i as int),
        decreases texts@.len() - i,
    {
        let ghost before = shown@;
        match &texts[i] {
            Some(t) => shown.push(t.clone()),
            None => shown.push(owned("?")),
        }
        assert(views(shown@) =~= views(before).push(all[i as int]));
        assert(all.take(i + 1) =~= all.take(i as int).push(all[i as int]));
        i = i + 1;
    }
    assert(all.take(i as int) =~= all);
    owned(name).concat(" ").concat(join_strings(&shown, " ").as_str())
}

impl<A, F> LuaAssertion<A, F> {
    pub fn new(name: &str, args: A, assertion_type: LuaAssertionType<F>) -> (r: LuaAssertion<A, F>)
        ensures
            r.name@ == name@,
            r.args == args,
            r.assertion_type == assertion_type,
    {
        LuaAssertion { name: owned(name), args, assertion_type }
    }

    /// What the display function returns for the arguments; the default
    /// display when the type has no display function or it fails.
    pub open spec fn display_plan(self, a: Seq<AnswerView>) -> StepView<Seq<char>> {
        if self.assertion_type.display_fn is Some {
            if a.len() == 0 {
                ask(RequestView::CallLua { function: LuaFn::Display, with_args: true })
            } else {
                match a[0] {
                    AnswerView::TextReply(Ok(t)) => done(t),
                    AnswerView::TextReply(Err(_)) => if a.len() == 1 {
                        ask(RequestView::DescribeArgs)
                    } else {
                        match a[1] {
                            AnswerView::ArgTexts(t) => done(default_display(self.name@, t)),
                            _ => unexpected(),
                        }
                    },
                    _ => unexpected(),
                }
            }
        } else if a.len() == 0 {
            ask(RequestView::DescribeArgs)
        } else {
            match a[0] {
                AnswerView::ArgTexts(t) => done(default_display(self.name@, t)),
                _ => unexpected(),
            }
        }
    }

    pub fn display_step(&self, answers: &Vec<Answer>) -> (s: Step<String>)
        ensures
            s@ == self.display_plan(answer_views(answers@)),
    {
        let n = answers.len();
        let mut k: usize = 0;
        if self.assertion_type.display_fn.is_some() {
            if n == 0 {
                return Step::Ask(Request::CallLua { function: LuaFn::Display, with_args: true });
            }
            match &answers[0] {
                Answer::TextReply(Ok(t)) => return Step::Finish(Ok(t.clone())),
                Answer::TextReply(Err(_)) => {},
                _ => return Step::Finish(Err(Failure::Unexpected)),
            }
            k = 1;
        }
        if n == k {
            return Step::Ask(Request::DescribeArgs);
        }
        match &answers[k] {
            Answer::ArgTexts(t) => Step::Finish(Ok(default_display_of(self.name.as_str(), t))),
            _ => Step::Finish(Err(Failure::Unexpected)),
        }
    }

    /// The status that the status function returns for the arguments; its
    /// errors become frork errors.
    pub open spec fn status_plan(self, a: Seq<AnswerView>) -> StepView<StatusView> {
        if a.len() == 0 {
            ask(RequestView::CallLua { function: LuaFn::Status, with_args: true })
        } else {
            match a[0] {
                AnswerView::StatusReply(Ok(s)) => done(s),
                AnswerView::StatusReply(Err(e)) => failed(FailureView::Frork(from_lua_spec(e))),
                _ => unexpected(),
            }
        }
    }

    pub fn status_step(&self, answers: &Vec<Answer>) -> (s: Step<Status>)
        ensures
            s@ == self.status_plan(answer_views(answers@)),
    {
        if answers.len() == 0 {
            return Step::Ask(Request::CallLua { function: LuaFn::Status, with_args: true });
        }
        match &answers[0] {
            Answer::StatusReply(Ok(s)) => Step::Finish(Ok(s.duplicate())),
            Answer::StatusReply(Err(e)) => Step::Finish(
                Err(Failure::Frork(FrorkError::from_lua(e))),
            ),
            _ => Step::Finish(Err(Failure::Unexpected)),
        }
    }

    /// Calls the install function with the arguments; its errors become
    /// frork errors.
    pub open spec fn install_plan(self, a: Seq<AnswerView>) -> StepView<()> {
        if a.len() == 0 {
            ask(RequestView::CallLua { function: LuaFn::Install, with_args: true })
        } else {
            match a[0] {
                AnswerView::UnitReply(Ok(())) => done(()),
                AnswerView::UnitReply(Err(e)) => failed(FailureView::Frork(from_lua_spec(e))),
                _ => unexpected(),
            }
        }
    }

    pub fn install_step(&self, answers: &Vec<Answer>) -> (s: Step<()>)
        ensures
            s@ == self.install_plan(answer_views(answers@)),
    {
        if answers.len() == 0 {
            return Step::Ask(Request::CallLua { function: LuaFn::Install, with_args: true });
        }
        match &answers[0] {
            Answer::UnitReply(Ok(())) => Step::Finish(Ok(())),
            Answer::UnitReply(Err(e)) => Step::Finish(
                Err(Failure::Frork(FrorkError::from_lua(e))),
            ),
            _ => Step::Finish(Err(Failure::Unexpected)),
        }
    }

    /// Calls the upgrade function with the arguments; without one, installs
    /// again.
    pub open spec fn upgrade_plan(self, a: Seq<AnswerView>) -> StepView<()> {
        if self.assertion_type.upgrade_fn is None {
            self.install_plan(a)
        } else if a.len() == 0 {
            ask(RequestView::CallLua { function: LuaFn::Upgrade, with_args: true })
        } else {
            match a[0] {
                AnswerView::UnitReply(Ok(())) => done(()),
                AnswerView::UnitReply(Err(e)) => failed(FailureView::Frork(from_lua_spec(e))),
                _ => unexpected(),
            }
        }
    }

    pub fn upgrade_step(&self, answers: &Vec<Answer>) -> (s: Step<()>)
        ensures
            s@ == self.upgrade_plan(answer_views(answers@)),
    {
        if self.assertion_type.upgrade_fn.is_none() {
            return self.install_step(answers);
        }
        if answers.len() == 0 {
            return Step::Ask(Request::CallLua { function: LuaFn::Upgrade, with_args: true });
        }
        match &answers[0] {
            Answer::UnitReply(Ok(())) => Step::Finish(Ok(())),
            Answer::UnitReply(Err(e)) => Step::Finish(
                Err(Failure::Frork(FrorkError::from_lua(e))),
            ),
            _ => Step::Finish(Err(Failure::Unexpected)),
        }
    }
}

// --- Laws ------------------------------------------------------------------

/// Every exchange ends: a status check or an install finishes once it has as
/// many answers as it can ask questions (five for a git status, three for a
/// brew-bundle status, two for the others).
pub proof fn law_exchanges_are_bounded<A, F>(
    symlink: Symlink,
    directory: Directory,
    git: Git,
    brew: Brew,
    bundle: BrewBundle,
    debug: Debug<F>,
    lua: LuaAssertion<A, F>,
    on_macos: bool,
    a: Seq<AnswerView>,
)
    ensures
        a.len() >= 2 ==> symlink.status_plan(a) is Finish && directory.status_plan(a) is Finish,
        a.len() >= 1 ==> symlink.install_plan(a) is Finish && directory.install_plan(a) is Finish,
        a.len() >= 5 ==> git.status_plan(a) is Finish,
        a.len() >= 2 ==> git.install_plan(a) is Finish,
        a.len() >= 2 ==> brew.status_plan(a) is Finish,
        a.len() >= 1 ==> brew.install_plan(a) is Finish,
        a.len() >= 3 ==> bundle.status_plan(on_macos, a) is Finish,
        a.len() >= 2 ==> bundle.install_plan(on_macos, a) is Finish,
        a.len() >= 1 ==> debug.status_plan(a) is Finish && debug.install_plan(a) is Finish,
        a.len() >= 1 ==> lua.status_plan(a) is Finish && lua.install_plan(a) is Finish
            && lua.upgrade_plan(a) is Finish,
        a.len() >= 2 ==> lua.display_plan(a) is Finish,
{
}

/// A git status runs `git` (to read the clone's remote) only for a
/// non-empty directory, and only once `git` was found on `PATH`.
pub proof fn law_git_reads_the_remote_only_of_a_nonempty_directory(git: Git, a: Seq<AnswerView>)
    requires
        git.status_plan(a) is Ask,
        git.status_plan(a)->Ask_0 is Run,
    ensures
        a.len() == 4,
        a[0] == AnswerView::Found(true),
        a[1] == AnswerView::Found(true),
        a[2] == AnswerView::Found(true),
        a[3] == AnswerView::Found(false),
{
}

/// Off macOS, a brew bundle fails at once, without asking anything.
pub proof fn law_brew_bundle_is_macos_only(bundle: BrewBundle, a: Seq<AnswerView>)
    ensures
        bundle.status_plan(false, a) == failed::<StatusView>(FailureView::Message(not_macos_message())),
        bundle.install_plan(false, a) == failed::<()>(FailureView::Message(not_macos_message())),
{
}

/// Without `brew` on `PATH`, Homebrew is missing and no command runs.
pub proof fn law_brew_without_binary_runs_nothing(brew: Brew, a: Seq<AnswerView>)
    requires
        a.len() >= 1,
        a[0] == AnswerView::Found(false),
    ensures
        brew.status_plan(a) == done(StatusView::Missing),
{
}

/// A type registered without an upgrade function upgrades by installing again.
pub proof fn law_upgrade_falls_back_to_install<A, F>(lua: LuaAssertion<A, F>, a: Seq<AnswerView>)
    requires
        lua.assertion_type.upgrade_fn is None,
    ensures
        lua.upgrade_plan(a) == lua.install_plan(a),
{
}

/// What a machine shows a git assertion: whether `git` is on `PATH`, what
/// is at the directory, and what reading the clone's remote prints.
pub struct GitWorld {
    pub git_on_path: bool,
    pub exists: bool,
    pub is_dir: bool,
    pub empty: bool,
    pub remote_stdout: Seq<char>,
    pub remote_code: i32,
}

/// The answers a machine gives to a git status check's questions, in order.
pub open spec fn git_world_answers(w: GitWorld) -> Seq<AnswerView> {
    seq![
        AnswerView::Found(w.git_on_path),
        AnswerView::Found(w.exists),
        AnswerView::Found(w.is_dir),
        AnswerView::Found(w.empty),
        AnswerView::Ran { stdout: w.remote_stdout, code: w.remote_code },
    ]
}

/// The status of a git assertion on a machine, as a decision table: an error
/// without `git`; Missing for nothing or an empty directory; a conflict for a
/// file, for a remote that cannot be read, or for another remote; Ok when the
/// clone's remote is the assertion's.
pub open spec fn git_status_on(git: Git, w: GitWorld) -> Result<StatusView, FailureView> {
    if !w.git_on_path {
        Err(FailureView::Message(bin_not_found_message("git"@)))
    } else if !w.exists || (w.is_dir && w.empty) {
        Ok(StatusView::Missing)
    } else if !w.is_dir {
        Ok(conflict("directory"@, "file"@))
    } else if w.remote_code != 0 {
        Ok(conflict("git repo with remote "@ + git.remote_url@, "failed to get remote url"@))
    } else if chomped(w.remote_stdout) == git.remote_url@ {
        Ok(StatusView::Okay)
    } else {
        Ok(conflict(git.remote_url@, "current remote: "@ + chomped(w.remote_stdout)))
    }
}

/// Answered by a machine, a git status check ends with the status that the
/// decision table gives for that machine.
pub proof fn law_git_status_follows_the_machine(git: Git, w: GitWorld)
    ensures
        git.status_plan(git_world_answers(w)) == StepView::Finish(git_status_on(git, w)),
{
}

/// The status of a brew bundle on a machine, as a decision table.
pub open spec fn brew_bundle_status_on(
    on_macos: bool,
    brew_on_path: bool,
    strict_check_code: i32,
    check_code: i32,
) -> Result<StatusView, FailureView> {
    if !on_macos {
        Err(FailureView::Message(not_macos_message()))
    } else if !brew_on_path {
        Err(FailureView::Message(bin_not_found_message("brew"@)))
    } else if strict_check_code != 0 {
        Ok(StatusView::Missing)
    } else if check_code != 0 {
        Ok(conflict("up-to-date packages"@, "packages need upgrade"@))
    } else {
        Ok(StatusView::Okay)
    }
}

/// Answered by a machine, a brew bundle status check ends with the status
/// that the decision table gives for that machine.
pub proof fn law_brew_bundle_status_follows_the_machine(
    bundle: BrewBundle,
    on_macos: bool,
    brew_on_path: bool,
    strict: (Seq<char>, i32),
    check: (Seq<char>, i32),
)
    ensures
        bundle.status_plan(
            on_macos,
            seq![
                AnswerView::Found(brew_on_path),
                AnswerView::Ran { stdout: strict.0, code: strict.1 },
                AnswerView::Ran { stdout: check.0, code: check.1 },
            ],
        ) == StepView::Finish(brew_bundle_status_on(on_macos, brew_on_path, strict.1, check.1)),
{
}

/// The status of a symlink on a machine, as a decision table: Missing when
/// nothing is at the target, Ok when the target links to the source; the
/// other cases are not handled yet.
pub open spec fn symlink_status_on(
    symlink: Symlink,
    exists: bool,
    link: Option<Seq<char>>,
) -> Result<StatusView, FailureView> {
    if !exists {
        Ok(StatusView::Missing)
    } else {
        match link {
            Some(l) => if paths_match(l, symlink.source@) {
                Ok(StatusView::Okay)
            } else {
                Err(
                    FailureView::Unimplemented(
                        symlink.display_spec() + " points to the wrong target"@,
                    ),
                )
            },
            None => Err(
                FailureView::Unimplemented(symlink.display_spec() + " exists but is not a symlink"@),
            ),
        }
    }
}

/// Answered by a machine, a symlink status check ends with the status that
/// the decision table gives for that machine.
pub proof fn law_symlink_status_follows_the_machine(
    symlink: Symlink,
    exists: bool,
    link: Option<Seq<char>>,
)
    ensures
        symlink.status_plan(seq![AnswerView::Found(exists), AnswerView::Link(link)])
            == StepView::Finish(symlink_status_on(symlink, exists, link)),
{
}

/// Installing a symlink where nothing is: the check before gives Missing;
/// the install asks for a link at the target to the source and succeeds once
/// the machine has made it; a machine on which the target now exists and
/// reads back as a link to the source gives Ok.
pub proof fn law_symlink_install_then_status(symlink: Symlink)
    ensures
        symlink.status_plan(seq![AnswerView::Found(false)]) == done(StatusView::Missing),
        symlink.install_plan(seq![]) == ask::<()>(
            RequestView::CreateSymlink { source: symlink.source@, target: symlink.target@ },
        ),
        symlink.install_plan(seq![AnswerView::Done(Ok(()))]) == done(()),
        symlink.status_plan(
            seq![AnswerView::Found(true), AnswerView::Link(Some(symlink.source@))],
        ) == done(StatusView::Okay),
{
}

/// Installing a directory where nothing is: the check before gives Missing;
/// the install asks for the directory and its parents and succeeds once the
/// machine has made them, the same request whatever is there; a machine on
/// which the path is now a directory gives Ok.
pub proof fn law_directory_install_then_status(directory: Directory)
    ensures
        directory.status_plan(seq![AnswerView::Found(false), AnswerView::Found(false)]) == done(
            StatusView::Missing,
        ),
        directory.install_plan(seq![]) == ask::<()>(
            RequestView::CreateDirAll { path: directory.path@ },
        ),
        directory.install_plan(seq![AnswerView::Done(Ok(()))]) == done(()),
        directory.status_plan(seq![AnswerView::Found(true)]) == done(StatusView::Okay),
{
}

/// The machine after `git clone <remote> <dir>` succeeded: `git` is on
/// `PATH`, the directory is there and not empty, and reading the clone's
/// remote prints the remote on a line of its own.
pub open spec fn git_world_after_clone(git: Git) -> GitWorld {
    GitWorld {
        git_on_path: true,
        exists: true,
        is_dir: true,
        empty: false,
        remote_stdout: git.remote_url@ + seq!['\n'],
        remote_code: 0,
    }
}

/// Cloning a repository where nothing is: with `git` on `PATH` the check
/// before gives Missing; the install runs `git clone <remote> <dir>` and
/// succeeds when it exits with 0; the machine after the clone gives Ok. A
/// remote that ends with a line break would not read back as itself, since
/// the printed remote is chomped.
pub proof fn law_git_install_then_status(git: Git, before: GitWorld, clone_stdout: Seq<char>)
    requires
        before.git_on_path,
        !before.exists,
        git.remote_url@.len() > 0 ==> git.remote_url@.last() != '\n' && git.remote_url@.last()
            != '\r',
    ensures
        git.status_plan(git_world_answers(before)) == StepView::Finish(
            Ok::<StatusView, FailureView>(StatusView::Missing),
        ),
        git.install_plan(seq![AnswerView::Found(true)]) == ask::<()>(git.clone_command()),
        git.install_plan(
            seq![AnswerView::Found(true), AnswerView::Ran { stdout: clone_stdout, code: 0 }],
        ) == done(()),
        git.status_plan(git_world_answers(git_world_after_clone(git))) == StepView::Finish(
            Ok::<StatusView, FailureView>(StatusView::Okay),
        ),
{
    let url = git.remote_url@;
    let printed = url + seq!['\n'];
    assert(printed.drop_last() =~= url);
    assert(crate::text::stripped_trailing(printed, '\n') == crate::text::stripped_trailing(
        url,
        '\n',
    ));
    assert(chomped(printed) == url);
    law_git_status_follows_the_machine(git, before);
    law_git_status_follows_the_machine(git, git_world_after_clone(git));
}

/// The two flavours treat a symlink and a directory alike: they ask the
/// same questions and reach the same status or install outcome; only the
/// wording of the cases not handled yet, and of a failed directory install,
/// differs.
pub proof fn law_flavours_agree_but_for_wording(
    symlink: Symlink,
    directory: Directory,
    a: Seq<AnswerView>,
)
    ensures
        symlink.status_plan(a) is Ask ==> symlink.lenient_status_plan(a) == symlink.status_plan(a),
        symlink.status_plan(a) matches StepView::Finish(Ok(_)) ==> symlink.lenient_status_plan(a)
            == symlink.status_plan(a),
        symlink.status_plan(a) is Finish <==> symlink.lenient_status_plan(a) is Finish,
        directory.install_plan(a) is Ask ==> directory.lenient_install_plan(a)
            == directory.install_plan(a),
        directory.install_plan(a) matches StepView::Finish(Ok(_))
            ==> directory.lenient_install_plan(a) == directory.install_plan(a),
        directory.install_plan(a) is Finish <==> directory.lenient_install_plan(a) is Finish,
{
}

/// A type registered from Fennel reports exactly the status that its status
/// function replied, a conflict included, and it asks nothing more.
pub proof fn law_registered_status_is_the_reply<A, F>(
    lua: LuaAssertion<A, F>,
    a: Seq<AnswerView>,
    s: StatusView,
)
    requires
        a.len() >= 1,
        a[0] == AnswerView::StatusReply(Ok(s)),
    ensures
        lua.status_plan(a) == StepView::Finish(Ok::<StatusView, FailureView>(s)),
{
}

/// A directory is Ok only when the path was found to be a directory: the
/// first question asks whether it is one, and no other answer to it leads to
/// Ok. A path that exists but is not a directory is never Ok.
pub proof fn law_directory_ok_only_for_a_directory(directory: Directory, a: Seq<AnswerView>)
    ensures
        directory.status_plan(seq![]) == ask::<StatusView>(
            RequestView::IsDir { path: directory.path@ },
        ),
        directory.status_plan(a) == StepView::Finish(Ok::<StatusView, FailureView>(StatusView::Okay))
            ==> a.len() >= 1 && a[0] == AnswerView::Found(true),
        a.len() >= 2 && a[0] == AnswerView::Found(false) && a[1] == AnswerView::Found(true)
            ==> directory.status_plan(a) is Finish && directory.status_plan(a)->Finish_0 is Err,
        directory.status_plan(a) == StepView::Finish(
            Ok::<StatusView, FailureView>(StatusView::Missing),
        ) ==> a.len() >= 2 && a[0] == AnswerView::Found(false) && a[1] == AnswerView::Found(false),
{
}

/// A git install succeeds only once `git` was found on `PATH` and the clone
/// it then ran exited with 0; without `git` it fails with the message of a
/// missing binary.
pub proof fn law_git_install_needs_a_successful_clone(git: Git, a: Seq<AnswerView>)
    ensures
        git.install_plan(a) == StepView::Finish(Ok::<(), FailureView>(())) ==> a.len() >= 2
            && a[0] == AnswerView::Found(true) && (a[1] matches AnswerView::Ran { code, .. }
            && code == 0),
        a.len() >= 1 && a[0] == AnswerView::Found(false) ==> git.install_plan(a) == StepView::Finish(
            Err::<(), FailureView>(FailureView::Message(bin_not_found_message("git"@))),
        ),
        a.len() == 1 && a[0] == AnswerView::Found(true) ==> git.install_plan(a) == ask::<()>(
            git.clone_command(),
        ),
{
}

/// A registered type's install succeeds exactly when its install function
/// returned without error, and it then asks nothing more.
pub proof fn law_registered_install_is_the_reply<A, F>(lua: LuaAssertion<A, F>, a: Seq<AnswerView>)
    ensures
        lua.install_plan(a) == StepView::Finish(Ok::<(), FailureView>(())) <==> a.len() >= 1 && a[0] is UnitReply
            && a[0]->UnitReply_0 is Ok,
{
}

/// A debug assertion reports the status its status function replied, a
/// conflict included, and Ok when it has none; it installs only through an
/// install function that returned without error.
pub proof fn law_debug_status_is_the_reply<F>(debug: Debug<F>, a: Seq<AnswerView>, s: StatusView)
    ensures
        debug.status_fn is None ==> debug.status_plan(a) == StepView::Finish(
            Ok::<StatusView, FailureView>(StatusView::Okay),
        ),
        debug.status_fn is Some && a.len() >= 1 && a[0] == AnswerView::StatusReply(Ok(s))
            ==> debug.status_plan(a) == StepView::Finish(Ok::<StatusView, FailureView>(s)),
        debug.install_plan(a) == StepView::Finish(Ok::<(), FailureView>(())) ==> debug.install_fn is Some
            && a.len() >= 1 && a[0] is UnitReply && a[0]->UnitReply_0 is Ok,
{
}

/// A symlink is Ok only when its target exists and reads back as a link to
/// the source, and Missing only when nothing is at the target; its install
/// succeeds only when the machine made the link.
pub proof fn law_symlink_ok_only_for_a_link_to_the_source(symlink: Symlink, a: Seq<AnswerView>)
    ensures
        symlink.status_plan(a) == StepView::Finish(Ok::<StatusView, FailureView>(StatusView::Okay))
            ==> a.len() >= 2 && a[0] == AnswerView::Found(true) && (a[1] matches AnswerView::Link(
            Some(l),
        ) && paths_match(l, symlink.source@)),
        symlink.status_plan(a) == StepView::Finish(
            Ok::<StatusView, FailureView>(StatusView::Missing),
        ) ==> a.len() >= 1 && a[0] == AnswerView::Found(false),
        symlink.install_plan(a) == StepView::Finish(Ok::<(), FailureView>(())) ==> a.len() >= 1
            && a[0] is Done && a[0]->Done_0 is Ok,
{
}

} // verus!
