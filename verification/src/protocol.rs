//! The exchange between an assertion and the host that runs it. An assertion
//! decides, from the answers it has had so far, what to ask the host next or
//! what its result is; the host performs each request (running a command,
//! looking at the file system, calling a Lua function) and hands the answer
//! back.
use vstd::prelude::*;

use crate::error::{FrorkError, FrorkFailure, LuaErrorInfo};
use crate::status::{Status, StatusView};
use crate::text::views;

verus! {

/// One of the Lua functions of an assertion type.
#[derive(Debug, Clone, Copy, PartialEq, Eq)]
pub enum LuaFn {
    Display,
    Status,
    Install,
    Upgrade,
}

/// Outside work that an assertion asks the host for.
#[derive(Debug)]
pub enum Request {
    /// Whether `which` finds `bin` on `PATH`; an error running `which` is an
    /// error of the assertion. Answered by [`Answer::Found`].
    FindBin { bin: String },
    /// Whether `which` finds `bin` on `PATH`; an error running `which` counts
    /// as not found. Answered by [`Answer::Found`].
    HasBin { bin: String },
    /// Runs `cmd` with `args` and the extra environment `envs`. Answered by
    /// [`Answer::Ran`].
    Run { cmd: String, args: Vec<String>, envs: Vec<(String, String)> },
    /// Whether anything exists at `path`. Answered by [`Answer::Found`].
    Exists { path: String },
    /// Whether `path` is a directory. Answered by [`Answer::Found`].
    IsDir { path: String },
    /// Whether the directory `path` has no entries. Answered by [`Answer::Found`].
    IsEmptyDir { path: String },
    /// Where the symbolic link at `path` points, if it is one. Answered by
    /// [`Answer::Link`].
    ReadLink { path: String },
    /// Creates a symbolic link at `target` that points to `source`. Answered
    /// by [`Answer::Done`].
    CreateSymlink { source: String, target: String },
    /// Creates the directory `path` and its parents. Answered by [`Answer::Done`].
    CreateDirAll { path: String },
    /// Calls one of the assertion's Lua functions, with the assertion's
    /// arguments or with none. Answered by [`Answer::StatusReply`],
    /// [`Answer::UnitReply`] or [`Answer::TextReply`].
    CallLua { function: LuaFn, with_args: bool },
    /// How each of the assertion's arguments displays. Answered by
    /// [`Answer::ArgTexts`].
    DescribeArgs,
}

/// The mathematical form of a [`Request`].
pub enum RequestView {
    FindBin { bin: Seq<char> },
    HasBin { bin: Seq<char> },
    Run { cmd: Seq<char>, args: Seq<Seq<char>>, envs: Seq<(Seq<char>, Seq<char>)> },
    Exists { path: Seq<char> },
    IsDir { path: Seq<char> },
    IsEmptyDir { path: Seq<char> },
    ReadLink { path: Seq<char> },
    CreateSymlink { source: Seq<char>, target: Seq<char> },
    CreateDirAll { path: Seq<char> },
    CallLua { function: LuaFn, with_args: bool },
    DescribeArgs,
}

pub open spec fn pair_views(v: Seq<(String, String)>) -> Seq<(Seq<char>, Seq<char>)> {
    v.map_values(|p: (String, String)| (p.0@, p.1@))
}

impl View for Request {
    type V = RequestView;

    open spec fn view(&self) -> RequestView {
        match self {
            Request::FindBin { bin } => RequestView::FindBin { bin: bin@ },
            Request::HasBin { bin } => RequestView::HasBin { bin: bin@ },
            Request::Run { cmd, args, envs } => RequestView::Run {
                cmd: cmd@,
                args: views(args@),
                envs: pair_views(envs@),
            },
            Request::Exists { path } => RequestView::Exists { path: path@ },
            Request::IsDir { path } => RequestView::IsDir { path: path@ },
            Request::IsEmptyDir { path } => RequestView::IsEmptyDir { path: path@ },
            Request::ReadLink { path } => RequestView::ReadLink { path: path@ },
            Request::CreateSymlink { source, target } => RequestView::CreateSymlink {
                source: source@,
                target: target@,
            },
            Request::CreateDirAll { path } => RequestView::CreateDirAll { path: path@ },
            Request::CallLua { function, with_args } => RequestView::CallLua {
                function: *function,
                with_args: *with_args,
            },
            Request::DescribeArgs => RequestView::DescribeArgs,
        }
    }
}

/// The host's answer to a [`Request`].
#[derive(Debug)]
pub enum Answer {
    /// Whether the binary, path or directory asked about was found.
    Found(bool),
    /// What a command printed on stdout, and its exit code.
    Ran { stdout: String, code: i32 },
    /// Where a symbolic link points; `None` when the path is not a link.
    Link(Option<String>),
    /// Whether a change to the file system succeeded; the error's message if not.
    Done(Result<(), String>),
    /// What a Lua status function returned, read as a status.
    StatusReply(Result<Status, LuaErrorInfo>),
    /// Whether a Lua function without a result succeeded.
    UnitReply(Result<(), LuaErrorInfo>),
    /// What a Lua function returned, read as a string.
    TextReply(Result<String, LuaErrorInfo>),
    /// How each argument displays; `None` for one that has no display.
    ArgTexts(Vec<Option<String>>),
}

/// The mathematical form of an [`Answer`].
pub enum AnswerView {
    Found(bool),
    Ran { stdout: Seq<char>, code: i32 },
    Link(Option<Seq<char>>),
    Done(Result<(), Seq<char>>),
    StatusReply(Result<StatusView, LuaErrorInfo>),
    UnitReply(Result<(), LuaErrorInfo>),
    TextReply(Result<Seq<char>, LuaErrorInfo>),
    ArgTexts(Seq<Option<Seq<char>>>),
}

pub open spec fn opt_texts(v: Seq<Option<String>>) -> Seq<Option<Seq<char>>> {
    v.map_values(|o: Option<String>| crate::status::opt_view(o))
}

impl View for Answer {
    type V = AnswerView;

    open spec fn view(&self) -> AnswerView {
        match self {
            Answer::Found(b) => AnswerView::Found(*b),
            Answer::Ran { stdout, code } => AnswerView::Ran { stdout: stdout@, code: *code },
            Answer::Link(l) => AnswerView::Link(crate::status::opt_view(*l)),
            Answer::Done(r) => AnswerView::Done(
                match r {
                    Ok(()) => Ok(()),
                    Err(e) => Err(e@),
                },
            ),
            Answer::StatusReply(r) => AnswerView::StatusReply(
                match r {
                    Ok(s) => Ok(s@),
                    Err(e) => Err(*e),
                },
            ),
            Answer::UnitReply(r) => AnswerView::UnitReply(*r),
            Answer::TextReply(r) => AnswerView::TextReply(
                match r {
                    Ok(s) => Ok(s@),
                    Err(e) => Err(*e),
                },
            ),
            Answer::ArgTexts(t) => AnswerView::ArgTexts(opt_texts(t@)),
        }
    }
}

/// The views of a sequence of answers.
pub open spec fn answer_views(a: Seq<Answer>) -> Seq<AnswerView> {
    a.map_values(|x: Answer| x@)
}

/// Why an assertion's operation failed.
#[derive(Debug)]
pub enum Failure {
    /// An error reported with this message.
    Message(String),
    /// An error of a Lua assertion type.
    Frork(FrorkError),
    /// A case that is not implemented yet, described by the message.
    Unimplemented(String),
    /// An answer that does not fit the request it answers.
    Unexpected,
}

/// The mathematical form of a [`Failure`].
pub enum FailureView {
    Message(Seq<char>),
    Frork(FrorkFailure),
    Unimplemented(Seq<char>),
    Unexpected,
}

impl View for Failure {
    type V = FailureView;

    open spec fn view(&self) -> FailureView {
        match self {
            Failure::Message(m) => FailureView::Message(m@),
            Failure::Frork(e) => FailureView::Frork(e@),
            Failure::Unimplemented(m) => FailureView::Unimplemented(m@),
            Failure::Unexpected => FailureView::Unexpected,
        }
    }
}

/// What an assertion does next: ask the host, or finish with a result.
#[derive(Debug)]
pub enum Step<T> {
    Ask(Request),
    Finish(Result<T, Failure>),
}

/// The mathematical form of a [`Step`].
pub enum StepView<V> {
    Ask(RequestView),
    Finish(Result<V, FailureView>),
}

impl<T: View> View for Step<T> {
    type V = StepView<T::V>;

    open spec fn view(&self) -> StepView<T::V> {
        match self {
            Step::Ask(r) => StepView::Ask(r@),
            Step::Finish(Ok(t)) => StepView::Finish(Ok(t@)),
            Step::Finish(Err(f)) => StepView::Finish(Err(f@)),
        }
    }
}

pub open spec fn ask<V>(r: RequestView) -> StepView<V> {
    StepView::Ask(r)
}

pub open spec fn done<V>(v: V) -> StepView<V> {
    StepView::Finish(Ok(v))
}

pub open spec fn failed<V>(f: FailureView) -> StepView<V> {
    StepView::Finish(Err(f))
}

pub open spec fn unexpected<V>() -> StepView<V> {
    StepView::Finish(Err(FailureView::Unexpected))
}

/// Converts string slices to owned strings.
pub fn to_strings(parts: &[&str]) -> (r: Vec<String>)
    ensures
        views(r@) == parts@.map_values(|p: &str| p@),
{
    let mut r: Vec<String> = Vec::new();
    let mut i: usize = 0;
    while i < parts.len()
        invariant
            i <= parts@.len(),
            views(r@) == parts@.take(i as int).map_values(|p: &str| p@),
        decreases parts@.len() - i,
    {
        let ghost before = r@;
        r.push(String::from_str(parts[i]));
        assert(views(r@) =~= views(before).push(parts@[i as int]@));
        assert(parts@.take(i + 1) =~= parts@.take(i as int).push(parts@[i as int]));
        assert(views(r@) =~= parts@.take(i + 1).map_values(|p: &str| p@));
        i = i + 1;
    }
    assert(parts@.take(i as int) =~= parts@);
    r
}

/// Whether a fact asked about was found, if `a` answers such a question.
pub fn found(a: &Answer) -> (r: Option<bool>)
    ensures
        r == (match a@ {
            AnswerView::Found(b) => Some(b),
            _ => None,
        }),
{
    match a {
        Answer::Found(b) => Some(*b),
        _ => None,
    }
}

} // verus!
