//! The status of an assertion and how a Lua function's reply is read as one.
use vstd::prelude::*;

verus! {

/// What an assertion found that differs from what it expects.
#[derive(Debug, Clone, PartialEq, Eq)]
pub struct Conflict {
    pub expected: String,
    pub actual: String,
}

/// The mathematical form of a [`Conflict`].
pub struct ConflictView {
    pub expected: Seq<char>,
    pub actual: Seq<char>,
}

impl View for Conflict {
    type V = ConflictView;

    open spec fn view(&self) -> ConflictView {
        ConflictView { expected: self.expected@, actual: self.actual@ }
    }
}

/// Whether an assertion holds on the system.
#[derive(Debug, Clone, PartialEq, Eq)]
pub enum Status {
    /// It holds (`ok`).
    Okay,
    /// What it asserts is absent.
    Missing,
    /// Something is there but differs; an upgrade can bring it in line.
    ConflictUpgrade(Conflict),
}

/// The mathematical form of a [`Status`].
pub enum StatusView {
    Okay,
    Missing,
    ConflictUpgrade(ConflictView),
}

impl View for Status {
    type V = StatusView;

    open spec fn view(&self) -> StatusView {
        match self {
            Status::Okay => StatusView::Okay,
            Status::Missing => StatusView::Missing,
            Status::ConflictUpgrade(c) => StatusView::ConflictUpgrade(c@),
        }
    }
}

/// Why the values a status function returned are not a status.
#[derive(Debug, Clone, PartialEq, Eq)]
pub enum StatusReplyError {
    /// A string and a conflict table, where the string is not `conflict-upgrade`.
    ConflictWithoutUpgrade,
    /// A single string that names no status.
    InvalidString(String),
    /// Neither a string nor a string and a conflict table.
    Unreadable,
}

/// The mathematical form of a [`StatusReplyError`].
pub enum StatusReplyFailure {
    ConflictWithoutUpgrade,
    InvalidString(Seq<char>),
    Unreadable,
}

impl View for StatusReplyError {
    type V = StatusReplyFailure;

    open spec fn view(&self) -> StatusReplyFailure {
        match self {
            StatusReplyError::ConflictWithoutUpgrade => StatusReplyFailure::ConflictWithoutUpgrade,
            StatusReplyError::InvalidString(s) => StatusReplyFailure::InvalidString(s@),
            StatusReplyError::Unreadable => StatusReplyFailure::Unreadable,
        }
    }
}

/// The status that a status function's reply stands for. `first` is the first
/// value read as a string, `second` the second value read as a conflict table;
/// each is `None` where the value cannot be read so.
pub open spec fn status_of_reply(first: Option<Seq<char>>, second: Option<ConflictView>) -> Result<
    StatusView,
    StatusReplyFailure,
> {
    match (first, second) {
        (Some(s), Some(c)) => if s == "conflict-upgrade"@ {
            Ok(StatusView::ConflictUpgrade(c))
        } else {
            Err(StatusReplyFailure::ConflictWithoutUpgrade)
        },
        (Some(s), None) => if s == "ok"@ {
            Ok(StatusView::Okay)
        } else if s == "missing"@ {
            Ok(StatusView::Missing)
        } else {
            Err(StatusReplyFailure::InvalidString(s))
        },
        (None, _) => Err(StatusReplyFailure::Unreadable),
    }
}

/// The name of the kind of Lua value a [`StatusReplyFailure`] was converted from.
pub open spec fn reply_failure_source(f: StatusReplyFailure) -> Seq<char> {
    match f {
        StatusReplyFailure::InvalidString(_) => "string"@,
        _ => "multivalue"@,
    }
}

/// The message of a [`StatusReplyFailure`].
pub open spec fn reply_failure_message(f: StatusReplyFailure) -> Seq<char> {
    match f {
        StatusReplyFailure::ConflictWithoutUpgrade =>
            "String + conflict combination only supported for conflict-upgrade"@,
        StatusReplyFailure::InvalidString(s) => "Invalid status string: '"@ + s + "'"@,
        StatusReplyFailure::Unreadable =>
            "Expected single string or conflict-upgrade with table"@,
    }
}

pub open spec fn opt_view(s: Option<String>) -> Option<Seq<char>> {
    match s {
        Some(t) => Some(t@),
        None => None,
    }
}

pub open spec fn opt_conflict_view(c: Option<Conflict>) -> Option<ConflictView> {
    match c {
        Some(t) => Some(t@),
        None => None,
    }
}

impl StatusReplyError {
    /// The kind of Lua value the reply was converted from: `string` for a
    /// single string that names no status, `multivalue` otherwise.
    pub fn source(&self) -> (r: &'static str)
        ensures
            r@ == reply_failure_source(self@),
    {
        match self {
            StatusReplyError::InvalidString(_) => "string",
            _ => "multivalue",
        }
    }

    /// What is wrong with the reply.
    pub fn message(&self) -> (r: String)
        ensures
            r@ == reply_failure_message(self@),
    {
        match self {
            StatusReplyError::ConflictWithoutUpgrade => String::from_str(
                "String + conflict combination only supported for conflict-upgrade",
            ),
            StatusReplyError::InvalidString(s) => String::from_str("Invalid status string: '").concat(
                s.as_str(),
            ).concat("'"),
            StatusReplyError::Unreadable => String::from_str(
                "Expected single string or conflict-upgrade with table",
            ),
        }
    }
}

impl Conflict {
    /// A copy of this conflict.
    pub fn duplicate(&self) -> (r: Conflict)
        ensures
            r@ == self@,
    {
        Conflict { expected: self.expected.clone(), actual: self.actual.clone() }
    }
}

impl Status {
    /// A copy of this status.
    pub fn duplicate(&self) -> (r: Status)
        ensures
            r@ == self@,
    {
        match self {
            Status::Okay => Status::Okay,
            Status::Missing => Status::Missing,
            Status::ConflictUpgrade(c) => Status::ConflictUpgrade(c.duplicate()),
        }
    }

    /// Reads a status from what a status function returned: `"ok"`,
    /// `"missing"`, or `"conflict-upgrade"` followed by a conflict table.
    pub fn from_reply(first: Option<String>, second: Option<Conflict>) -> (r: Result<
        Status,
        StatusReplyError,
    >)
        ensures
            match r {
                Ok(s) => status_of_reply(opt_view(first), opt_conflict_view(second)) == Ok::<
                    StatusView,
                    StatusReplyFailure,
                >(s@),
                Err(e) => status_of_reply(opt_view(first), opt_conflict_view(second)) == Err::<
                    StatusView,
                    StatusReplyFailure,
                >(e@),
            },
    {
        match first {
            Some(s) => match second {
                Some(c) => {
                    if crate::text::str_eq(s.as_str(), "conflict-upgrade") {
                        Ok(Status::ConflictUpgrade(c))
                    } else {
                        Err(StatusReplyError::ConflictWithoutUpgrade)
                    }
                },
                None => {
                    if crate::text::str_eq(s.as_str(), "ok") {
                        Ok(Status::Okay)
                    } else if crate::text::str_eq(s.as_str(), "missing") {
                        Ok(Status::Missing)
                    } else {
                        Err(StatusReplyError::InvalidString(s))
                    }
                },
            },
            None => Err(StatusReplyError::Unreadable),
        }
    }
}

/// A reply is a conflict exactly when it is `conflict-upgrade` followed by a
/// conflict table, and it is Ok or Missing only for the single strings `ok`
/// and `missing`.
pub proof fn law_reply_statuses(first: Option<Seq<char>>, second: Option<ConflictView>)
    ensures
        status_of_reply(first, second) matches Ok(StatusView::ConflictUpgrade(c)) ==> first == Some(
            "conflict-upgrade"@,
        ) && second == Some(c),
        status_of_reply(first, second) == Ok::<StatusView, StatusReplyFailure>(StatusView::Okay)
            ==> first == Some("ok"@) && second is None,
        status_of_reply(first, second) == Ok::<StatusView, StatusReplyFailure>(StatusView::Missing)
            ==> first == Some("missing"@) && second is None,
{
}

} // verus!
