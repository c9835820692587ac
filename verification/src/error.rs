//! The errors that frork reports to Fennel scripts, and how an error that a
//! Lua call raised is turned into one of them.
use vstd::prelude::*;

verus! {

/// An error raised while running an assertion from Fennel.
#[derive(Debug, Clone, PartialEq, Eq)]
pub enum FrorkError {
    NoOperation,
    UnknownAssertionType { assertion_type: String },
    InvalidArguments(String),
    MissingAssertionType,
    Lua(String),
}

/// The mathematical form of a [`FrorkError`].
pub enum FrorkFailure {
    NoOperation,
    UnknownAssertionType { assertion_type: Seq<char> },
    InvalidArguments(Seq<char>),
    MissingAssertionType,
    Lua(Seq<char>),
}

impl View for FrorkError {
    type V = FrorkFailure;

    open spec fn view(&self) -> FrorkFailure {
        match self {
            FrorkError::NoOperation => FrorkFailure::NoOperation,
            FrorkError::UnknownAssertionType { assertion_type } => {
                FrorkFailure::UnknownAssertionType { assertion_type: assertion_type@ }
            },
            FrorkError::InvalidArguments(m) => FrorkFailure::InvalidArguments(m@),
            FrorkError::MissingAssertionType => FrorkFailure::MissingAssertionType,
            FrorkError::Lua(m) => FrorkFailure::Lua(m@),
        }
    }
}

/// The message a [`FrorkFailure`] is reported with.
pub open spec fn frork_message(e: FrorkFailure) -> Seq<char> {
    match e {
        FrorkFailure::NoOperation => "No operation specified"@,
        FrorkFailure::UnknownAssertionType { assertion_type } => "Unknown assertion type: "@
            + assertion_type,
        FrorkFailure::InvalidArguments(m) => "Invalid arguments: "@ + m,
        FrorkFailure::MissingAssertionType => "Missing assertion type"@,
        FrorkFailure::Lua(m) => "Lua error: "@ + m,
    }
}

/// What frork reads of an error that a Lua call raised.
#[derive(Debug, Clone)]
pub struct LuaErrorInfo {
    /// How the error displays.
    pub display: String,
    /// Set when the error was raised by a Rust callback that Lua called.
    pub callback: Option<CallbackCause>,
}

/// The cause of an error raised inside a Rust callback.
#[derive(Debug, Clone)]
pub struct CallbackCause {
    /// The cause itself, where it is a [`FrorkError`].
    pub frork: Option<FrorkError>,
    /// How the cause displays.
    pub display: String,
}

/// The [`FrorkError`] that an error of a Lua call becomes: a [`FrorkError`]
/// raised in a callback is kept as it was, any other callback cause is
/// reported as a callback error, and every other error by its display.
pub open spec fn from_lua_spec(e: LuaErrorInfo) -> FrorkFailure {
    match e.callback {
        Some(c) => match c.frork {
            Some(f) => f@,
            None => FrorkFailure::Lua("Callback error: "@ + c.display@),
        },
        None => FrorkFailure::Lua(e.display@),
    }
}

impl FrorkError {
    /// The message this error is reported with.
    pub fn message(&self) -> (r: String)
        ensures
            r@ == frork_message(self@),
    {
        match self {
            FrorkError::NoOperation => String::from_str("No operation specified"),
            FrorkError::UnknownAssertionType { assertion_type } => String::from_str(
                "Unknown assertion type: ",
            ).concat(assertion_type.as_str()),
            FrorkError::InvalidArguments(m) => String::from_str("Invalid arguments: ").concat(
                m.as_str(),
            ),
            FrorkError::MissingAssertionType => String::from_str("Missing assertion type"),
            FrorkError::Lua(m) => String::from_str("Lua error: ").concat(m.as_str()),
        }
    }

    /// A copy of this error.
    pub fn duplicate(&self) -> (r: FrorkError)
        ensures
            r@ == self@,
    {
        match self {
            FrorkError::NoOperation => FrorkError::NoOperation,
            FrorkError::UnknownAssertionType { assertion_type } => FrorkError::UnknownAssertionType {
                assertion_type: assertion_type.clone(),
            },
            FrorkError::InvalidArguments(m) => FrorkError::InvalidArguments(m.clone()),
            FrorkError::MissingAssertionType => FrorkError::MissingAssertionType,
            FrorkError::Lua(m) => FrorkError::Lua(m.clone()),
        }
    }

    /// The error that an error of a Lua call becomes.
    pub fn from_lua(err: &LuaErrorInfo) -> (r: FrorkError)
        ensures
            r@ == from_lua_spec(*err),
    {
        match &err.callback {
            Some(cause) => match &cause.frork {
                Some(f) => f.duplicate(),
                None => FrorkError::Lua(
                    String::from_str("Callback error: ").concat(cause.display.as_str()),
                ),
            },
            None => FrorkError::Lua(err.display.clone()),
        }
    }
}

/// A [`FrorkError`] raised by a callback reaches the script unchanged.
pub proof fn law_callback_frork_error_is_preserved(err: LuaErrorInfo, f: FrorkError)
    requires
        err.callback matches Some(c) && c.frork == Some(f),
    ensures
        from_lua_spec(err) == f@,
{
}

} // verus!
