//! Turning a value that may be missing into a `Result` with a message that
//! says what was asked for.

use vstd::prelude::*;
use vstd::string::StringExecFns;

verus! {

/// What the host says of a value that it threw.
#[derive(Clone, Debug, PartialEq, Eq)]
pub enum ThrownShape {
    /// The value is a string: its text.
    Text(String),
    /// The value is an object: its JSON text, where the host could give one.
    Object(Option<String>),
    /// The value is neither.
    Other,
}

/// A value that the host threw, described in plain text.
#[derive(Clone, Debug, PartialEq, Eq)]
pub struct Thrown {
    /// What kind of value it is.
    pub shape: ThrownShape,
    /// The value as the host prints it for debugging.
    pub debug: String,
}

impl Thrown {
    /// How the value is reported: a string by its text, an object by its
    /// JSON text or as `[object]` where it has none, anything else as it is
    /// printed for debugging.
    pub open spec fn report(self) -> Seq<char> {
        match self.shape {
            ThrownShape::Text(text) => text@,
            ThrownShape::Object(Some(json)) => json@,
            ThrownShape::Object(None) => "[object]"@,
            ThrownShape::Other => self.debug@,
        }
    }

    /// How the value is reported.
    pub fn describe(self) -> (text: String)
        ensures
            text@ == self.report(),
    {
        match self.shape {
            ThrownShape::Text(text) => text,
            ThrownShape::Object(Some(json)) => json,
            ThrownShape::Object(None) => String::from_str("[object]"),
            ThrownShape::Other => self.debug,
        }
    }
}

/// The message for a value that is missing: what was asked for, a colon, and
/// why it is missing.
pub open spec fn complaint_text(msg: Seq<char>, reason: Seq<char>) -> Seq<char> {
    msg + ": "@ + reason
}

/// The message for a value that is missing.
pub fn complaint(msg: &str, reason: &str) -> (text: String)
    ensures
        text@ == complaint_text(msg@, reason@),
{
    let mut text = String::from_str(msg);
    text.append(": ");
    text.append(reason);
    text
}

/// A value that may be missing, and that says why where it is.
pub trait Require<T>: Sized {
    /// The value, where there is one.
    spec fn held(self) -> Option<T>;

    /// Why there is none.
    spec fn reason(self) -> Seq<char>;

    /// Hands out the value, or an error that reads `msg`, a colon and the
    /// reason why there is none.
    fn require(self, msg: &str) -> (required: Result<T, String>)
        ensures
            match self.held() {
                Some(value) => required == Ok::<T, String>(value),
                None => required is Err && required->Err_0@ == complaint_text(
                    msg@,
                    self.reason(),
                ),
            },
    ;
}

impl<T> Require<T> for Option<T> {
    open spec fn held(self) -> Option<T> {
        self
    }

    open spec fn reason(self) -> Seq<char> {
        "None"@
    }

    fn require(self, msg: &str) -> (required: Result<T, String>) {
        match self {
            Some(value) => Ok(value),
            None => Err(complaint(msg, "None")),
        }
    }
}

impl<T> Require<T> for Result<T, Thrown> {
    open spec fn held(self) -> Option<T> {
        match self {
            Ok(value) => Some(value),
            Err(_) => None,
        }
    }

    open spec fn reason(self) -> Seq<char> {
        match self {
            Ok(_) => Seq::empty(),
            Err(thrown) => thrown.report(),
        }
    }

    fn require(self, msg: &str) -> (required: Result<T, String>) {
        match self {
            Ok(value) => Ok(value),
            Err(thrown) => {
                let reason = thrown.describe();
                Err(complaint(msg, reason.as_str()))
            },
        }
    }
}

impl<T> Require<T> for Result<Option<T>, Thrown> {
    open spec fn held(self) -> Option<T> {
        match self {
            Ok(Some(value)) => Some(value),
            _ => None,
        }
    }

    open spec fn reason(self) -> Seq<char> {
        match self {
            Ok(_) => "None"@,
            Err(thrown) => thrown.debug@,
        }
    }

    fn require(self, msg: &str) -> (required: Result<T, String>) {
        match self {
            Ok(Some(value)) => Ok(value),
            Ok(None) => Err(complaint(msg, "None")),
            Err(thrown) => Err(complaint(msg, thrown.debug.as_str())),
        }
    }
}

} // verus!
