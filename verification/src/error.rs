//! Errors of policy evaluation and construction.
//!
//! [`PolicyDenied`] is the error returned when a policy refuses an operation. It
//! becomes a [`MontyException`] of type `PermissionError`, so that sandboxed code
//! sees a standard Python exception.

use vstd::prelude::*;
use vstd::string::*;

verus! {

/// Error returned when a Cedar policy denies an authorization request.
///
/// It names the action and the resource for diagnostics, and deliberately not the
/// policy text or the policy id, so that a sandboxed script cannot probe the policy.
#[derive(Debug, Clone)]
pub struct PolicyDenied {
    /// The Cedar action that was attempted (e.g. "fs:read").
    pub action: &'static str,
    /// The resource identifier (e.g. a path or a function name).
    pub resource: String,
}

/// The text of a denial: `policy denied action '<action>' on '<resource>'`.
pub open spec fn denied_text(action: Seq<char>, resource: Seq<char>) -> Seq<char> {
    "policy denied action '"@ + action + "' on '"@ + resource + "'"@
}

impl PolicyDenied {
    /// The human-readable message of the denial.
    pub fn to_string(&self) -> (s: String)
        ensures
            s@ == denied_text(self.action@, self.resource@),
    {
        let mut s = "policy denied action '".to_owned();
        s.append(self.action);
        s.append("' on '");
        s.append(self.resource.as_str());
        s.append("'");
        s
    }
}

/// Error returned when a policy cannot be parsed or the schema cannot be loaded.
#[derive(Debug, Clone)]
pub struct PolicyParseError {
    /// Human-readable description of what went wrong.
    pub message: String,
}

impl PolicyParseError {
    /// The human-readable message: `invalid Cedar policy: <message>`.
    pub fn to_string(&self) -> (s: String)
        ensures
            s@ == "invalid Cedar policy: "@ + self.message@,
    {
        let mut s = "invalid Cedar policy: ".to_owned();
        s.append(self.message.as_str());
        s
    }
}

/// The kind of Python exception raised inside the sandbox.
#[derive(Debug, Clone, Copy, PartialEq, Eq)]
pub enum ExcType {
    /// Python's `PermissionError`.
    PermissionError,
}

/// An exception to be raised inside the sandbox: its type and optional message.
#[derive(Debug, Clone)]
pub struct MontyException {
    /// The Python exception type.
    pub exc_type: ExcType,
    /// The exception message, if any.
    pub message: Option<String>,
}

impl MontyException {
    /// Creates an exception of the given type with the given message.
    pub fn new(exc_type: ExcType, message: Option<String>) -> (e: MontyException)
        ensures
            e.exc_type == exc_type,
            e.message == message,
    {
        MontyException { exc_type, message }
    }

    /// The text Python shows for the exception: `PermissionError: <message>`,
    /// or the bare type name when there is no message.
    pub fn to_string(&self) -> (s: String)
        ensures
            s@ == match self.message {
                Some(m) => "PermissionError: "@ + m@,
                None => "PermissionError"@,
            },
    {
        match &self.message {
            Some(m) => {
                let mut s = "PermissionError: ".to_owned();
                s.append(m.as_str());
                s
            },
            None => "PermissionError".to_owned(),
        }
    }
}

impl PolicyDenied {
    /// The exception that sandboxed code sees for this denial: a `PermissionError`
    /// whose message is the denial's text.
    pub fn into_exception(self) -> (e: MontyException)
        ensures
            e.exc_type == ExcType::PermissionError,
            e.message matches Some(m) && m@ == denied_text(self.action@, self.resource@),
    {
        let message = self.to_string();
        MontyException::new(ExcType::PermissionError, Some(message))
    }
}

} // verus!
