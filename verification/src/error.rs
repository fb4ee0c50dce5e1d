//! What can go wrong while a token is issued or checked.
//!
//! Input errors are the caller's: something is missing, malformed or out of
//! date. A process error means that the token itself could not be decoded or
//! did not carry a valid signature; its cause is kept as text only.

use vstd::prelude::*;
use vstd::string::*;

verus! {

/// A fault in what the caller sent.
#[derive(Debug)]
pub enum InputError {
    MissingHeader(String),
    MissingBody,
    MissingField(String),
    InvalidHeader { name: String },
    ParsingError(String),
    ExpiredToken,
}

/// A failure of the token layer.
#[derive(Debug)]
pub enum ProcessError {
    JWTError(String),
}

/// Any error of issuing or checking.
#[derive(Debug)]
pub enum AuthError {
    Input(InputError),
    Process(ProcessError),
}

/// An `InputError` with its texts as sequences.
pub enum InputFault {
    MissingHeader(Seq<char>),
    MissingBody,
    MissingField(Seq<char>),
    InvalidHeader { name: Seq<char> },
    ParsingError(Seq<char>),
    ExpiredToken,
}

/// A `ProcessError` with its text as a sequence.
pub enum ProcessFault {
    JWTError(Seq<char>),
}

/// An `AuthError` with its texts as sequences.
pub enum AuthFault {
    Input(InputFault),
    Process(ProcessFault),
}

impl View for InputError {
    type V = InputFault;

    open spec fn view(&self) -> InputFault {
        match self {
            InputError::MissingHeader(name) => InputFault::MissingHeader(name@),
            InputError::MissingBody => InputFault::MissingBody,
            InputError::MissingField(name) => InputFault::MissingField(name@),
            InputError::InvalidHeader { name } => InputFault::InvalidHeader { name: name@ },
            InputError::ParsingError(name) => InputFault::ParsingError(name@),
            InputError::ExpiredToken => InputFault::ExpiredToken,
        }
    }
}

impl View for ProcessError {
    type V = ProcessFault;

    open spec fn view(&self) -> ProcessFault {
        match self {
            ProcessError::JWTError(text) => ProcessFault::JWTError(text@),
        }
    }
}

impl View for AuthError {
    type V = AuthFault;

    open spec fn view(&self) -> AuthFault {
        match self {
            AuthError::Input(e) => AuthFault::Input(e@),
            AuthError::Process(e) => AuthFault::Process(e@),
        }
    }
}

/// `name` between the opening text `before` and a closing single quote.
pub open spec fn quoted(before: Seq<char>, name: Seq<char>) -> Seq<char> {
    before + name + "'"@
}

impl InputFault {
    /// The message of the fault.
    pub open spec fn message(self) -> Seq<char> {
        match self {
            InputFault::MissingHeader(name) => quoted("Missing Header: '"@, name),
            InputFault::MissingBody => "Missing Body"@,
            InputFault::MissingField(name) => quoted("Missing Field: '"@, name),
            InputFault::InvalidHeader { name } => quoted("Invalid Header: '"@, name),
            InputFault::ParsingError(name) => quoted("Could Not Parse Field: '"@, name),
            InputFault::ExpiredToken => "Expired Token"@,
        }
    }
}

impl ProcessFault {
    /// The message of the fault.
    pub open spec fn message(self) -> Seq<char> {
        match self {
            ProcessFault::JWTError(text) => quoted("JWT Error: '"@, text),
        }
    }
}

impl AuthFault {
    /// The message of the fault: that of the error inside.
    pub open spec fn message(self) -> Seq<char> {
        match self {
            AuthFault::Input(e) => e.message(),
            AuthFault::Process(e) => e.message(),
        }
    }
}

/// `before`, then `name`, then a closing single quote.
fn quote(before: &str, name: &String) -> (r: String)
    ensures
        r@ == quoted(before@, name@),
{
    let mut r = String::from_str(before);
    r.append(name.as_str());
    r.append("'");
    r
}

impl InputError {
    /// The message of the error.
    pub fn to_string(&self) -> (r: String)
        ensures
            r@ == self@.message(),
    {
        match self {
            InputError::MissingHeader(name) => quote("Missing Header: '", name),
            InputError::MissingBody => String::from_str("Missing Body"),
            InputError::MissingField(name) => quote("Missing Field: '", name),
            InputError::InvalidHeader { name } => quote("Invalid Header: '", name),
            InputError::ParsingError(name) => quote("Could Not Parse Field: '", name),
            InputError::ExpiredToken => String::from_str("Expired Token"),
        }
    }
}

impl ProcessError {
    /// The message of the error.
    pub fn to_string(&self) -> (r: String)
        ensures
            r@ == self@.message(),
    {
        match self {
            ProcessError::JWTError(text) => quote("JWT Error: '", text),
        }
    }
}

impl AuthError {
    /// The message of the error: that of the error inside.
    pub fn to_string(&self) -> (r: String)
        ensures
            r@ == self@.message(),
    {
        match self {
            AuthError::Input(e) => e.to_string(),
            AuthError::Process(e) => e.to_string(),
        }
    }
}

} // verus!
