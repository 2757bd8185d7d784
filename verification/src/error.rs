//! What can go wrong, and how the native layer's error codes are read.
use crate::text::{decimal, decimal_i64, decimal_u64, NulError};
use vstd::prelude::*;
use vstd::string::StringExecFns;

verus! {

/// The code for success.
pub const NIX_OK: i32 = 0;

/// The code for an error of unknown kind.
pub const NIX_ERR_UNKNOWN: i32 = -1;

/// The code for an overflow.
pub const NIX_ERR_OVERFLOW: i32 = -2;

/// The code for a key that was not found.
pub const NIX_ERR_KEY: i32 = -3;

/// The code for an error of the evaluator or the store.
pub const NIX_ERR_NIX_ERROR: i32 = -4;

/// The errors of the bindings.
#[derive(Debug, PartialEq, Eq)]
pub enum Error {
    /// An error of unknown kind, with what is known of it.
    Unknown(String),
    /// An overflow in the native layer.
    Overflow,
    /// A key that was not found.
    KeyNotFound(String),
    /// An evaluation that failed, with the evaluator's message.
    EvalError(String),
    /// A value of another type than the one asked for.
    InvalidType {
        /// The type asked for.
        expected: &'static str,
        /// The type the value has.
        actual: String,
    },
    /// A native call that returned no object.
    NullPointer,
    /// A string with a nul byte inside, which no C string can hold.
    StringConversion(NulError),
}

/// An error as plain values.
pub enum ErrorView {
    Unknown(Seq<char>),
    Overflow,
    KeyNotFound(Seq<char>),
    EvalError(Seq<char>),
    InvalidType { expected: Seq<char>, actual: Seq<char> },
    NullPointer,
    StringConversion { position: int, bytes: Seq<u8> },
}

impl View for Error {
    type V = ErrorView;

    open spec fn view(&self) -> ErrorView {
        match self {
            Error::Unknown(message) => ErrorView::Unknown(message@),
            Error::Overflow => ErrorView::Overflow,
            Error::KeyNotFound(key) => ErrorView::KeyNotFound(key@),
            Error::EvalError(message) => ErrorView::EvalError(message@),
            Error::InvalidType { expected, actual } => ErrorView::InvalidType {
                expected: expected@,
                actual: actual@,
            },
            Error::NullPointer => ErrorView::NullPointer,
            Error::StringConversion(e) => ErrorView::StringConversion {
                position: e.position as int,
                bytes: e.bytes@,
            },
        }
    }
}

impl ErrorView {
    /// The line that tells a user of the error.
    pub open spec fn text(self) -> Seq<char> {
        match self {
            ErrorView::Unknown(message) => "Unknown error: "@ + message,
            ErrorView::Overflow => "Overflow error"@,
            ErrorView::KeyNotFound(key) => "Key not found: "@ + key,
            ErrorView::EvalError(message) => "Evaluation error: "@ + message,
            ErrorView::InvalidType { expected, actual } => "Invalid type: expected "@ + expected
                + ", got "@ + actual,
            ErrorView::NullPointer => "Null pointer error"@,
            ErrorView::StringConversion { position, bytes } =>
                "String conversion error: nul byte found in provided data at position: "@
                + decimal(position),
        }
    }
}

/// The error that a code and the context's message stand for; none for the code of success.
///
/// The message is the context's own where it has one. Where it has none, the
/// error says which kind it is, or, for a code without a kind, gives the code.
pub open spec fn translate(code: i32, message: Option<Seq<char>>) -> Option<ErrorView> {
    if code == NIX_OK {
        None
    } else if code == NIX_ERR_UNKNOWN {
        Some(ErrorView::Unknown(message.unwrap_or("Unknown error"@)))
    } else if code == NIX_ERR_OVERFLOW {
        Some(ErrorView::Overflow)
    } else if code == NIX_ERR_KEY {
        Some(ErrorView::KeyNotFound(message.unwrap_or("Key not found"@)))
    } else if code == NIX_ERR_NIX_ERROR {
        Some(ErrorView::EvalError(message.unwrap_or("Evaluation error"@)))
    } else {
        Some(ErrorView::Unknown(message.unwrap_or("Error code: "@ + decimal(code as int))))
    }
}

fn or_text(message: Option<String>, fallback: &str) -> (s: String)
    ensures
        s@ == option_text(message).unwrap_or(fallback@),
{
    match message {
        Some(m) => m,
        None => String::from_str(fallback),
    }
}

/// Reads a native error code, with the message that the context holds for it.
pub fn check_err(code: i32, message: Option<String>) -> (r: Result<(), Error>)
    ensures
        match translate(code, option_text(message)) {
            None => r is Ok,
            Some(e) => r matches Err(err) && err@ == e,
        },
{
    if code == NIX_OK {
        Ok(())
    } else if code == NIX_ERR_UNKNOWN {
        Err(Error::Unknown(or_text(message, "Unknown error")))
    } else if code == NIX_ERR_OVERFLOW {
        Err(Error::Overflow)
    } else if code == NIX_ERR_KEY {
        Err(Error::KeyNotFound(or_text(message, "Key not found")))
    } else if code == NIX_ERR_NIX_ERROR {
        Err(Error::EvalError(or_text(message, "Evaluation error")))
    } else {
        match message {
            Some(m) => Err(Error::Unknown(m)),
            None => {
                let mut text = String::from_str("Error code: ");
                text.append(decimal_i64(code as i64).as_str());
                Err(Error::Unknown(text))
            },
        }
    }
}

/// The text of an optional string.
pub open spec fn option_text(message: Option<String>) -> Option<Seq<char>> {
    match message {
        Some(m) => Some(m@),
        None => None,
    }
}

impl Error {
    /// The line that tells a user of the error.
    pub fn message(&self) -> (s: String)
        ensures
            s@ == self@.text(),
    {
        match self {
            Error::Unknown(message) => {
                let mut s = String::from_str("Unknown error: ");
                s.append(message.as_str());
                s
            },
            Error::Overflow => String::from_str("Overflow error"),
            Error::KeyNotFound(key) => {
                let mut s = String::from_str("Key not found: ");
                s.append(key.as_str());
                s
            },
            Error::EvalError(message) => {
                let mut s = String::from_str("Evaluation error: ");
                s.append(message.as_str());
                s
            },
            Error::InvalidType { expected, actual } => {
                let mut s = String::from_str("Invalid type: expected ");
                s.append(expected);
                s.append(", got ");
                s.append(actual.as_str());
                s
            },
            Error::NullPointer => String::from_str("Null pointer error"),
            Error::StringConversion(e) => {
                let mut s = String::from_str(
                    "String conversion error: nul byte found in provided data at position: ",
                );
                s.append(decimal_u64(e.position as u64).as_str());
                s
            },
        }
    }
}

} // verus!
