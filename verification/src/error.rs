//! The error taxonomy: configuration-time validation failures and per-tick
//! read failures.

use vstd::prelude::*;
use vstd::string::*;

use crate::text;

pub use crate::validate::ValidationError;

verus! {

/// A type of error.
///
/// `Io` carries the message of an input failure met while obtaining a raw
/// reading; `Parse` carries the raw text that could not be read as a
/// percentage; `Validation` wraps a configuration-time check that failed.
#[derive(Debug, PartialEq)]
pub enum Error {
    Io(String),
    Parse(String),
    Validation(ValidationError),
}

impl ValidationError {
    /// The rendered description of this validation failure.
    pub open spec fn message_spec(&self) -> Seq<char> {
        match self {
            ValidationError::GreaterThanZero => "must be greater than zero"@,
            ValidationError::Max(m) => "cannot be greater than "@ + text::u8_chars(*m),
            ValidationError::Order(l, r) => "left value ("@ + text::u8_chars(*l)
                + ") must be less than right value ("@ + text::u8_chars(*r) + ")"@,
            ValidationError::Required(name) => "property '"@ + name@ + "' is required"@,
        }
    }

    /// Describes this validation failure, as `message_spec` states.
    pub fn message(&self) -> (s: String)
        ensures
            s@ == self.message_spec(),
    {
        match self {
            ValidationError::GreaterThanZero => String::from_str("must be greater than zero"),
            ValidationError::Max(m) => {
                let s = String::from_str("cannot be greater than ").concat(
                    text::u8_string(*m).as_str(),
                );
                proof {
                    assert(s@ =~= self.message_spec());
                }
                s
            },
            ValidationError::Order(l, r) => {
                let s = String::from_str("left value (").concat(text::u8_string(*l).as_str())
                    .concat(") must be less than right value (").concat(
                    text::u8_string(*r).as_str(),
                ).concat(")");
                proof {
                    assert(s@ =~= self.message_spec());
                }
                s
            },
            ValidationError::Required(name) => {
                let s = String::from_str("property '").concat(name.as_str()).concat(
                    "' is required",
                );
                proof {
                    assert(s@ =~= self.message_spec());
                }
                s
            },
        }
    }
}

impl From<ValidationError> for Error {
    /// A failed validation is an error in its own right.
    fn from(e: ValidationError) -> (r: Self) {
        Error::Validation(e)
    }
}

impl vstd::std_specs::convert::FromSpecImpl<ValidationError> for Error {
    open spec fn obeys_from_spec() -> bool {
        true
    }

    open spec fn from_spec(e: ValidationError) -> Error {
        Error::Validation(e)
    }
}

impl Error {
    /// The rendered description of this error, used as the detail of an
    /// alert about a failed reading.
    pub open spec fn message_spec(&self) -> Seq<char> {
        match self {
            Error::Io(detail) => "I/O Error: "@ + detail@,
            Error::Parse(raw) => "Parsing Error: "@ + raw@,
            Error::Validation(e) => "Validation Error: "@ + e.message_spec(),
        }
    }

    /// Describes this error, as `message_spec` states.
    pub fn message(&self) -> (s: String)
        ensures
            s@ == self.message_spec(),
    {
        match self {
            Error::Io(detail) => {
                let s = String::from_str("I/O Error: ").concat(detail.as_str());
                proof {
                    assert(s@ =~= self.message_spec());
                }
                s
            },
            Error::Parse(raw) => {
                let s = String::from_str("Parsing Error: ").concat(raw.as_str());
                proof {
                    assert(s@ =~= self.message_spec());
                }
                s
            },
            Error::Validation(e) => {
                let s = String::from_str("Validation Error: ").concat(e.message().as_str());
                proof {
                    assert(s@ =~= self.message_spec());
                }
                s
            },
        }
    }
}

} // verus!
