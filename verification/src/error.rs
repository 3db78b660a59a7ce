//! The reasons for which a command is refused.

use vstd::prelude::*;
use vstd::string::*;

verus! {

/// Why a command was refused. Nothing is changed when one of these is returned.
#[derive(Debug, PartialEq, Eq)]
pub enum CommandError {
    /// The command was given fewer arguments than it needs.
    WrongArity,
    /// The requested radix lies outside `2..=36`.
    RadixError,
    /// The text is no integer literal in the requested radix; the string says why.
    ParseError(String),
    /// The key holds a value of another type.
    WrongTypeError,
    /// The command needs an integer at a key that holds nothing.
    MissingKeyError,
    /// A command on two distinct keys was given the same key twice.
    SelfOperationError,
    /// An argument that must be a signed 64-bit integer is none.
    ArgumentParseError,
}

/// The kinds of refusal, without what a refusal carries along.
#[derive(Debug, Clone, Copy, PartialEq, Eq, Structural)]
pub enum ErrorKind {
    WrongArity,
    Radix,
    Parse,
    WrongType,
    MissingKey,
    SelfOperation,
    ArgumentParse,
}

impl CommandError {
    pub open spec fn kind_spec(&self) -> ErrorKind {
        match self {
            CommandError::WrongArity => ErrorKind::WrongArity,
            CommandError::RadixError => ErrorKind::Radix,
            CommandError::ParseError(_) => ErrorKind::Parse,
            CommandError::WrongTypeError => ErrorKind::WrongType,
            CommandError::MissingKeyError => ErrorKind::MissingKey,
            CommandError::SelfOperationError => ErrorKind::SelfOperation,
            CommandError::ArgumentParseError => ErrorKind::ArgumentParse,
        }
    }

    /// The kind of this refusal.
    #[verifier::when_used_as_spec(kind_spec)]
    pub fn kind(&self) -> (kind: ErrorKind)
        ensures
            kind == self.kind_spec(),
    {
        match self {
            CommandError::WrongArity => ErrorKind::WrongArity,
            CommandError::RadixError => ErrorKind::Radix,
            CommandError::ParseError(_) => ErrorKind::Parse,
            CommandError::WrongTypeError => ErrorKind::WrongType,
            CommandError::MissingKeyError => ErrorKind::MissingKey,
            CommandError::SelfOperationError => ErrorKind::SelfOperation,
            CommandError::ArgumentParseError => ErrorKind::ArgumentParse,
        }
    }

    /// The text that the caller of a refused command is shown.
    pub open spec fn message_spec(self) -> Seq<char> {
        match self {
            CommandError::WrongArity => "wrong number of arguments"@,
            CommandError::RadixError => "invalid radix provided, must be between 2 and 36"@,
            CommandError::ParseError(detail) => "error while parsing input: "@ + detail@,
            CommandError::WrongTypeError => "operation against a key holding the wrong kind of value"@,
            CommandError::MissingKeyError => "target key does not exist"@,
            CommandError::SelfOperationError => "adding a value to itself is not allowed"@,
            CommandError::ArgumentParseError => "couldn't parse as integer"@,
        }
    }

    pub fn message(&self) -> (text: String)
        ensures
            text@ == self.message_spec(),
    {
        match self {
            CommandError::WrongArity => String::from_str("wrong number of arguments"),
            CommandError::RadixError => String::from_str(
                "invalid radix provided, must be between 2 and 36",
            ),
            CommandError::ParseError(detail) => String::from_str(
                "error while parsing input: ",
            ).concat(detail.as_str()),
            CommandError::WrongTypeError => String::from_str(
                "operation against a key holding the wrong kind of value",
            ),
            CommandError::MissingKeyError => String::from_str("target key does not exist"),
            CommandError::SelfOperationError => String::from_str(
                "adding a value to itself is not allowed",
            ),
            CommandError::ArgumentParseError => String::from_str("couldn't parse as integer"),
        }
    }
}

} // verus!
