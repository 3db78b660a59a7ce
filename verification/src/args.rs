//! The arguments of a command: the command's name, then plain texts.

use std::num::ParseIntError;
use vstd::prelude::*;

use crate::error::CommandError;
use crate::error::ErrorKind;
use crate::radix::literal_body;
use crate::radix::literal_value;

verus! {

#[verifier::external_type_specification]
#[verifier::external_body]
pub struct ExParseIntError(std::num::ParseIntError);

/// Whether `text` writes a signed 64-bit integer in decimal: an optional
/// sign, then decimal digits and nothing else, with a value in range.
pub open spec fn is_i64_literal(text: Seq<char>) -> bool {
    let body = literal_body(text);
    &&& body.len() > 0
    &&& forall|i: int| 0 <= i < body.len() ==> '0' <= (#[trigger] body[i]) && body[i] <= '9'
    &&& i64::MIN <= literal_value(text, 10) <= i64::MAX
}

/// The argument at a position, if there is one.
pub open spec fn arg_at(args: Seq<String>, index: int) -> Option<Seq<char>> {
    if 0 <= index < args.len() {
        Some(args[index]@)
    } else {
        None
    }
}

/// The radix that a command is asked to use: 10 where there is no argument
/// at the position; else the signed 64-bit integer that the argument
/// writes. An argument that writes no such integer is refused as a radix.
pub open spec fn radix_at(args: Seq<String>, index: int) -> Result<int, ErrorKind> {
    match arg_at(args, index) {
        None => Ok(10),
        Some(text) => if is_i64_literal(text) {
            Ok(literal_value(text, 10))
        } else {
            Err(ErrorKind::Radix)
        },
    }
}

/// `str::parse::<i64>` of std. It accepts an optional sign followed by
/// decimal digits only, refuses the empty text, a bare sign, any other
/// character and a value out of range, and returns the number written.
#[verifier::external_body]
fn parse_i64(text: &str) -> (res: Result<i64, ParseIntError>)
    ensures
        res is Ok <==> is_i64_literal(text@),
        res matches Ok(n) ==> n == literal_value(text@, 10),
{
    text.parse::<i64>()
}

/// The text at a position; `WrongArity` where the command was given too few
/// arguments.
pub fn string_arg(args: &Vec<String>, index: usize) -> (res: Result<&String, CommandError>)
    ensures
        match res {
            Ok(text) => arg_at(args@, index as int) == Some(text@) && *text == args@[index as int],
            Err(error) => error == CommandError::WrongArity && arg_at(args@, index as int) is None,
        },
{
    if index < args.len() {
        Ok(&args[index])
    } else {
        Err(CommandError::WrongArity)
    }
}

/// The signed 64-bit integer at a position; `WrongArity` where there is no
/// argument, `ArgumentParseError` where it is no such integer.
pub fn integer_arg(args: &Vec<String>, index: usize) -> (res: Result<i64, CommandError>)
    ensures
        match res {
            Ok(n) => arg_at(args@, index as int) matches Some(text) && is_i64_literal(text) && n
                == literal_value(text, 10),
            Err(CommandError::WrongArity) => arg_at(args@, index as int) is None,
            Err(CommandError::ArgumentParseError) => arg_at(args@, index as int) matches Some(text)
                && !is_i64_literal(text),
            Err(_) => false,
        },
{
    if index < args.len() {
        match parse_i64(args[index].as_str()) {
            Ok(n) => Ok(n),
            Err(_) => Err(CommandError::ArgumentParseError),
        }
    } else {
        Err(CommandError::WrongArity)
    }
}

/// The radix asked for at a position: 10 where the argument is left out,
/// `RadixError` where it is given and is no signed 64-bit integer.
pub fn radix_arg(args: &Vec<String>, index: usize) -> (res: Result<i64, CommandError>)
    ensures
        match res {
            Ok(radix) => radix_at(args@, index as int) == Ok::<int, ErrorKind>(radix as int),
            Err(error) => error == CommandError::RadixError && radix_at(args@, index as int)
                == Err::<int, ErrorKind>(ErrorKind::Radix),
        },
{
    if index < args.len() {
        match parse_i64(args[index].as_str()) {
            Ok(radix) => Ok(radix),
            Err(_) => Err(CommandError::RadixError),
        }
    } else {
        Ok(10)
    }
}

} // verus!
