//! The six commands on integers of the key space.
//!
//! Each command takes the key space and its arguments as the host hands them
//! over: the command's name first, then the texts that follow it. What a
//! command does is stated once, as a function on the key space's view, and
//! the command is held to it.

use vstd::prelude::*;

use crate::args::integer_arg;
use crate::args::is_i64_literal;
use crate::args::radix_arg;
use crate::args::radix_at;
use crate::args::string_arg;
use crate::error::CommandError;
use crate::error::ErrorKind;
use crate::keyspace::KeySpace;
use crate::keyspace::StoredView;
use crate::radix::check_radix;
use crate::radix::is_literal;
use crate::radix::literal_value;
use crate::radix::parse;
use crate::radix::render;
use crate::radix::valid_radix;

verus! {

/// What a command answers when it is not refused.
#[derive(Debug, PartialEq, Eq)]
pub enum Reply {
    /// Nothing: the command was carried out, or the key asked for is not bound.
    Nothing,
    /// A text.
    Text(String),
}

impl View for Reply {
    type V = Option<Seq<char>>;

    open spec fn view(&self) -> Option<Seq<char>> {
        match self {
            Reply::Nothing => None,
            Reply::Text(text) => Some(text@),
        }
    }
}

/// The key space that a command leaves behind, and what it answers.
pub struct Outcome {
    pub space: Map<Seq<char>, StoredView>,
    pub reply: Option<Seq<char>>,
}

/// Whether a command did what was expected of it: on success the key space
/// and the answer are the expected ones; on refusal the error is of the
/// expected kind and the key space is as it was.
pub open spec fn conforms(
    before: Map<Seq<char>, StoredView>,
    after: Map<Seq<char>, StoredView>,
    res: Result<Reply, CommandError>,
    expected: Result<Outcome, ErrorKind>,
) -> bool {
    match expected {
        Ok(outcome) => {
            &&& res matches Ok(reply)
            &&& reply@ == outcome.reply
            &&& after == outcome.space
        },
        Err(kind) => {
            &&& res matches Err(error)
            &&& error.kind() == kind
            &&& after == before
        },
    }
}

/// The integer at a key, as the arithmetic commands need it: the key must be
/// bound, and to an integer.
pub open spec fn integer_at(space: Map<Seq<char>, StoredView>, key: Seq<char>) -> Result<
    int,
    ErrorKind,
> {
    if !space.contains_key(key) {
        Err(ErrorKind::MissingKey)
    } else {
        match space[key] {
            StoredView::BigInteger(value) => Ok(value),
            StoredView::Native(_) => Err(ErrorKind::WrongType),
        }
    }
}

/// Setting a key to the integer that `text` writes in `radix`. The radix is
/// judged first, then the kind of what the key holds, then the text.
pub open spec fn set_spec(
    space: Map<Seq<char>, StoredView>,
    key: Seq<char>,
    text: Seq<char>,
    radix: int,
) -> Result<Outcome, ErrorKind> {
    if !valid_radix(radix) {
        Err(ErrorKind::Radix)
    } else if space.contains_key(key) && space[key] is Native {
        Err(ErrorKind::WrongType)
    } else if !is_literal(text, radix) {
        Err(ErrorKind::Parse)
    } else {
        Ok(
            Outcome {
                space: space.insert(key, StoredView::BigInteger(literal_value(text, radix))),
                reply: None,
            },
        )
    }
}

/// Reading the integer at a key, written in `radix`; nothing where the key
/// is not bound.
pub open spec fn get_spec(space: Map<Seq<char>, StoredView>, key: Seq<char>, radix: int) -> Result<
    Outcome,
    ErrorKind,
> {
    if !valid_radix(radix) {
        Err(ErrorKind::Radix)
    } else if !space.contains_key(key) {
        Ok(Outcome { space, reply: None })
    } else {
        match space[key] {
            StoredView::BigInteger(value) => Ok(Outcome { space, reply: Some(render(value, radix)) }),
            StoredView::Native(_) => Err(ErrorKind::WrongType),
        }
    }
}

/// Adding the integer at `other` to the integer at `target`. The two keys
/// must differ; the target is judged before the other key.
pub open spec fn add_spec(
    space: Map<Seq<char>, StoredView>,
    target: Seq<char>,
    other: Seq<char>,
) -> Result<Outcome, ErrorKind> {
    if target == other {
        Err(ErrorKind::SelfOperation)
    } else {
        match integer_at(space, target) {
            Err(kind) => Err(kind),
            Ok(sum) => match integer_at(space, other) {
                Err(kind) => Err(kind),
                Ok(addend) => Ok(
                    Outcome {
                        space: space.insert(target, StoredView::BigInteger(sum + addend)),
                        reply: None,
                    },
                ),
            },
        }
    }
}

/// Adding `amount` to the integer at `target`.
pub open spec fn addint_spec(space: Map<Seq<char>, StoredView>, target: Seq<char>, amount: int) -> Result<
    Outcome,
    ErrorKind,
> {
    match integer_at(space, target) {
        Err(kind) => Err(kind),
        Ok(value) => Ok(
            Outcome { space: space.insert(target, StoredView::BigInteger(value + amount)), reply: None },
        ),
    }
}

/// Adding one to the integer at `target`.
pub open spec fn inc_spec(space: Map<Seq<char>, StoredView>, target: Seq<char>) -> Result<
    Outcome,
    ErrorKind,
> {
    addint_spec(space, target, 1)
}

/// Subtracting one from the integer at `target`.
pub open spec fn dec_spec(space: Map<Seq<char>, StoredView>, target: Seq<char>) -> Result<
    Outcome,
    ErrorKind,
> {
    addint_spec(space, target, -1)
}

/// `set` on its arguments: a key, a text, and perhaps a radix. A radix
/// argument that is no integer is refused before anything else is judged.
pub open spec fn set_request(space: Map<Seq<char>, StoredView>, args: Seq<String>) -> Result<
    Outcome,
    ErrorKind,
> {
    if args.len() < 3 {
        Err(ErrorKind::WrongArity)
    } else {
        match radix_at(args, 3) {
            Err(kind) => Err(kind),
            Ok(radix) => set_spec(space, args[1]@, args[2]@, radix),
        }
    }
}

/// `get` on its arguments: a key, and perhaps a radix. A radix argument
/// that is no integer is refused before anything else is judged.
pub open spec fn get_request(space: Map<Seq<char>, StoredView>, args: Seq<String>) -> Result<
    Outcome,
    ErrorKind,
> {
    if args.len() < 2 {
        Err(ErrorKind::WrongArity)
    } else {
        match radix_at(args, 2) {
            Err(kind) => Err(kind),
            Ok(radix) => get_spec(space, args[1]@, radix),
        }
    }
}

/// `add` on its arguments: the target key and the other key.
pub open spec fn add_request(space: Map<Seq<char>, StoredView>, args: Seq<String>) -> Result<
    Outcome,
    ErrorKind,
> {
    if args.len() < 3 {
        Err(ErrorKind::WrongArity)
    } else {
        add_spec(space, args[1]@, args[2]@)
    }
}

/// `addint` on its arguments: the target key and a signed 64-bit integer.
/// The integer is judged before the key.
pub open spec fn addint_request(space: Map<Seq<char>, StoredView>, args: Seq<String>) -> Result<
    Outcome,
    ErrorKind,
> {
    if args.len() < 3 {
        Err(ErrorKind::WrongArity)
    } else if !is_i64_literal(args[2]@) {
        Err(ErrorKind::ArgumentParse)
    } else {
        addint_spec(space, args[1]@, literal_value(args[2]@, 10))
    }
}

/// `inc` on its arguments: the target key.
pub open spec fn inc_request(space: Map<Seq<char>, StoredView>, args: Seq<String>) -> Result<
    Outcome,
    ErrorKind,
> {
    if args.len() < 2 {
        Err(ErrorKind::WrongArity)
    } else {
        inc_spec(space, args[1]@)
    }
}

/// `dec` on its arguments: the target key.
pub open spec fn dec_request(space: Map<Seq<char>, StoredView>, args: Seq<String>) -> Result<
    Outcome,
    ErrorKind,
> {
    if args.len() < 2 {
        Err(ErrorKind::WrongArity)
    } else {
        dec_spec(space, args[1]@)
    }
}

/// Binds a key to the integer that a text writes in a radix, 10 where none
/// is given. An integer that the key holds is overwritten in place.
pub fn set(space: &mut KeySpace, args: Vec<String>) -> (res: Result<Reply, CommandError>)
    requires
        old(space).wf(),
    ensures
        final(space).wf(),
        conforms(old(space)@, final(space)@, res, set_request(old(space)@, args@)),
{
    let key = match string_arg(&args, 1) {
        Ok(key) => key,
        Err(error) => { return Err(error); },
    };
    let text = match string_arg(&args, 2) {
        Ok(text) => text,
        Err(error) => { return Err(error); },
    };
    let radix = match radix_arg(&args, 3) {
        Ok(radix) => radix,
        Err(error) => { return Err(error); },
    };
    if let Err(error) = check_radix(radix) {
        return Err(error);
    }
    let ghost before = space@;
    match space.get_typed_mut(key) {
        Err(error) => Err(error),
        Ok(Some(slot)) => match parse(text.as_str(), radix) {
            Ok(value) => {
                *slot = value;
                Ok(Reply::Nothing)
            },
            Err(error) => {
                assert(before.insert(key@, StoredView::BigInteger(slot@)) =~= before);
                Err(error)
            },
        },
        Ok(None) => match parse(text.as_str(), radix) {
            Ok(value) => {
                space.create_typed(key, value);
                Ok(Reply::Nothing)
            },
            Err(error) => Err(error),
        },
    }
}

/// Answers the integer at a key, written in a radix, 10 where none is
/// given; nothing where the key is not bound.
pub fn get(space: &KeySpace, args: Vec<String>) -> (res: Result<Reply, CommandError>)
    requires
        space.wf(),
    ensures
        conforms(space@, space@, res, get_request(space@, args@)),
{
    let key = match string_arg(&args, 1) {
        Ok(key) => key,
        Err(error) => { return Err(error); },
    };
    let radix = match radix_arg(&args, 2) {
        Ok(radix) => radix,
        Err(error) => { return Err(error); },
    };
    if let Err(error) = check_radix(radix) {
        return Err(error);
    }
    match space.get_typed(key) {
        Err(error) => Err(error),
        Ok(None) => Ok(Reply::Nothing),
        Ok(Some(value)) => match crate::radix::format(value, radix) {
            Ok(text) => Ok(Reply::Text(text)),
            Err(error) => Err(error),
        },
    }
}

/// Adds `amount` to the integer at `key`, in place.
fn add_to_key(space: &mut KeySpace, key: &String, amount: i64) -> (res: Result<Reply, CommandError>)
    requires
        old(space).wf(),
    ensures
        final(space).wf(),
        conforms(old(space)@, final(space)@, res, addint_spec(old(space)@, key@, amount as int)),
{
    match space.get_typed_mut(key) {
        Err(error) => Err(error),
        Ok(None) => Err(CommandError::MissingKeyError),
        Ok(Some(slot)) => {
            slot.add_int(amount);
            Ok(Reply::Nothing)
        },
    }
}

/// Adds the integer at the second key to the integer at the first, in
/// place. The second key keeps its value. The same key twice is refused.
pub fn add(space: &mut KeySpace, args: Vec<String>) -> (res: Result<Reply, CommandError>)
    requires
        old(space).wf(),
    ensures
        final(space).wf(),
        conforms(old(space)@, final(space)@, res, add_request(old(space)@, args@)),
{
    let target = match string_arg(&args, 1) {
        Ok(key) => key,
        Err(error) => { return Err(error); },
    };
    let other = match string_arg(&args, 2) {
        Ok(key) => key,
        Err(error) => { return Err(error); },
    };
    if *target == *other {
        return Err(CommandError::SelfOperationError);
    }
    match space.get_typed(target) {
        Err(error) => { return Err(error); },
        Ok(None) => { return Err(CommandError::MissingKeyError); },
        Ok(Some(_)) => {},
    }
    let addend = match space.get_typed(other) {
        Err(error) => { return Err(error); },
        Ok(None) => { return Err(CommandError::MissingKeyError); },
        Ok(Some(value)) => value.clone(),
    };
    match space.get_typed_mut(target) {
        Err(error) => Err(error),
        Ok(None) => Err(CommandError::MissingKeyError),
        Ok(Some(slot)) => {
            slot.add_assign(&addend);
            Ok(Reply::Nothing)
        },
    }
}

/// Adds a signed 64-bit integer, given as decimal text, to the integer at a
/// key, in place.
pub fn addint(space: &mut KeySpace, args: Vec<String>) -> (res: Result<Reply, CommandError>)
    requires
        old(space).wf(),
    ensures
        final(space).wf(),
        conforms(old(space)@, final(space)@, res, addint_request(old(space)@, args@)),
{
    let target = match string_arg(&args, 1) {
        Ok(key) => key,
        Err(error) => { return Err(error); },
    };
    let amount = match integer_arg(&args, 2) {
        Ok(amount) => amount,
        Err(error) => { return Err(error); },
    };
    add_to_key(space, target, amount)
}

/// Adds one to the integer at a key, in place.
pub fn inc(space: &mut KeySpace, args: Vec<String>) -> (res: Result<Reply, CommandError>)
    requires
        old(space).wf(),
    ensures
        final(space).wf(),
        conforms(old(space)@, final(space)@, res, inc_request(old(space)@, args@)),
{
    let target = match string_arg(&args, 1) {
        Ok(key) => key,
        Err(error) => { return Err(error); },
    };
    match space.get_typed_mut(target) {
        Err(error) => Err(error),
        Ok(None) => Err(CommandError::MissingKeyError),
        Ok(Some(slot)) => {
            slot.increment();
            Ok(Reply::Nothing)
        },
    }
}

/// Subtracts one from the integer at a key, in place.
pub fn dec(space: &mut KeySpace, args: Vec<String>) -> (res: Result<Reply, CommandError>)
    requires
        old(space).wf(),
    ensures
        final(space).wf(),
        conforms(old(space)@, final(space)@, res, dec_request(old(space)@, args@)),
{
    let target = match string_arg(&args, 1) {
        Ok(key) => key,
        Err(error) => { return Err(error); },
    };
    match space.get_typed_mut(target) {
        Err(error) => Err(error),
        Ok(None) => Err(CommandError::MissingKeyError),
        Ok(Some(slot)) => {
            slot.decrement();
            Ok(Reply::Nothing)
        },
    }
}

} // verus!
