//! What the management API decides: how the numbers in a request are read,
//! and what a caller is told when a request cannot be served.
//!
//! Nothing here receives or sends. The server hands over the texts it took
//! from a request and the answers it got from the game, and is handed back
//! numbers, units of work and messages.

use vstd::prelude::*;
use vstd::string::StringExecFns;

use crate::id::{EntityKind, WeakId};
use crate::instance::RemoveEntityError;
use crate::messages::{Command, Request};
use crate::text::{decimal, decimal_string};

verus! {

/// Whether `c` is one of the ten decimal digits.
pub open spec fn is_digit(c: char) -> bool {
    '0' <= c <= '9'
}

/// The number that a run of decimal digits stands for.
pub open spec fn digits_value(digits: Seq<char>) -> nat
    decreases digits.len(),
{
    if digits.len() == 0 {
        0
    } else {
        digits_value(digits.drop_last()) * 10 + (digits.last() as u32 - '0' as u32) as nat
    }
}

/// The number that `text` stands for as a decimal numeral: an optional `+`
/// followed by one or more decimal digits and nothing else. Any other text
/// stands for none.
pub open spec fn numeral(text: Seq<char>) -> Option<nat> {
    let digits = if text.len() > 0 && text[0] == '+' {
        text.drop_first()
    } else {
        text
    };
    if digits.len() > 0 && forall|i: int| 0 <= i < digits.len() ==> is_digit(#[trigger] digits[i]) {
        Some(digits_value(digits))
    } else {
        None
    }
}

/// Whether `text` stands for a number that fits in 64 bits.
pub open spec fn is_number(text: Seq<char>) -> bool {
    numeral(text) matches Some(value) && value <= u64::MAX
}

/// The words in which the standard library says why it does not read `text`
/// as a number.
pub uninterp spec fn parse_failure(text: Seq<char>) -> Seq<char>;

/// Reads `text` as a 64-bit number, with `str::parse`.
///
/// Trusted: that `str::parse::<u64>` accepts exactly an optional `+`
/// followed by one or more decimal digits whose value fits in 64 bits, and
/// answers with that value; and that what its error says depends on the text
/// alone. What the error says is not stated, only named.
#[verifier::external_body]
fn parse_u64(text: &str) -> (parsed: Result<u64, String>)
    ensures
        match parsed {
            Ok(value) => numeral(text@) == Some(value as nat),
            Err(reason) => !is_number(text@) && reason@ == parse_failure(text@),
        },
{
    match text.parse::<u64>() {
        Ok(value) => Ok(value),
        Err(error) => Err(error.to_string()),
    }
}

/// What a caller is told about a number that cannot be read: `label` says
/// which number of the request it is.
pub open spec fn invalid_number(label: Seq<char>, text: Seq<char>) -> Seq<char> {
    "ERROR: invalid "@ + label + " "@ + text + ": "@ + parse_failure(text)
}

/// What a caller is told when no instance has the number `instance`.
pub open spec fn missing_instance(instance: u64) -> Seq<char> {
    "ERROR: Non existent instance id "@ + decimal(instance as nat)
}

/// What a caller is told when the entity `entity` of the instance `instance`
/// was not removed.
pub open spec fn not_removed(error: RemoveEntityError, entity: u64, instance: u64) -> Seq<char> {
    match error {
        RemoveEntityError::NotFound => "ERROR: Entity "@ + decimal(entity as nat)
            + " not found in instance "@ + decimal(instance as nat),
        RemoveEntityError::IsPlayer => "ERROR: Entity "@ + decimal(entity as nat)
            + " is a player"@,
    }
}

/// Reads the number `text` of a request; `label` names it in the message
/// that goes back where it cannot be read.
pub fn parse_id(label: &str, text: &str) -> (parsed: Result<u64, String>)
    ensures
        match parsed {
            Ok(value) => is_number(text@) && numeral(text@) == Some(value as nat),
            Err(message) => !is_number(text@) && message@ == invalid_number(label@, text@),
        },
{
    match parse_u64(text) {
        Ok(value) => Ok(value),
        Err(reason) => {
            let message = String::from_str("ERROR: invalid ").concat(label).concat(" ").concat(
                text,
            ).concat(": ").concat(reason.as_str());
            Err(message)
        },
    }
}

/// The message for a caller who named an instance that does not exist.
pub fn missing_instance_message(instance: u64) -> (message: String)
    ensures
        message@ == missing_instance(instance),
{
    String::from_str("ERROR: Non existent instance id ").concat(
        decimal_string(instance).as_str(),
    )
}

/// The unit of work that a request to list the entities of an instance asks
/// for, or the message for a caller whose instance number cannot be read.
pub fn entities_request(instance: &str) -> (request: Result<Request, String>)
    ensures
        match request {
            Ok(Request::ForInstance { instance: number, command: Command::GetEntities }) => {
                numeral(instance@) == Some(number as nat)
            },
            Ok(_) => false,
            Err(message) => !is_number(instance@) && message@ == invalid_number("id"@, instance@),
        },
{
    match parse_id("id", instance) {
        Ok(number) => Ok(Request::ForInstance { instance: number, command: Command::GetEntities }),
        Err(message) => Err(message),
    }
}

/// The unit of work that a request to remove an entity asks for, or the
/// message for a caller whose numbers cannot be read. The instance's number
/// is read first.
pub fn entity_delete_request(instance: &str, entity: &str) -> (request: Result<Request, String>)
    ensures
        match request {
            Ok(Request::ForInstance { instance: number, command: Command::RemoveEntity(id) }) => {
                &&& numeral(instance@) == Some(number as nat)
                &&& numeral(entity@) == Some(id@ as nat)
            },
            Ok(_) => false,
            Err(message) => if is_number(instance@) {
                !is_number(entity@) && message@ == invalid_number("entity id"@, entity@)
            } else {
                message@ == invalid_number("instance id"@, instance@)
            },
        },
{
    let instance_id = match parse_id("instance id", instance) {
        Ok(number) => number,
        Err(message) => {
            return Err(message);
        },
    };
    let entity_id = match parse_id("entity id", entity) {
        Ok(number) => number,
        Err(message) => {
            return Err(message);
        },
    };
    Ok(
        Request::ForInstance {
            instance: instance_id,
            command: Command::RemoveEntity(WeakId::new(entity_id)),
        },
    )
}

/// What the caller of a removal is told: `answer` is what came back, `Err`
/// where no instance had the number.
pub fn entity_delete_result(
    entity: WeakId<EntityKind>,
    instance: u64,
    answer: Result<Result<(), RemoveEntityError>, ()>,
) -> (result: Result<(), String>)
    ensures
        match answer {
            Ok(Ok(())) => result is Ok,
            Ok(Err(error)) => result matches Err(message) && message@ == not_removed(
                error,
                entity@,
                instance,
            ),
            Err(()) => result matches Err(message) && message@ == missing_instance(instance),
        },
{
    match answer {
        Ok(Ok(())) => Ok(()),
        Ok(Err(RemoveEntityError::NotFound)) => Err(
            String::from_str("ERROR: Entity ").concat(
                decimal_string(entity.as_u64()).as_str(),
            ).concat(" not found in instance ").concat(decimal_string(instance).as_str()),
        ),
        Ok(Err(RemoveEntityError::IsPlayer)) => Err(
            String::from_str("ERROR: Entity ").concat(
                decimal_string(entity.as_u64()).as_str(),
            ).concat(" is a player"),
        ),
        Err(()) => Err(missing_instance_message(instance)),
    }
}

} // verus!
