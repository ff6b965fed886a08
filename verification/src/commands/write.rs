//! Turning `REGISTER=VALUE` arguments into the register to write and the value text, the write
//! request for a register, and what the device's answer to it says.
use crate::commands::read::index_for_address;
use crate::register_table::{table_name, REGISTER_COUNT};
use crate::modbus::{Operation, Response, ResponseKind};
use crate::registers::{parsed_address_fits, word_of_value, RegisterIndex, Value};
use crate::text::{chars_of, first_split, parse_u16, parsed_u16, split_once, string_of_chars, string_of_str};
use vstd::prelude::*;

verus! {

/// Why a write argument names no register.
pub enum WriteError {
    /// The argument has no `=`.
    RegisterMalformed(String),
    /// The register part is an address at which no register is known.
    RegisterAddressUnknown(u16),
    /// The register part is neither an address nor a register name.
    RegisterNotFound(String),
}

/// The separator of register and value.
pub open spec fn assignment() -> Seq<char> {
    seq!['=']
}

/// What the register part of a write argument names: a known register by decimal address, or
/// the first register with that name.
pub open spec fn target_outcome(register: Seq<char>, value: Seq<char>, r: Result<
    (RegisterIndex, String),
    WriteError,
>) -> bool {
    match parsed_u16(register) {
        Some(a) => if index_for_address(a, None) {
            r matches Err(WriteError::RegisterAddressUnknown(x)) && x == a
        } else {
            r matches Ok((i, v)) && index_for_address(a, Some(i)) && v@ == value
        },
        None => {
            ||| r matches Ok((i, v)) && {
                &&& 0 <= i.index() < REGISTER_COUNT
                &&& table_name(i.index())@ == register
                &&& forall|j: int| 0 <= j < i.index() ==> table_name(j)@ != register
                &&& v@ == value
            }
            ||| {
                &&& forall|j: int| 0 <= j < REGISTER_COUNT ==> table_name(j)@ != register
                &&& r matches Err(WriteError::RegisterNotFound(s)) && s@ == register
            }
        },
    }
}

/// Splits a write argument `REGISTER=VALUE` at its first `=` and finds the register: by decimal
/// address, which must be a known register's, or by name. Returns the register and the value
/// text.
pub fn parse_write_argument(argument: &str) -> (r: Result<(RegisterIndex, String), WriteError>)
    requires
        first_split(argument@, assignment()) matches Some((register, _)) ==> parsed_address_fits(
            register,
        ),
    ensures
        first_split(argument@, assignment()) is None ==> (r matches Err(
            WriteError::RegisterMalformed(s),
        ) && s@ == argument@),
        first_split(argument@, assignment()) matches Some((register, value)) ==> target_outcome(
            register,
            value,
            r,
        ),
{
    let chars = chars_of(argument);
    proof {
        reveal_strlit("=");
    }
    let separator = chars_of("=");
    assert(separator@ =~= assignment());
    let (register, value) = match split_once(&chars, &separator) {
        Some(parts) => parts,
        None => {
            return Err(WriteError::RegisterMalformed(string_of_str(argument)));
        },
    };
    let value_text = string_of_chars(&value);
    if let Some(address) = parse_u16(&register) {
        return match RegisterIndex::from_address(address) {
            Some(i) => Ok((i, value_text)),
            None => Err(WriteError::RegisterAddressUnknown(address)),
        };
    }
    let name = string_of_chars(&register);
    match RegisterIndex::from_name(name.as_str()) {
        Some(i) => Ok((i, value_text)),
        None => Err(WriteError::RegisterNotFound(name)),
    }
}

/// The operation that writes `value` into the holding register `register`.
pub fn set_holding_operation(register: RegisterIndex, value: Value) -> (r: Operation)
    ensures
        r == (Operation::SetHolding {
            address: register.address_spec(),
            value: word_of_value(value),
        }),
{
    Operation::SetHolding { address: register.address(), value: value.into_inner() }
}

/// What the device's answer to a write says.
#[derive(Clone, Copy, PartialEq, Eq, Debug, Structural)]
pub enum WriteOutcome {
    /// The device answered with an exception code.
    Exception(u8),
    /// The device confirmed the write, echoing a value.
    Written(u16),
    /// The device answered with something other than a write confirmation.
    Unexpected,
    /// No answer came.
    NoResponse,
}

/// Classifies the answer to a write request.
pub fn write_outcome(outcome: &Option<Response>) -> (r: WriteOutcome)
    ensures
        r == match outcome {
            None => WriteOutcome::NoResponse,
            Some(response) => match response.kind {
                ResponseKind::ErrorCode(c) => WriteOutcome::Exception(c),
                ResponseKind::SetHolding { value } => WriteOutcome::Written(value),
                ResponseKind::GetHoldings { .. } => WriteOutcome::Unexpected,
            },
        },
{
    match outcome {
        None => WriteOutcome::NoResponse,
        Some(response) => match &response.kind {
            ResponseKind::ErrorCode(c) => WriteOutcome::Exception(*c),
            ResponseKind::SetHolding { value } => WriteOutcome::Written(*value),
            ResponseKind::GetHoldings { .. } => WriteOutcome::Unexpected,
        },
    }
}

} // verus!
