//! Turning register arguments into read requests, and read responses into per-register values.
use crate::modbus::Operation;
use crate::register_table::{table_address, table_name, REGISTER_COUNT};
use crate::registers::{
    be_word, first_index_from, is_known_address, parsed_address_fits, values_of_bytes, DataType,
    RegisterIndex, Value, LAST_ADDRESS,
};
use crate::text::{
    chars_of, first_split, parse_u16, parsed_u16, split_once, string_of_chars, string_of_str,
};
use vstd::prelude::*;

verus! {

/// How read results are printed.
#[derive(Clone, Copy, PartialEq, Eq, Debug, Structural)]
pub enum Format {
    Simple,
    Table,
    Json,
    Csv,
}

/// What one register argument asks to read.
#[derive(Clone, Copy)]
pub enum ReadRequest {
    /// One register, by its address or its name; `index` is the known register there, if any.
    SingleRegister { address: u16, index: Option<RegisterIndex> },
    /// The registers from `address_start` up to, not including, `address_end`.
    RegisterRange { address_start: u16, address_end: u16 },
}

/// Why a register argument could not be turned into a read request.
pub enum RequestError {
    /// The part before `..` is not a number.
    RegisterRangeStartParse(String),
    /// The part after `..` is not a number.
    RegisterRangeEndParse(String),
    /// The range holds no address.
    RegisterRangeEmpty(u16, u16),
    /// The argument is no number, no range and no register name.
    RegisterNotFound(String),
}

/// `index` is the known register at address `a`, or `None` when there is none.
pub open spec fn index_for_address(a: u16, index: Option<RegisterIndex>) -> bool {
    match index {
        Some(i) => is_known_address(a) && i.index() == first_index_from(a, 0),
        None => !is_known_address(a),
    }
}

/// The two characters that separate the ends of a range.
pub open spec fn range_separator() -> Seq<char> {
    seq!['.', '.']
}

/// What an argument `start..end` gives, from its two parts.
pub open spec fn range_outcome(
    start: Seq<char>,
    end: Seq<char>,
    r: Result<ReadRequest, RequestError>,
) -> bool {
    match parsed_u16(start) {
        None => r matches Err(RequestError::RegisterRangeStartParse(s)) && s@ == start,
        Some(a) => match parsed_u16(end) {
            None => r matches Err(RequestError::RegisterRangeEndParse(s)) && s@ == end,
            Some(b) => if b <= a {
                r matches Err(RequestError::RegisterRangeEmpty(x, y)) && x == a && y == b
            } else {
                r matches Ok(ReadRequest::RegisterRange { address_start, address_end })
                    && address_start == a && address_end == b
            },
        },
    }
}

/// What an argument that is neither a number nor a range gives: the first register with that
/// name, or an error that names the argument.
pub open spec fn name_outcome(name: Seq<char>, r: Result<ReadRequest, RequestError>) -> bool {
    ||| r matches Ok(ReadRequest::SingleRegister { address, index: Some(i) }) && {
        &&& 0 <= i.index() < REGISTER_COUNT
        &&& table_name(i.index())@ == name
        &&& forall|j: int| 0 <= j < i.index() ==> table_name(j)@ != name
        &&& address == table_address(i.index())
    }
    ||| {
        &&& forall|j: int| 0 <= j < REGISTER_COUNT ==> table_name(j)@ != name
        &&& r matches Err(RequestError::RegisterNotFound(s)) && s@ == name
    }
}

/// Turns one register argument into a read request: a decimal address, a range `start..end` of
/// addresses, or a register name.
pub fn parse_read_request(register: &str) -> (r: Result<ReadRequest, RequestError>)
    requires
        parsed_address_fits(register@),
    ensures
        parsed_u16(register@) matches Some(a) ==> r matches Ok(
            ReadRequest::SingleRegister { address, index },
        ) && address == a && index_for_address(a, index),
        parsed_u16(register@) is None ==> (first_split(register@, range_separator()) matches Some(
            (start, end),
        ) ==> range_outcome(start, end, r)),
        parsed_u16(register@) is None && first_split(register@, range_separator()) is None
            ==> name_outcome(register@, r),
        r matches Ok(request) ==> request.well_formed(),
{
    let chars = chars_of(register);
    if let Some(address) = parse_u16(&chars) {
        let index = RegisterIndex::from_address(address);
        return Ok(ReadRequest::SingleRegister { address, index });
    }
    proof {
        reveal_strlit("..");
    }
    let separator = chars_of("..");
    assert(separator@ =~= range_separator());
    if let Some((start, end)) = split_once(&chars, &separator) {
        let address_start = match parse_u16(&start) {
            Some(a) => a,
            None => {
                return Err(RequestError::RegisterRangeStartParse(string_of_chars(&start)));
            },
        };
        let address_end = match parse_u16(&end) {
            Some(a) => a,
            None => {
                return Err(RequestError::RegisterRangeEndParse(string_of_chars(&end)));
            },
        };
        if address_end <= address_start {
            return Err(RequestError::RegisterRangeEmpty(address_start, address_end));
        }
        return Ok(ReadRequest::RegisterRange { address_start, address_end });
    }
    match RegisterIndex::from_name(register) {
        Some(i) => Ok(ReadRequest::SingleRegister { address: i.address(), index: Some(i) }),
        None => Err(RequestError::RegisterNotFound(string_of_str(register))),
    }
}

impl ReadRequest {
    /// A range ends no earlier than it starts.
    pub open spec fn well_formed(self) -> bool {
        self matches ReadRequest::RegisterRange { address_start, address_end } ==> address_start
            <= address_end
    }

    /// The read operation that serves this request: one register, or every register of the
    /// range.
    pub fn to_operation(&self) -> (r: Operation)
        requires
            self.well_formed(),
        ensures
            r == match *self {
                ReadRequest::SingleRegister { address, .. } => Operation::GetHoldings {
                    address,
                    count: 1,
                },
                ReadRequest::RegisterRange { address_start, address_end } => {
                    Operation::GetHoldings {
                        address: address_start,
                        count: (address_end - address_start) as u16,
                    }
                },
            },
    {
        match self {
            ReadRequest::SingleRegister { address, index: _ } => Operation::GetHoldings {
                address: *address,
                count: 1,
            },
            ReadRequest::RegisterRange { address_start, address_end } => Operation::GetHoldings {
                address: *address_start,
                count: *address_end - *address_start,
            },
        }
    }
}

/// One register of a read response: its address, the known register there, and where its value
/// starts among the response's bytes.
#[derive(Clone, Copy)]
pub struct ResponseSlot {
    pub address: u16,
    pub index: Option<RegisterIndex>,
    pub value_offset: usize,
}

/// The addresses that a request covers end within the known registers.
pub open spec fn slots_in_table(request: ReadRequest) -> bool {
    request matches ReadRequest::RegisterRange { address_start, address_end } ==> address_end
        <= LAST_ADDRESS + 1
}

/// The registers that a response to `request` reports, in address order: the single register
/// at offset 0, or each address of the range at twice its distance from the start.
pub fn response_slots(request: &ReadRequest) -> (r: Vec<ResponseSlot>)
    requires
        slots_in_table(*request),
    ensures
        *request matches ReadRequest::SingleRegister { address, index } ==> {
            &&& r@.len() == 1
            &&& r@[0].address == address
            &&& r@[0].index == index
            &&& r@[0].value_offset == 0
        },
        *request matches ReadRequest::RegisterRange { address_start, address_end } ==> {
            &&& r@.len() == (if address_end > address_start {
                address_end - address_start
            } else {
                0
            })
            &&& forall|k: int|
                0 <= k < r@.len() ==> {
                    &&& #[trigger] r@[k].address == address_start + k
                    &&& index_for_address(r@[k].address, r@[k].index)
                    &&& r@[k].value_offset == 2 * k
                    &&& r@[k].value_offset + 2 <= 2 * (address_end - address_start)
                }
        },
{
    match *request {
        ReadRequest::SingleRegister { address, index } => {
            let mut r: Vec<ResponseSlot> = Vec::new();
            let slot = ResponseSlot { address, index, value_offset: 0 };
            r.push(slot);
            r
        },
        ReadRequest::RegisterRange { address_start, address_end } => {
            let start = address_start;
            let end = address_end;
            let mut r: Vec<ResponseSlot> = Vec::new();
            let mut address = start;
            let mut offset: usize = 0;
            while address < end
                invariant
                    end <= LAST_ADDRESS + 1,
                    start <= address,
                    address <= (if end > start {
                        end
                    } else {
                        start
                    }),
                    r@.len() == address - start,
                    offset == 2 * (address - start),
                    forall|k: int|
                        0 <= k < r@.len() ==> {
                            &&& #[trigger] r@[k].address == start + k
                            &&& index_for_address(r@[k].address, r@[k].index)
                            &&& r@[k].value_offset == 2 * k
                        },
                decreases end - address,
            {
                let index = RegisterIndex::from_address(address);
                r.push(ResponseSlot { address, index, value_offset: offset });
                address = address + 1;
                offset = offset + 2;
            }
            r
        },
    }
}

/// The value of one register of a read response, from the bytes at `offset`.
pub fn slot_values(data_type: DataType, values: &[u8], offset: usize) -> (r: Vec<Value>)
    requires
        offset + 2 <= values@.len(),
    ensures
        r@ == values_of_bytes(data_type, values@.subrange(offset as int, offset + 2)),
{
    let hi = values[offset] as u16;
    let lo = values[offset + 1] as u16;
    let word = hi * 256 + lo;
    let mut r: Vec<Value> = Vec::new();
    r.push(data_type.from_word(word));
    proof {
        let bs = values@.subrange(offset as int, offset + 2);
        assert(bs[0] == values@[offset as int] && bs[1] == values@[offset + 1]);
        assert(word == be_word(bs[0], bs[1]));
        assert(r@ =~= values_of_bytes(data_type, bs));
    }
    r
}

} // verus!
