//! Modbus requests and responses, and their framing over Modbus TCP.
use crate::registers::{
    be_word, data_type_at_address, is_known_address, value_of_word, RegisterIndex, Value,
    LAST_ADDRESS,
};
use vstd::prelude::*;

verus! {

/// The most registers that one read request can ask for and be served by every device.
pub const MAX_SAFE_READ_COUNT: u16 = 123;

/// A request to one device.
#[derive(Debug, Clone, Copy, PartialEq, Eq, Structural)]
pub struct Request {
    pub device_id: u8,
    pub transaction_id: u16,
    pub operation: Operation,
}

/// What a request asks of the device.
#[derive(Debug, Clone, Copy, PartialEq, Eq, Structural)]
pub enum Operation {
    /// Read `count` holding registers from `address` on.
    GetHoldings { address: u16, count: u16 },
    /// Write `value` to the holding register at `address`.
    SetHolding { address: u16, value: u16 },
}

/// The number of bytes of a response to `op`, when it is sent over a serial line in blocks of
/// at most 255 bytes, each with 5 bytes of framing; at most `u16::MAX`.
pub open spec fn expected_response_bytes(op: Operation) -> int {
    let bytes_total = match op {
        Operation::GetHoldings { count, .. } => count * 2,
        Operation::SetHolding { .. } => 2,
    };
    let rtu_bytes = ((bytes_total + 0xFE) / 0xFF) * 5 + bytes_total;
    if rtu_bytes > u16::MAX {
        u16::MAX as int
    } else {
        rtu_bytes
    }
}

impl Request {
    /// Estimate how many bytes of response will be necessary to respond to this request.
    ///
    /// This is used to calculate send slots on a connection in an effort to avoid predictable
    /// "Server Busy" exceptions or loss of requests.
    pub fn expected_response_length(&self) -> (r: u16)
        ensures
            r == expected_response_bytes(self.operation),
    {
        let bytes_total: u32 = match self.operation {
            Operation::GetHoldings { address: _, count } => (count as u32) * 2,
            Operation::SetHolding { .. } => 2,
        };
        let rtu_blocks = (bytes_total + 0xFE) / 0xFF;
        // 1 byte no padding, 2 bytes crc, 2 bytes address and function.
        let rtu_bytes = rtu_blocks * 5 + bytes_total;
        if rtu_bytes > u16::MAX as u32 {
            u16::MAX
        } else {
            rtu_bytes as u16
        }
    }
}

/// A response from a device.
#[derive(Debug)]
pub struct Response {
    pub device_id: u8,
    pub transaction_id: u16,
    pub kind: ResponseKind,
}

/// What a device answered.
#[derive(Debug)]
pub enum ResponseKind {
    /// A server exception with its code.
    ErrorCode(u8),
    /// The bytes of the registers read.
    GetHoldings { values: Vec<u8> },
    /// The value written.
    SetHolding { value: u16 },
}

/// A response's content, with the register bytes as a sequence.
pub enum ResponseKindView {
    ErrorCode(u8),
    GetHoldings(Seq<u8>),
    SetHolding(u16),
}

/// A response, with the register bytes as a sequence.
pub struct ResponseView {
    pub device_id: u8,
    pub transaction_id: u16,
    pub kind: ResponseKindView,
}

impl View for ResponseKind {
    type V = ResponseKindView;

    open spec fn view(&self) -> ResponseKindView {
        match self {
            ResponseKind::ErrorCode(c) => ResponseKindView::ErrorCode(*c),
            ResponseKind::GetHoldings { values } => ResponseKindView::GetHoldings(values@),
            ResponseKind::SetHolding { value } => ResponseKindView::SetHolding(*value),
        }
    }
}

impl View for Response {
    type V = ResponseView;

    open spec fn view(&self) -> ResponseView {
        ResponseView {
            device_id: self.device_id,
            transaction_id: self.transaction_id,
            kind: self.kind@,
        }
    }
}

/// The server exception code of a response, if it is one.
pub open spec fn exception_of(kind: ResponseKindView) -> Option<u8> {
    match kind {
        ResponseKindView::ErrorCode(c) => Some(c),
        _ => None,
    }
}

/// The exception code by which a device says that it is busy.
pub const SERVER_BUSY: u8 = 6;

impl Response {
    /// The server exception code, if the device answered with one.
    pub fn exception_code(&self) -> (r: Option<u8>)
        ensures
            r == exception_of(self.kind@),
    {
        match &self.kind {
            ResponseKind::ErrorCode(c) => Some(*c),
            ResponseKind::GetHoldings { values: _ } => None,
            ResponseKind::SetHolding { value: _ } => None,
        }
    }

    /// Whether the device answered that it is busy.
    pub fn is_server_busy(&self) -> (r: bool)
        ensures
            r == (exception_of(self.kind@) == Some(SERVER_BUSY)),
    {
        match self.exception_code() {
            Some(c) => c == SERVER_BUSY,
            None => false,
        }
    }
}

/// The two big-endian bytes of a word.
pub open spec fn be_bytes(w: u16) -> Seq<u8> {
    seq![(w / 256) as u8, (w % 256) as u8]
}

/// The bytes that encode `req` over Modbus TCP: the transaction id, protocol and length fields,
/// the device id, the function code, the zero-based register address and the count or value.
pub open spec fn request_frame(req: Request) -> Seq<u8> {
    match req.operation {
        Operation::GetHoldings { address, count } => be_bytes(req.transaction_id) + seq![
            0u8,
            0u8,
            0u8,
            0u8,
            req.device_id,
            3u8,
        ] + be_bytes((address - 1) as u16) + be_bytes(count),
        Operation::SetHolding { address, value } => be_bytes(req.transaction_id) + seq![
            0u8,
            0u8,
            0u8,
            0u8,
            req.device_id,
            6u8,
        ] + be_bytes((address - 1) as u16) + be_bytes(value),
    }
}

/// The register address of an operation.
pub open spec fn operation_address(op: Operation) -> u16 {
    match op {
        Operation::GetHoldings { address, .. } => address,
        Operation::SetHolding { address, .. } => address,
    }
}

/// The Modbus TCP frame layout of a response that starts at the first byte of `s`: the
/// transaction id, the protocol id (0), the length of the rest, then the device id, the function
/// code and the function's data.
pub open spec fn frame_length(s: Seq<u8>) -> int {
    be_word(s[4], s[5]) as int
}

/// `s` starts with a complete frame header whose rest is all there, and holds at least a device
/// id, a function code and one more byte.
pub open spec fn complete_frame(s: Seq<u8>) -> bool {
    &&& s.len() >= 8
    &&& be_word(s[2], s[3]) == 0
    &&& 6 + frame_length(s) <= s.len()
    &&& frame_length(s) >= 3
}

/// The decoder can make sense of `s`: each frame it comes to has a function code that it knows,
/// and a write's answer has the 6 bytes it should.
pub open spec fn decodable(s: Seq<u8>) -> bool
    decreases s.len(),
{
    if s.len() < 8 {
        true
    } else if be_word(s[2], s[3]) != 0 {
        decodable(s.drop_first())
    } else if 6 + frame_length(s) > s.len() {
        true
    } else if frame_length(s) < 3 {
        decodable(s.drop_first())
    } else {
        let function_code = s[7];
        function_code > 0x80 || function_code == 3 || (function_code == 6 && frame_length(s) == 6)
    }
}

/// What decoding `s` gives: how many bytes it consumes, and the response, if a complete one was
/// found. Bytes that cannot start a frame are skipped one at a time.
pub open spec fn decoded(s: Seq<u8>) -> (int, Option<ResponseView>)
    decreases s.len(),
{
    if s.len() < 8 {
        (0, None)
    } else if be_word(s[2], s[3]) != 0 {
        let rest = decoded(s.drop_first());
        (rest.0 + 1, rest.1)
    } else if 6 + frame_length(s) > s.len() {
        (0, None)
    } else if frame_length(s) < 3 {
        let rest = decoded(s.drop_first());
        (rest.0 + 1, rest.1)
    } else {
        let transaction_id = be_word(s[0], s[1]);
        let device_id = s[6];
        let function_code = s[7];
        if function_code > 0x80 {
            (
                9,
                Some(
                    ResponseView {
                        device_id,
                        transaction_id,
                        kind: ResponseKindView::ErrorCode(s[8]),
                    },
                ),
            )
        } else if function_code == 3 {
            (
                6 + frame_length(s),
                Some(
                    ResponseView {
                        device_id,
                        transaction_id,
                        kind: ResponseKindView::GetHoldings(s.subrange(9, 6 + frame_length(s))),
                    },
                ),
            )
        } else {
            (
                6 + frame_length(s),
                Some(
                    ResponseView {
                        device_id,
                        transaction_id,
                        kind: ResponseKindView::SetHolding(be_word(s[10], s[11])),
                    },
                ),
            )
        }
    }
}

/// Whether the decoder can make sense of `src`; the decoder needs this to be so.
pub fn is_decodable(src: &[u8]) -> (r: bool)
    ensures
        r == decodable(src@),
{
    let n = src.len();
    let mut i: usize = 0;
    assert(src@.skip(0) =~= src@);
    while i <= n
        invariant
            n == src@.len(),
            i <= n,
            decodable(src@) == decodable(src@.skip(i as int)),
        decreases n - i,
    {
        let ghost t = src@.skip(i as int);
        if n - i < 8 {
            return true;
        }
        assert(t[2] == src@[i + 2] && t[3] == src@[i + 3] && t[4] == src@[i + 4] && t[5]
            == src@[i + 5] && t[7] == src@[i + 7]);
        assert(t.drop_first() =~= src@.skip(i + 1));
        let protocol = be(src[i + 2], src[i + 3]);
        if protocol != 0 {
            i = i + 1;
            continue;
        }
        let length = be(src[i + 4], src[i + 5]) as usize;
        if 6 + length > n - i {
            return true;
        }
        if length < 3 {
            i = i + 1;
            continue;
        }
        let function_code = src[i + 7];
        return function_code > 0x80 || function_code == 3 || (function_code == 6 && length == 6);
    }
    false
}

/// What one call of the decoder gives: the bytes it consumed and the response it found.
pub struct Decoded {
    pub consumed: usize,
    pub response: Option<Response>,
}

/// Encodes requests and decodes responses of Modbus TCP.
pub struct ModbusTCPCodec {}

/// Encodes requests and decodes responses of Modbus RTU over a serial line.
pub struct ModbusRTUCodec {}

impl ModbusTCPCodec {
    /// Appends the frame of `req` to `dst`.
    pub fn encode(&mut self, req: &Request, dst: &mut Vec<u8>)
        requires
            operation_address(req.operation) >= 1,
        ensures
            final(dst)@ == old(dst)@ + request_frame(*req),
    {
        let (function_code, address, word) = match req.operation {
            Operation::GetHoldings { address, count } => (3u8, address, count),
            Operation::SetHolding { address, value } => (6u8, address, value),
        };
        let ghost start = dst@;
        push_be(dst, req.transaction_id);
        dst.push(0);
        dst.push(0);
        dst.push(0);
        dst.push(0);
        dst.push(req.device_id);
        dst.push(function_code);
        push_be(dst, address - 1);
        push_be(dst, word);
        assert(dst@ =~= start + request_frame(*req));
    }

    /// Decodes the first response in `src`, skipping bytes that cannot start a frame.
    ///
    /// Returns the number of bytes consumed and the response, or no response when `src` does
    /// not yet hold a complete frame.
    pub fn decode(&mut self, src: &[u8]) -> (r: Decoded)
        requires
            decodable(src@),
        ensures
            r.consumed == decoded(src@).0,
            match r.response {
                Some(resp) => decoded(src@).1 == Some(resp@),
                None => decoded(src@).1 is None,
            },
            r.consumed <= src@.len(),
    {
        let len = src.len();
        let mut start: usize = 0;
        assert(src@.skip(0) =~= src@);
        proof {
            lemma_decoded_bound(src@);
        }
        loop
            invariant
                len == src@.len(),
                start <= len,
                decodable(src@.skip(start as int)),
                decoded(src@) == ((decoded(src@.skip(start as int)).0 + start) as int, decoded(
                    src@.skip(start as int),
                ).1),
                decoded(src@.skip(start as int)).0 <= len - start,
            decreases len - start,
        {
            let ghost s = src@.skip(start as int);
            proof {
                lemma_decoded_bound(s);
            }
            if len - start < 8 {
                return Decoded { consumed: start, response: None };
            }
            let transaction_id = be(src[start], src[start + 1]);
            let proto = be(src[start + 2], src[start + 3]);
            if proto != 0 {
                assert(s.drop_first() =~= src@.skip(start + 1));
                start = start + 1;
                continue;
            }
            let required_length = be(src[start + 4], src[start + 5]) as usize;
            if required_length > len - start - 6 {
                return Decoded { consumed: start, response: None };
            }
            if required_length < 3 {
                assert(s.drop_first() =~= src@.skip(start + 1));
                start = start + 1;
                continue;
            }
            let device_id = src[start + 6];
            let function_code = src[start + 7];
            let code = src[start + 8];
            if function_code > 0x80 {
                return Decoded {
                    consumed: start + 9,
                    response: Some(
                        Response { transaction_id, device_id, kind: ResponseKind::ErrorCode(code) },
                    ),
                };
            }
            // NOTE: The `code` byte in the case of success might store the length of the
            // payload. However, devices can answer larger requests than 254 bytes, in which case
            // its value is unspecified; the length in the TCP header is what counts.
            let kind = if function_code == 3 {
                let mut values: Vec<u8> = Vec::new();
                let mut k: usize = start + 9;
                let end = start + 6 + required_length;
                while k < end
                    invariant
                        start + 9 <= k <= end,
                        end <= len,
                        len == src@.len(),
                        values@ == src@.subrange(start + 9, k as int),
                    decreases end - k,
                {
                    values.push(src[k]);
                    assert(values@ =~= src@.subrange(start + 9, k + 1));
                    k = k + 1;
                }
                assert(values@ =~= s.subrange(9, 6 + required_length));
                ResponseKind::GetHoldings { values }
            } else {
                ResponseKind::SetHolding { value: be(src[start + 10], src[start + 11]) }
            };
            return Decoded {
                consumed: start + 6 + required_length,
                response: Some(Response { transaction_id, device_id, kind }),
            };
        }
    }
}

/// The word of two big-endian bytes.
fn be(hi: u8, lo: u8) -> (r: u16)
    ensures
        r == be_word(hi, lo),
{
    (hi as u16) * 256 + (lo as u16)
}

/// Appends the two big-endian bytes of `w`.
fn push_be(dst: &mut Vec<u8>, w: u16)
    ensures
        final(dst)@ == old(dst)@ + be_bytes(w),
{
    dst.push((w / 256) as u8);
    dst.push((w % 256) as u8);
    assert(final(dst)@ =~= old(dst)@ + be_bytes(w));
}

proof fn lemma_decoded_bound(s: Seq<u8>)
    ensures
        0 <= decoded(s).0 <= s.len(),
    decreases s.len(),
{
    if s.len() >= 8 {
        lemma_decoded_bound(s.drop_first());
    }
}

/// A decoded response does not depend on the bytes that follow it: more received bytes leave
/// what the decoder found, and how much it consumed, unchanged.
pub proof fn lemma_decoded_prefix(s: Seq<u8>, t: Seq<u8>)
    requires
        decodable(s),
        decoded(s).1 is Some,
    ensures
        decoded(s + t) == decoded(s),
        decodable(s + t),
    decreases s.len(),
{
    let st = s + t;
    assert(forall|k: int| 0 <= k < s.len() ==> st[k] == s[k]);
    if be_word(s[2], s[3]) != 0 || (6 + frame_length(s) <= s.len() && frame_length(s) < 3) {
        assert(st.drop_first() =~= s.drop_first() + t);
        lemma_decoded_prefix(s.drop_first(), t);
    } else if frame_length(s) >= 3 && 6 + frame_length(s) <= s.len() {
        assert(st.subrange(9, 6 + frame_length(s)) =~= s.subrange(9, 6 + frame_length(s)));
    }
}

/// The frame of an answer to a read: the transaction id, protocol 0, the length of the rest,
/// the device id, function code 3, a byte count and the register bytes.
pub open spec fn holdings_frame(transaction_id: u16, device_id: u8, values: Seq<u8>) -> Seq<u8> {
    be_bytes(transaction_id) + seq![0u8, 0u8] + be_bytes((3 + values.len()) as u16) + seq![
        device_id,
        3u8,
        (values.len() % 256) as u8,
    ] + values
}

/// The frame of a server exception: function code above 0x80 and the exception code.
pub open spec fn exception_frame(
    transaction_id: u16,
    device_id: u8,
    function_code: u8,
    code: u8,
) -> Seq<u8> {
    be_bytes(transaction_id) + seq![0u8, 0u8, 0u8, 3u8, device_id, function_code, code]
}

/// The frame of an answer to a write: function code 6, the register address and the value.
pub open spec fn write_frame(transaction_id: u16, device_id: u8, address: u16, value: u16) -> Seq<
    u8,
> {
    be_bytes(transaction_id) + seq![0u8, 0u8, 0u8, 6u8, device_id, 6u8] + be_bytes(address)
        + be_bytes(value)
}

proof fn lemma_be_word_of_bytes(w: u16)
    ensures
        be_word(be_bytes(w)[0], be_bytes(w)[1]) == w,
{
}

/// Decoding the frame of an answer to a read, whatever follows it, gives that answer and
/// consumes the frame.
pub proof fn lemma_decode_holdings_frame(
    transaction_id: u16,
    device_id: u8,
    values: Seq<u8>,
    rest: Seq<u8>,
)
    requires
        values.len() + 3 <= u16::MAX,
    ensures
        decodable(holdings_frame(transaction_id, device_id, values) + rest),
        decoded(holdings_frame(transaction_id, device_id, values) + rest) == (
            9 + values.len() as int,
            Some(
                ResponseView {
                    device_id,
                    transaction_id,
                    kind: ResponseKindView::GetHoldings(values),
                },
            ),
        ),
{
    let s = holdings_frame(transaction_id, device_id, values) + rest;
    lemma_be_word_of_bytes(transaction_id);
    lemma_be_word_of_bytes((3 + values.len()) as u16);
    assert(s[0] == be_bytes(transaction_id)[0] && s[1] == be_bytes(transaction_id)[1]);
    assert(s[4] == be_bytes((3 + values.len()) as u16)[0] && s[5] == be_bytes(
        (3 + values.len()) as u16,
    )[1]);
    assert(frame_length(s) == 3 + values.len());
    assert(s.subrange(9, 9 + values.len() as int) =~= values);
}

/// Decoding the frame of a server exception, whatever follows it, gives that exception.
pub proof fn lemma_decode_exception_frame(
    transaction_id: u16,
    device_id: u8,
    function_code: u8,
    code: u8,
    rest: Seq<u8>,
)
    requires
        function_code > 0x80,
    ensures
        decodable(exception_frame(transaction_id, device_id, function_code, code) + rest),
        decoded(exception_frame(transaction_id, device_id, function_code, code) + rest) == (
            9int,
            Some(
                ResponseView {
                    device_id,
                    transaction_id,
                    kind: ResponseKindView::ErrorCode(code),
                },
            ),
        ),
{
    let s = exception_frame(transaction_id, device_id, function_code, code) + rest;
    lemma_be_word_of_bytes(transaction_id);
    assert(s[0] == be_bytes(transaction_id)[0] && s[1] == be_bytes(transaction_id)[1]);
    assert(frame_length(s) == 3);
}

/// Decoding the frame of an answer to a write, whatever follows it, gives the written value.
pub proof fn lemma_decode_write_frame(
    transaction_id: u16,
    device_id: u8,
    address: u16,
    value: u16,
    rest: Seq<u8>,
)
    ensures
        decodable(write_frame(transaction_id, device_id, address, value) + rest),
        decoded(write_frame(transaction_id, device_id, address, value) + rest) == (
            12int,
            Some(
                ResponseView {
                    device_id,
                    transaction_id,
                    kind: ResponseKindView::SetHolding(value),
                },
            ),
        ),
{
    let s = write_frame(transaction_id, device_id, address, value) + rest;
    lemma_be_word_of_bytes(transaction_id);
    lemma_be_word_of_bytes(value);
    assert(s[0] == be_bytes(transaction_id)[0] && s[1] == be_bytes(transaction_id)[1]);
    assert(s[10] == be_bytes(value)[0] && s[11] == be_bytes(value)[1]);
    assert(frame_length(s) == 6);
}

/// The value of the register at `value_address` in the bytes of a read that started at
/// `request_base`.
pub fn extract_value(request_base: u16, value_address: u16, response: &[u8]) -> (r: Option<Value>)
    requires
        value_address <= LAST_ADDRESS,
        is_known_address(value_address),
        request_base <= value_address,
        2 * (value_address - request_base) + 2 <= response@.len(),
    ensures
        r == Some(
            value_of_word(
                data_type_at_address(value_address),
                be_word(
                    response@[2 * (value_address - request_base)],
                    response@[2 * (value_address - request_base) + 1],
                ),
            ),
        ),
{
    let value_register = match RegisterIndex::from_address(value_address) {
        Some(r) => r,
        None => {
            return None;
        },
    };
    let value_offset = 2 * ((value_address - request_base) as usize);
    let value_data_type = value_register.data_type();
    let word = be(response[value_offset], response[value_offset + 1]);
    Some(value_data_type.from_word(word))
}

} // verus!
