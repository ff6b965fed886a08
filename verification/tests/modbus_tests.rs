use systemair_save_tools::modbus::{
    extract_value, is_decodable, ModbusTCPCodec, Operation, Request, Response, ResponseKind,
    MAX_SAFE_READ_COUNT,
};
use systemair_save_tools::registers::Value;

fn request(operation: Operation) -> Request {
    Request { device_id: 1, transaction_id: 0x0102, operation }
}

#[test]
fn expected_response_length_counts_rtu_framing() {
    let len = |operation| request(operation).expected_response_length();
    assert_eq!(len(Operation::GetHoldings { address: 1001, count: 1 }), 7);
    assert_eq!(len(Operation::GetHoldings { address: 1001, count: MAX_SAFE_READ_COUNT }), 251);
    assert_eq!(len(Operation::GetHoldings { address: 1001, count: 128 }), 266);
    assert_eq!(len(Operation::GetHoldings { address: 1, count: u16::MAX }), u16::MAX);
    assert_eq!(len(Operation::SetHolding { address: 1001, value: 9 }), 7);
}

#[test]
fn encode_read_request() {
    let mut codec = ModbusTCPCodec {};
    let mut out = vec![0xaa];
    codec.encode(&request(Operation::GetHoldings { address: 1001, count: 2 }), &mut out);
    assert_eq!(out, vec![0xaa, 0x01, 0x02, 0, 0, 0, 0, 1, 3, 0x03, 0xe8, 0, 2]);
}

#[test]
fn encode_write_request() {
    let mut codec = ModbusTCPCodec {};
    let mut out = Vec::new();
    codec.encode(&request(Operation::SetHolding { address: 1, value: 0xbeef }), &mut out);
    assert_eq!(out, vec![0x01, 0x02, 0, 0, 0, 0, 1, 6, 0, 0, 0xbe, 0xef]);
}

#[test]
fn decode_read_response() {
    let mut codec = ModbusTCPCodec {};
    let frame = [0x00, 0x07, 0, 0, 0, 7, 1, 3, 4, 0x12, 0x34, 0x56, 0x78, 0x99];
    let decoded = codec.decode(&frame);
    assert_eq!(decoded.consumed, 13);
    let response = decoded.response.expect("a complete frame");
    assert_eq!(response.transaction_id, 7);
    assert_eq!(response.device_id, 1);
    match response.kind {
        ResponseKind::GetHoldings { values } => assert_eq!(values, vec![0x12, 0x34, 0x56, 0x78]),
        other => panic!("unexpected {other:?}"),
    }
}

#[test]
fn decode_waits_for_a_complete_frame() {
    let mut codec = ModbusTCPCodec {};
    let decoded = codec.decode(&[0x00, 0x07, 0, 0, 0, 7, 1, 3, 4, 0x12]);
    assert_eq!(decoded.consumed, 0);
    assert!(decoded.response.is_none());
    let decoded = codec.decode(&[]);
    assert_eq!(decoded.consumed, 0);
    assert!(decoded.response.is_none());
}

#[test]
fn decode_exception_response() {
    let mut codec = ModbusTCPCodec {};
    let decoded = codec.decode(&[0x00, 0x09, 0, 0, 0, 3, 1, 0x83, 6]);
    assert_eq!(decoded.consumed, 9);
    let response = decoded.response.unwrap();
    assert_eq!(response.exception_code(), Some(6));
    assert!(response.is_server_busy());
}

#[test]
fn decode_write_response() {
    let mut codec = ModbusTCPCodec {};
    let decoded = codec.decode(&[0x00, 0x0a, 0, 0, 0, 6, 1, 6, 0, 0, 0x12, 0x34]);
    assert_eq!(decoded.consumed, 12);
    match decoded.response.unwrap().kind {
        ResponseKind::SetHolding { value } => assert_eq!(value, 0x1234),
        other => panic!("unexpected {other:?}"),
    }
}

#[test]
fn decode_skips_bytes_that_cannot_start_a_frame() {
    let mut codec = ModbusTCPCodec {};
    let decoded = codec.decode(&[0xff, 0x00, 0x09, 0, 0, 0, 3, 1, 0x83, 2]);
    assert_eq!(decoded.consumed, 10);
    assert_eq!(decoded.response.unwrap().exception_code(), Some(2));
}

#[test]
fn responses_that_are_not_busy() {
    let response = Response {
        device_id: 1,
        transaction_id: 1,
        kind: ResponseKind::ErrorCode(2),
    };
    assert!(!response.is_server_busy());
    let response = Response {
        device_id: 1,
        transaction_id: 1,
        kind: ResponseKind::GetHoldings { values: vec![0, 6] },
    };
    assert_eq!(response.exception_code(), None);
    assert!(!response.is_server_busy());
}

#[test]
fn extract_value_reads_the_register_word() {
    let bytes = [0x00, 0x05, 0xff, 0x38];
    assert_eq!(extract_value(1001, 1001, &bytes), Some(Value::U16(5)));
    assert_eq!(extract_value(12101, 12102, &bytes), Some(Value::Celsius(-200)));
}

#[test]
fn decoding_ignores_what_follows_a_frame() {
    let frame = [0x00, 0x07, 0, 0, 0, 5, 1, 3, 2, 0x12, 0x34];
    let mut longer = frame.to_vec();
    longer.extend_from_slice(&[0x00, 0x08, 0, 0, 0, 3, 1, 0x83]);
    let mut codec = ModbusTCPCodec {};
    let a = codec.decode(&frame);
    let b = codec.decode(&longer);
    assert_eq!(a.consumed, b.consumed);
    assert_eq!(a.consumed, 11);
    match (a.response.unwrap().kind, b.response.unwrap().kind) {
        (ResponseKind::GetHoldings { values: x }, ResponseKind::GetHoldings { values: y }) => {
            assert_eq!(x, y);
            assert_eq!(x, vec![0x12, 0x34]);
        }
        _ => panic!("expected register values"),
    }
}

#[test]
fn decodability() {
    assert!(is_decodable(&[]));
    assert!(is_decodable(&[0x00, 0x07, 0, 0, 0, 5, 1, 3, 2, 0x12, 0x34]));
    assert!(!is_decodable(&[0x00, 0x07, 0, 0, 0, 3, 1, 4, 0]));
    assert!(!is_decodable(&[0x00, 0x07, 0, 0, 0, 4, 1, 6, 0, 0]));
    assert!(is_decodable(&[0x00, 0x07, 0, 0, 0, 9, 1, 4, 0]));
}
