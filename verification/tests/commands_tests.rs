use systemair_save_tools::commands::read::{
    parse_read_request, response_slots, slot_values, ReadRequest, RequestError,
};
use systemair_save_tools::commands::registers::RegisterSchema;
use systemair_save_tools::modbus::Operation;
use systemair_save_tools::register_table::REGISTER_COUNT;
use systemair_save_tools::registers::{DataType, Mode, Value};

#[test]
fn all_registers_follow_the_table() {
    let all = RegisterSchema::all_registers();
    assert_eq!(all.len(), REGISTER_COUNT);
    let first = &all[0];
    assert_eq!(first.address, 1001);
    assert_eq!(first.name, "DEMC_RH_HIGHEST");
    assert_eq!(first.mode, Mode::R);
    assert!(!first.signed);
    assert_eq!(first.scale, 1);
    assert_eq!(first.minimum, Some(Value::U16(0)));
    assert_eq!(first.maximum, Some(Value::U16(100)));
    let oat = all.iter().find(|r| r.name == "SENSOR_OAT").unwrap();
    assert!(oat.signed);
    assert_eq!(oat.scale, 10);
    assert_eq!(all.last().unwrap().address, 30106);
}

#[test]
fn is_match_searches_name_description_and_address() {
    let all = RegisterSchema::all_registers();
    let first = &all[0];
    assert!(first.is_match("demc_rh"));
    assert!(first.is_match("all rh sensors"));
    assert!(first.is_match("100"));
    assert!(first.is_match(""));
    assert!(!first.is_match("co2"));
}

#[test]
fn matching_registers_filters_in_table_order() {
    assert_eq!(RegisterSchema::matching_registers(None).len(), REGISTER_COUNT);
    let found = RegisterSchema::matching_registers(Some("sensor_oat"));
    assert!(found.iter().any(|r| r.name == "SENSOR_OAT"));
    assert!(found.iter().all(|r| r.is_match("sensor_oat")));
    let addresses: Vec<u16> = found.iter().map(|r| r.address).collect();
    let mut sorted = addresses.clone();
    sorted.sort();
    assert_eq!(addresses, sorted);
    assert!(RegisterSchema::matching_registers(Some("no such register text")).is_empty());
}

#[test]
fn parse_single_register_by_address() {
    match parse_read_request("1001") {
        Ok(ReadRequest::SingleRegister { address, index }) => {
            assert_eq!(address, 1001);
            assert_eq!(index.unwrap().name(), "DEMC_RH_HIGHEST");
        }
        _ => panic!("expected a single register"),
    }
    match parse_read_request("1000") {
        Ok(ReadRequest::SingleRegister { address, index }) => {
            assert_eq!(address, 1000);
            assert!(index.is_none());
        }
        _ => panic!("expected a single register"),
    }
}

#[test]
fn parse_register_range() {
    match parse_read_request("1001..1005") {
        Ok(ReadRequest::RegisterRange { address_start, address_end }) => {
            assert_eq!((address_start, address_end), (1001, 1005));
        }
        _ => panic!("expected a range"),
    }
}

#[test]
fn parse_register_range_errors() {
    match parse_read_request("a..5") {
        Err(RequestError::RegisterRangeStartParse(s)) => assert_eq!(s, "a"),
        _ => panic!("expected a start error"),
    }
    match parse_read_request("5..") {
        Err(RequestError::RegisterRangeEndParse(s)) => assert_eq!(s, ""),
        _ => panic!("expected an end error"),
    }
    match parse_read_request("5..5") {
        Err(RequestError::RegisterRangeEmpty(a, b)) => assert_eq!((a, b), (5, 5)),
        _ => panic!("expected an empty range"),
    }
    match parse_read_request("9..3") {
        Err(RequestError::RegisterRangeEmpty(a, b)) => assert_eq!((a, b), (9, 3)),
        _ => panic!("expected an empty range"),
    }
}

#[test]
fn parse_register_name() {
    match parse_read_request("SENSOR_OAT") {
        Ok(ReadRequest::SingleRegister { address, index }) => {
            assert_eq!(address, 12102);
            assert_eq!(index.unwrap().address(), 12102);
        }
        _ => panic!("expected a single register"),
    }
    match parse_read_request("sensor_oat") {
        Err(RequestError::RegisterNotFound(s)) => assert_eq!(s, "sensor_oat"),
        _ => panic!("expected an unknown register"),
    }
}

#[test]
fn read_operations_of_requests() {
    let single = parse_read_request("1001").ok().unwrap();
    assert_eq!(single.to_operation(), Operation::GetHoldings { address: 1001, count: 1 });
    let range = parse_read_request("1001..1005").ok().unwrap();
    assert_eq!(range.to_operation(), Operation::GetHoldings { address: 1001, count: 4 });
}

#[test]
fn slots_of_a_range() {
    let range = parse_read_request("1000..1003").ok().unwrap();
    let slots = response_slots(&range);
    assert_eq!(slots.len(), 3);
    assert_eq!(slots[0].address, 1000);
    assert!(slots[0].index.is_none());
    assert_eq!(slots[1].address, 1001);
    assert_eq!(slots[1].index.unwrap().name(), "DEMC_RH_HIGHEST");
    assert_eq!(slots[2].value_offset, 4);
    let single = parse_read_request("SENSOR_OAT").ok().unwrap();
    let slots = response_slots(&single);
    assert_eq!(slots.len(), 1);
    assert_eq!(slots[0].value_offset, 0);
}

#[test]
fn values_of_a_slot() {
    let bytes = [0x00, 0x01, 0xff, 0x38];
    assert_eq!(slot_values(DataType::CEL, &bytes, 2), vec![Value::Celsius(-200)]);
    assert_eq!(slot_values(DataType::U16, &bytes, 0), vec![Value::U16(1)]);
}

use systemair_save_tools::commands::write::{parse_write_argument, WriteError};

#[test]
fn write_arguments_by_address_and_name() {
    let (register, value) = parse_write_argument("2001=21.5").ok().unwrap();
    assert_eq!(register.name(), "TC_SP");
    assert_eq!(value, "21.5");
    let (register, value) = parse_write_argument("ECO_MODE_ON_OFF=1=2").ok().unwrap();
    assert_eq!(register.address(), 2505);
    assert_eq!(value, "1=2");
}

#[test]
fn write_argument_errors() {
    match parse_write_argument("2001") {
        Err(WriteError::RegisterMalformed(s)) => assert_eq!(s, "2001"),
        _ => panic!("expected a malformed argument"),
    }
    match parse_write_argument("2000=1") {
        Err(WriteError::RegisterAddressUnknown(a)) => assert_eq!(a, 2000),
        _ => panic!("expected an unknown address"),
    }
    match parse_write_argument("NO_SUCH=1") {
        Err(WriteError::RegisterNotFound(s)) => assert_eq!(s, "NO_SUCH"),
        _ => panic!("expected an unknown name"),
    }
}

#[test]
fn is_match_uppercases_the_description() {
    let oat = RegisterSchema::matching_registers(Some("outdoor air temperature sensor"));
    assert!(oat.iter().any(|r| r.name == "SENSOR_OAT"));
    assert!(oat.iter().all(|r| r.description.to_uppercase().contains("OUTDOOR AIR TEMPERATURE SENSOR")));
}

use systemair_save_tools::commands::write::{set_holding_operation, write_outcome, WriteOutcome};
use systemair_save_tools::modbus::{Response, ResponseKind};
use systemair_save_tools::registers::RegisterIndex;

#[test]
fn write_requests_and_their_answers() {
    let r = RegisterIndex::from_address(1001).unwrap();
    assert_eq!(
        set_holding_operation(r, Value::I16(-5)),
        Operation::SetHolding { address: 1001, value: 0xfffb }
    );
    let answer = |kind| Some(Response { device_id: 1, transaction_id: 7, kind });
    assert_eq!(write_outcome(&answer(ResponseKind::ErrorCode(2))), WriteOutcome::Exception(2));
    assert_eq!(write_outcome(&answer(ResponseKind::SetHolding { value: 9 })), WriteOutcome::Written(9));
    assert_eq!(
        write_outcome(&answer(ResponseKind::GetHoldings { values: vec![0, 1] })),
        WriteOutcome::Unexpected
    );
    assert_eq!(write_outcome(&None), WriteOutcome::NoResponse);
}
