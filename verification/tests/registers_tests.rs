use systemair_save_tools::registers::{DataType, Mode, RegisterIndex, Value, LAST_ADDRESS};

#[test]
fn data_type_from_bytes_decodes_big_endian_words() {
    let values = DataType::U16.from_bytes(&[0x01, 0x02, 0xff, 0xfe, 0x07]);
    assert_eq!(values, vec![Value::U16(0x0102), Value::U16(0xfffe)]);
    let values = DataType::I16.from_bytes(&[0xff, 0xfe]);
    assert_eq!(values, vec![Value::I16(-2)]);
    let values = DataType::CEL.from_bytes(&[0x00, 0xd7]);
    assert_eq!(values, vec![Value::Celsius(215)]);
    let values = DataType::SPH.from_bytes(&[0x00, 0x2a]);
    assert_eq!(values, vec![Value::SpecificHumidity(42)]);
    assert!(DataType::U16.from_bytes(&[]).is_empty());
}

#[test]
fn data_type_properties() {
    assert!(!DataType::U16.is_signed());
    assert!(DataType::I16.is_signed());
    assert!(DataType::CEL.is_signed());
    assert!(!DataType::SPH.is_signed());
    assert_eq!(DataType::U16.scale(), 1);
    assert_eq!(DataType::CEL.scale(), 10);
    assert_eq!(DataType::SPH.scale(), 10);
    assert_eq!(DataType::I16.bytes(), 2);
    assert_eq!(DataType::CEL.label(), "S/10");
    assert_eq!(DataType::U16.label(), "U/1");
    assert_eq!(DataType::CEL.from_word(0xffff), Value::Celsius(-1));
}

#[test]
fn value_into_inner_gives_the_register_word() {
    assert_eq!(Value::U16(7).into_inner(), 7);
    assert_eq!(Value::I16(-1).into_inner(), 0xffff);
    assert_eq!(Value::Celsius(-400).into_inner(), (-400i16) as u16);
    assert_eq!(Value::SpecificHumidity(12).into_inner(), 12);
}

#[test]
fn mode_labels_and_writability() {
    assert_eq!(Mode::R.label(), "R-");
    assert_eq!(Mode::W.label(), "-W");
    assert_eq!(Mode::RW.label(), "RW");
    assert!(!Mode::R.is_writable());
    assert!(Mode::W.is_writable());
    assert!(Mode::RW.is_writable());
}

#[test]
fn register_index_by_address() {
    let r = RegisterIndex::from_address(1001).expect("known register");
    assert_eq!(r.address(), 1001);
    assert_eq!(r.name(), "DEMC_RH_HIGHEST");
    assert_eq!(r.data_type(), DataType::U16);
    assert_eq!(r.mode(), Mode::R);
    assert_eq!(r.minimum_value(), Some(Value::U16(0)));
    assert_eq!(r.maximum_value(), Some(Value::U16(100)));
    assert_eq!(r.description(), "Highest value of all RH sensors");
    assert!(RegisterIndex::from_address(1000).is_none());
    assert!(RegisterIndex::from_address(LAST_ADDRESS).is_some());
}

#[test]
fn register_index_by_name() {
    let r = RegisterIndex::from_name("SENSOR_OAT").expect("known register");
    assert_eq!(r.address(), 12102);
    assert_eq!(r.data_type(), DataType::CEL);
    assert_eq!(r.mode(), Mode::RW);
    assert_eq!(r.minimum_value(), Some(Value::Celsius(-400)));
    assert_eq!(r.maximum_value(), Some(Value::Celsius(800)));
    assert!(RegisterIndex::from_name("sensor_oat").is_none());
    assert!(RegisterIndex::from_name("NOT_A_REGISTER").is_none());
}

#[test]
fn registers_without_limits() {
    let r = RegisterIndex::from_name("FUNCTION_ACTIVE_COOLING").unwrap();
    assert_eq!(r.address(), 3101);
    assert_eq!(r.minimum_value(), None);
    assert_eq!(r.maximum_value(), None);
}

#[test]
fn every_register_is_found_at_its_address() {
    let all = systemair_save_tools::commands::registers::RegisterSchema::all_registers();
    for (k, schema) in all.iter().enumerate() {
        let r = RegisterIndex::from_address(schema.address).expect("known address");
        assert_eq!(r.name(), schema.name);
        if k > 0 {
            assert!(all[k - 1].address < schema.address);
        }
    }
}
