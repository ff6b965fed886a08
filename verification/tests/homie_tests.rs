use systemair_save_tools::homie::actions::{
    alarm_readout, alarm_set_plan, filter_replace_plan, register_set_plan, ALARM_NOT_CLEARABLE,
};
use systemair_save_tools::homie::description::{
    description_plan, HomieDataKind, RangeFormat, Unit,
};
use systemair_save_tools::homie::device::{
    changed_registers, command_step, event_step, find_property, needed_registers,
    property_change, read_schedule, store_response, touched_properties, CommandStep,
    EventOrigin, EventStep, PropertyReading,
};
use systemair_save_tools::homie::enums::{
    AlarmValue, CurrentMode, DigitalInputConnection, RegulationType, Weekday,
};
use systemair_save_tools::homie::nodes::{
    AlarmNode, ClockNode, FanSpeedSettingsNode, FilterNode, ModeNode,
};
use systemair_save_tools::homie::property::{PropertySource, ValueKind};
use systemair_save_tools::homie::values::{
    combine_words, is_now, BooleanValue, CelsiusValue, ReplacementPeriod, StopDelay,
    UintValue, UptimeValue,
};
use systemair_save_tools::modbus::{Operation, ResponseKind};
use systemair_save_tools::modbus_device_cache::{ModbusDeviceValues, RegisterBitmask};
use systemair_save_tools::registers::{RegisterIndex, Value};

#[test]
fn enum_words_and_names() {
    assert_eq!(Weekday::from_repr(6), Some(Weekday::Sunday));
    assert_eq!(Weekday::from_repr(7), None);
    assert_eq!(Weekday::Sunday.name(), "sunday");
    assert_eq!(Weekday::from_name("monday"), Some(Weekday::Monday));
    assert_eq!(Weekday::from_name("Monday"), None);
    assert_eq!(DigitalInputConnection::from_repr(0), Some(DigitalInputConnection::NoConnection));
    assert_eq!(DigitalInputConnection::NoConnection.name(), "none");
    assert_eq!(DigitalInputConnection::from_repr(2), None);
    assert_eq!(
        DigitalInputConnection::ConfigurableDigitalInput1Mode.name(),
        "configurable-digital-input1-mode"
    );
    assert_eq!(DigitalInputConnection::PressureGuard.to_modbus(), 18);
    assert_eq!(RegulationType::RPM.name(), "rpm");
    assert_eq!(RegulationType::from_name("constant-pressure"), Some(RegulationType::ConstantPressure));
    assert_eq!(CurrentMode::from_value(Value::U16(4)), Some(CurrentMode::Fireplace));
    assert_eq!(Weekday::variants().len(), 7);
}

#[test]
fn every_enum_name_parses_back() {
    for v in Weekday::variants() {
        assert_eq!(Weekday::from_name(v.name()), Some(v));
        assert_eq!(Weekday::from_repr(v.to_modbus()), Some(v));
    }
    for v in DigitalInputConnection::variants() {
        assert_eq!(DigitalInputConnection::from_name(v.name()), Some(v));
    }
}

#[test]
fn alarm_values_and_targets() {
    assert_eq!(AlarmValue::new(Value::U16(0)), Ok(AlarmValue::Clear));
    assert_eq!(AlarmValue::new(Value::U16(4)), Err(()));
    let cases = [
        (AlarmValue::Clear, "clear", "clear"),
        (AlarmValue::Firing, "firing", "firing"),
        (AlarmValue::Evaluating, "clear", "firing"),
        (AlarmValue::Acknowledged, "firing", "clear"),
    ];
    for (alarm, value, target) in cases {
        assert_eq!(alarm.value(), value);
        assert_eq!(alarm.target(), Some(target));
    }
    assert_eq!(CurrentMode::new(Value::U16(12)), Ok(CurrentMode::PressureGuard));
    assert_eq!(CurrentMode::new(Value::U16(13)), Err(()));
}

#[test]
fn combined_words() {
    assert_eq!(combine_words(0x5678, 0x1234), 0x1234_5678);
    let uptime = UptimeValue::new(Value::U16(2), Value::U16(1), Value::U16(0), Value::U16(1));
    assert_eq!(uptime, Ok(UptimeValue { rtc: 65538, start_time: 65536 }));
}

#[test]
fn simple_values() {
    assert_eq!(BooleanValue::from_value(Value::U16(2)), BooleanValue(true));
    assert_eq!(BooleanValue::from_value(Value::U16(0)), BooleanValue(false));
    assert_eq!(BooleanValue::from_text("true"), Some(BooleanValue(true)));
    assert_eq!(BooleanValue::from_text("1"), None);
    assert_eq!(BooleanValue(false).value(), "false");
    assert_eq!(BooleanValue(true).to_modbus(), 1);
    assert_eq!(UintValue::from_text("42"), Some(UintValue(42)));
    assert_eq!(UintValue(300).value(), "300");
    assert_eq!(UintValue::from_text(&UintValue(65535).value()), Some(UintValue(65535)));
    assert_eq!(CelsiusValue::from_value(Value::U16(0xff38)), CelsiusValue(-200));
    assert_eq!(CelsiusValue(-200).to_modbus(), 0xff38);
    assert_eq!(StopDelay(5).value(), "PT5M");
    assert_eq!(ReplacementPeriod { months: 12 }.value(), "P12M");
    assert!(is_now("now"));
    assert!(!is_now("later"));
}

#[test]
fn node_tables() {
    let alarm = AlarmNode::new();
    assert_eq!(alarm.node_id(), "alarm");
    assert_eq!(alarm.name(), "device alarm management");
    let properties = alarm.properties();
    assert_eq!(properties.len(), AlarmNode::PROPERTY_COUNT);
    assert_eq!(properties[0].prop_id, "any");
    assert_eq!(properties[0].value, ValueKind::AlarmOutput);
    assert_eq!(ClockNode::new().properties().len(), 7);
    assert_eq!(FanSpeedSettingsNode::new().node_id(), "fan-speed");
    assert_eq!(FilterNode::new().property(3).value, ValueKind::Replace);
}

#[test]
fn property_registers_resolve_by_name() {
    let clock = ClockNode::new();
    let regs = clock.property(0).source.registers().unwrap();
    assert_eq!(regs.len(), 6);
    assert_eq!(regs[0].name(), "TIME_YEAR");
    assert!(matches!(clock.property(6).source, PropertySource::Action));
    assert!(clock.property(6).source.registers().unwrap().is_empty());
    let mode = ModeNode::new();
    let crowded = find_property(&mode.properties(), "crowded-duration").unwrap();
    assert!(mode.property(crowded).source.registers().is_none());
}

#[test]
fn needed_registers_are_read_in_few_reads() {
    let regs = vec![
        RegisterIndex::from_address(1001).unwrap(),
        RegisterIndex::from_address(1002).unwrap(),
        RegisterIndex::from_name("SENSOR_OAT").unwrap(),
    ];
    let needed = needed_registers(&regs);
    assert!(needed.is_set(1001) && needed.is_set(1002) && needed.is_set(12102));
    assert!(!needed.is_set(1003));
    assert_eq!(read_schedule(&needed), vec![(1001, 2), (12102, 1)]);
}

#[test]
fn register_changes_and_cache_updates() {
    let mut cache = Box::new(ModbusDeviceValues::new());
    cache.set_value(11, 0x0102);
    let bytes = [0x00, 0x01, 0x01, 0x02, 0x00, 0x09, 0x07];
    let changed = changed_registers(&cache, 10, &bytes);
    assert!(changed.is_set(10));
    assert!(!changed.is_set(11));
    assert!(changed.is_set(12));
    assert!(!changed.is_set(13));
    store_response(&mut cache, 10, &bytes);
    assert_eq!(cache.value_of_address(10), Some(1));
    assert_eq!(cache.value_of_address(11), Some(0x0102));
    assert_eq!(cache.value_of_address(12), Some(9));
    assert_eq!(cache.value_of_address(13), None);
    let again = changed_registers(&cache, 10, &bytes);
    assert!(again.set_bits().is_empty());
}

#[test]
fn touched_properties_in_order() {
    let r = |a: u16| RegisterIndex::from_address(a).unwrap();
    let mut changed = RegisterBitmask::new();
    changed.set(1002);
    let registers = vec![vec![r(1001)], vec![r(1001), r(1002)], vec![], vec![r(1002)]];
    assert_eq!(touched_properties(&changed, &registers), vec![1, 3]);
}

fn reading(value: &str, target: Option<&str>) -> Option<Result<PropertyReading, ()>> {
    Some(Ok(PropertyReading { value: value.to_string(), target: target.map(str::to_string) }))
}

#[test]
fn property_changes() {
    assert_eq!(property_change(&None, &None), (false, false));
    assert_eq!(property_change(&None, &reading("1", None)), (true, false));
    assert_eq!(property_change(&None, &reading("1", Some("1"))), (true, true));
    assert_eq!(property_change(&Some(Err(())), &reading("1", None)), (true, false));
    assert_eq!(property_change(&reading("1", None), &Some(Err(()))), (false, false));
    assert_eq!(property_change(&reading("1", None), &reading("1", None)), (false, false));
    assert_eq!(property_change(&reading("1", None), &reading("2", None)), (true, false));
    assert_eq!(
        property_change(&reading("clear", Some("clear")), &reading("clear", Some("firing"))),
        (false, true)
    );
    assert_eq!(
        property_change(&reading("clear", Some("firing")), &reading("firing", None)),
        (true, false)
    );
}

#[test]
fn event_steps() {
    let read = Operation::GetHoldings { address: 1001, count: 2 };
    let values = ResponseKind::GetHoldings { values: vec![0, 1, 0, 2] };
    assert_eq!(
        event_step(EventOrigin::Periodic, &read, &values),
        EventStep::StoreAndPublishChanges(1001)
    );
    assert_eq!(
        event_step(EventOrigin::HomieSet, &read, &values),
        EventStep::StoreAndPublishProperty(1001)
    );
    assert_eq!(
        event_step(EventOrigin::Periodic, &read, &ResponseKind::ErrorCode(2)),
        EventStep::ReportException(2)
    );
    assert_eq!(
        event_step(EventOrigin::HomieSet, &read, &ResponseKind::ErrorCode(3)),
        EventStep::ReportExceptionAndRepublish(3)
    );
}

#[test]
fn command_steps() {
    assert_eq!(command_step(false, true, true, true, true), CommandStep::Ignore);
    assert_eq!(command_step(true, false, true, true, true), CommandStep::Reject);
    assert_eq!(command_step(true, true, true, false, true), CommandStep::Reject);
    assert_eq!(command_step(true, true, true, true, false), CommandStep::RepublishCurrent);
    assert_eq!(command_step(true, true, true, true, true), CommandStep::Apply);
}

#[test]
fn descriptions_of_properties() {
    let alarm = AlarmNode::new();
    let any = alarm.property(0);
    let regs = any.source.registers().unwrap();
    let plan = description_plan(&any, &regs);
    assert_eq!(plan.datatype, HomieDataKind::Enum);
    assert!(!plan.settable);
    assert!(plan.retained);
    assert_eq!(plan.enum_names, Some(vec!["clear", "firing"]));
    assert_eq!(plan.range, RangeFormat::Unchanged);

    let saf = alarm.property(1);
    let plan = description_plan(&saf, &saf.source.registers().unwrap());
    assert_eq!(plan.enum_names, Some(vec!["clear", "firing"]));

    let clock = ClockNode::new();
    let sync = clock.property(6);
    let plan = description_plan(&sync, &vec![]);
    assert!(plan.settable);
    assert!(!plan.retained);
    assert_eq!(plan.enum_names, Some(vec!["now"]));
    let time = clock.property(0);
    let plan = description_plan(&time, &time.source.registers().unwrap());
    assert_eq!(plan.datatype, HomieDataKind::Datetime);
    assert!(plan.settable);
}

#[test]
fn descriptions_of_register_properties() {
    let fan = FanSpeedSettingsNode::new();
    let min_level = fan.property(0);
    let regs = min_level.source.registers().unwrap();
    let plan = description_plan(&min_level, &regs);
    assert_eq!(plan.datatype, HomieDataKind::Enum);
    assert!(plan.settable);
    assert_eq!(plan.enum_names, Some(vec!["low", "normal"]));
    let percentage = fan.property(find_property(&fan.properties(), "supply-percentage-for-low").unwrap());
    let regs = percentage.source.registers().unwrap();
    let plan = description_plan(&percentage, &regs);
    assert_eq!(plan.datatype, HomieDataKind::Integer);
    assert!(matches!(plan.range, RangeFormat::Integer { .. }));
    assert_eq!(plan.unit, None);
}

#[test]
fn write_plans() {
    let plan = register_set_plan(2001, 215);
    assert_eq!(plan.write, Operation::SetHolding { address: 2001, value: 215 });
    assert_eq!(plan.read_back, Operation::GetHoldings { address: 2001, count: 1 });
    let plan = alarm_set_plan(AlarmValue::Clear, 15002).ok().unwrap();
    assert_eq!(plan.write, Operation::SetHolding { address: 15003, value: 1 });
    assert_eq!(plan.read_back, Operation::GetHoldings { address: 15002, count: 1 });
    assert!(matches!(alarm_set_plan(AlarmValue::Firing, 15002), Err(ALARM_NOT_CLEARABLE)));
    let set = RegisterIndex::from_name("FILTER_PERIOD_SET").unwrap();
    let plan = filter_replace_plan(set);
    assert_eq!(plan.read_back, Operation::GetHoldings { address: 7004, count: 3 });
    let r = |n: &str| RegisterIndex::from_name(n).unwrap();
    let reads = alarm_readout(
        r("ALARM_SAF_CTRL_ALARM"),
        r("ALARM_BYS_ALARM"),
        r("ALARM_MANUAL_OVERRIDE_OUTPUTS_ALARM"),
    );
    assert_eq!(reads[0], Operation::GetHoldings { address: 15002, count: 119 });
    assert_eq!(reads[2], Operation::GetHoldings { address: 15502, count: 42 });
}

#[test]
fn celsius_registers_carry_their_unit() {
    let clock = ClockNode::new();
    let _ = clock;
    let heater = systemair_save_tools::homie::nodes::HeaterNode::new();
    let offset = heater.property(find_property(&heater.properties(), "eco-temperature-offset").unwrap());
    let regs = offset.source.registers().unwrap();
    let plan = description_plan(&offset, &regs);
    assert_eq!(plan.datatype, HomieDataKind::Float);
    assert_eq!(plan.unit, Some(Unit::DegreeCelsius));
    assert!(matches!(plan.range, RangeFormat::Float { scale: 10, .. }));
}

#[test]
fn switch_texts_parse_back() {
    for b in [true, false] {
        let v = BooleanValue(b);
        assert_eq!(BooleanValue::from_text(v.value()), Some(v));
    }
}

use systemair_save_tools::homie::readings::{property_reading, reading_of_value};

#[test]
fn readings_of_register_values() {
    let r = reading_of_value(ValueKind::Boolean, Value::U16(3)).ok().unwrap();
    assert_eq!(r.value, "true");
    assert!(r.target.is_none());
    let r = reading_of_value(ValueKind::Uint, Value::U16(1234)).ok().unwrap();
    assert_eq!(r.value, "1234");
    let r = reading_of_value(ValueKind::StopDelay, Value::U16(7)).ok().unwrap();
    assert_eq!(r.value, "PT7M");
    let r = reading_of_value(ValueKind::Alarm, Value::U16(2)).ok().unwrap();
    assert_eq!(r.value, "clear");
    assert_eq!(r.target.as_deref(), Some("firing"));
    let r = reading_of_value(ValueKind::Weekday, Value::U16(2)).ok().unwrap();
    assert_eq!(r.value, "wednesday");
    assert!(reading_of_value(ValueKind::Weekday, Value::U16(9)).is_err());
    assert!(reading_of_value(ValueKind::Alarm, Value::U16(4)).is_err());
}

#[test]
fn summary_alarm_targets_its_value() {
    let r = reading_of_value(ValueKind::AlarmOutput, Value::U16(1)).ok().unwrap();
    assert_eq!(r.value, "firing");
    assert_eq!(r.target.as_deref(), Some("firing"));
    let r = reading_of_value(ValueKind::AlarmOutput, Value::U16(0)).ok().unwrap();
    assert_eq!(r.value, "clear");
    assert_eq!(r.target.as_deref(), Some("clear"));
    assert!(reading_of_value(ValueKind::AlarmOutput, Value::U16(2)).is_err());
}

#[test]
fn readings_from_the_cache() {
    let mut cache = Box::new(ModbusDeviceValues::new());
    let day = vec![RegisterIndex::from_name("DAY_OF_THE_WEEK").unwrap()];
    assert!(property_reading(ValueKind::Weekday, &day, &cache).is_none());
    cache.set_value(day[0].address(), 6);
    let r = property_reading(ValueKind::Weekday, &day, &cache).unwrap().ok().unwrap();
    assert_eq!(r.value, "sunday");
}

use systemair_save_tools::homie::actions::{after_write, clock_read_back, clock_words, SetStep};
use systemair_save_tools::homie::device::{device_event_step, DeviceEvent};

#[test]
fn device_events_including_action_answers() {
    let read = Operation::GetHoldings { address: 1001, count: 2 };
    let event = DeviceEvent::Periodic {
        operation: read,
        response: ResponseKind::GetHoldings { values: vec![0, 1, 0, 2] },
    };
    assert_eq!(device_event_step(&event), EventStep::StoreAndPublishChanges(1001));
    let event = DeviceEvent::HomieSet { operation: read, response: ResponseKind::ErrorCode(4) };
    assert_eq!(device_event_step(&event), EventStep::ReportExceptionAndRepublish(4));
    assert_eq!(device_event_step(&DeviceEvent::ActionResponse), EventStep::PublishValue);
}

#[test]
fn a_set_reads_back_unless_the_write_failed() {
    let plan = register_set_plan(2001, 215);
    assert_eq!(
        after_write(&plan, &ResponseKind::ErrorCode(2)),
        SetStep::Finish { operation: Operation::SetHolding { address: 2001, value: 215 } }
    );
    assert_eq!(
        after_write(&plan, &ResponseKind::SetHolding { value: 215 }),
        SetStep::ReadBack { operation: Operation::GetHoldings { address: 2001, count: 1 } }
    );
}

#[test]
fn clock_synchronisation_words() {
    assert_eq!(clock_words(2024, 2, 29, 23, 59, 58), vec![2024, 2, 29, 23, 59, 58]);
    assert_eq!(clock_words(-1, 1, 1, 0, 0, 0), vec![0xffff, 1, 1, 0, 0, 0]);
    let year = RegisterIndex::from_name("TIME_YEAR").unwrap();
    assert_eq!(
        clock_read_back(year),
        Operation::GetHoldings { address: year.address(), count: 6 }
    );
}
