//! What a property publishes for the values of its registers, for the kinds of value whose text
//! is exact: switches, numbers, durations in whole units and enumerations.
use crate::homie::device::PropertyReading;
use crate::homie::enums::{
    AirflowLevel, AlarmOutputValue, AlarmValue, CompensationType, ControlMode, CurrentMode,
    DigitalInputConnection, DigitalInputPolarity, IaqLevel, RegulationType, Season,
    WeeklyScheduleLevel, Weekday,
};
use crate::homie::property::ValueKind;
use crate::homie::values::{
    boolean_text, duration_text, BooleanValue, ReplacementPeriod, StopDelay, UintValue,
};
use crate::modbus_device_cache::ModbusDeviceValues;
use crate::registers::{value_of_word, word_of_value, RegisterIndex, Value};
use crate::text::{decimal, string_of_str};
use vstd::prelude::*;

verus! {

/// The kinds of value whose published text this module gives.
pub open spec fn exact_text(kind: ValueKind) -> bool {
    match kind {
        ValueKind::Celsius | ValueKind::SpecificHumidity | ValueKind::CooldownDuration
        | ValueKind::RemainingTime | ValueKind::Clock | ValueKind::Uptime | ValueKind::Time
        | ValueKind::SynchronizeClock | ValueKind::Replace => false,
        _ => true,
    }
}

/// The published name of the enumeration variant that a register word stands for.
pub open spec fn enum_name(kind: ValueKind, word: u16) -> Option<Seq<char>> {
    match kind {
        ValueKind::Weekday => match Weekday::of_word(word) {
            Some(v) => Some(v.name_text()),
            None => None,
        },
        ValueKind::CompensationType => match CompensationType::of_word(word) {
            Some(v) => Some(v.name_text()),
            None => None,
        },
        ValueKind::DigitalInputConnection => match DigitalInputConnection::of_word(word) {
            Some(v) => Some(v.name_text()),
            None => None,
        },
        ValueKind::DigitalInputPolarity => match DigitalInputPolarity::of_word(word) {
            Some(v) => Some(v.name_text()),
            None => None,
        },
        ValueKind::ControlMode => match ControlMode::of_word(word) {
            Some(v) => Some(v.name_text()),
            None => None,
        },
        ValueKind::CurrentMode => match CurrentMode::of_word(word) {
            Some(v) => Some(v.name_text()),
            None => None,
        },
        ValueKind::AirflowLevel => match AirflowLevel::of_word(word) {
            Some(v) => Some(v.name_text()),
            None => None,
        },
        ValueKind::WeeklyScheduleLevel => match WeeklyScheduleLevel::of_word(word) {
            Some(v) => Some(v.name_text()),
            None => None,
        },
        ValueKind::RegulationType => match RegulationType::of_word(word) {
            Some(v) => Some(v.name_text()),
            None => None,
        },
        ValueKind::Season => match Season::of_word(word) {
            Some(v) => Some(v.name_text()),
            None => None,
        },
        ValueKind::IaqLevel => match IaqLevel::of_word(word) {
            Some(v) => Some(v.name_text()),
            None => None,
        },
        _ => None,
    }
}

/// The published value and target of a property of an exact kind, from the word of its first
/// register; an error when the word stands for no value of the kind. Alarms carry a target, and
/// the summary alarm's target is always its value.
pub open spec fn reading_text(kind: ValueKind, word: u16) -> Result<
    (Seq<char>, Option<Seq<char>>),
    (),
> {
    match kind {
        ValueKind::Boolean => Ok((boolean_text(BooleanValue(word != 0)), None)),
        ValueKind::Uint | ValueKind::UintPercent => Ok((decimal(word as nat), None)),
        ValueKind::StopDelay => Ok((duration_text(seq!['P', 'T'], word), None)),
        ValueKind::ReplacementPeriod => Ok((duration_text(seq!['P'], word), None)),
        ValueKind::Alarm => match AlarmValue::of_word(word) {
            Some(a) => Ok(
                (
                    if a.fires() {
                        "firing"@
                    } else {
                        "clear"@
                    },
                    Some(
                        if a.heads_for_firing() {
                            "firing"@
                        } else {
                            "clear"@
                        },
                    ),
                ),
            ),
            None => Err(()),
        },
        ValueKind::AlarmOutput => match AlarmOutputValue::of_word(word) {
            Some(v) => Ok((v.name_text(), Some(v.name_text()))),
            None => Err(()),
        },
        _ => match enum_name(kind, word) {
            Some(name) => Ok((name, None)),
            None => Err(()),
        },
    }
}

fn enum_text(kind: ValueKind, word: u16) -> (r: Option<&'static str>)
    ensures
        match r {
            Some(s) => enum_name(kind, word) == Some(s@),
            None => enum_name(kind, word) is None,
        },
{
    match kind {
        ValueKind::Weekday => match Weekday::from_repr(word) {
            Some(v) => Some(v.name()),
            None => None,
        },
        ValueKind::CompensationType => match CompensationType::from_repr(word) {
            Some(v) => Some(v.name()),
            None => None,
        },
        ValueKind::DigitalInputConnection => match DigitalInputConnection::from_repr(word) {
            Some(v) => Some(v.name()),
            None => None,
        },
        ValueKind::DigitalInputPolarity => match DigitalInputPolarity::from_repr(word) {
            Some(v) => Some(v.name()),
            None => None,
        },
        ValueKind::ControlMode => match ControlMode::from_repr(word) {
            Some(v) => Some(v.name()),
            None => None,
        },
        ValueKind::CurrentMode => match CurrentMode::from_repr(word) {
            Some(v) => Some(v.name()),
            None => None,
        },
        ValueKind::AirflowLevel => match AirflowLevel::from_repr(word) {
            Some(v) => Some(v.name()),
            None => None,
        },
        ValueKind::WeeklyScheduleLevel => match WeeklyScheduleLevel::from_repr(word) {
            Some(v) => Some(v.name()),
            None => None,
        },
        ValueKind::RegulationType => match RegulationType::from_repr(word) {
            Some(v) => Some(v.name()),
            None => None,
        },
        ValueKind::Season => match Season::from_repr(word) {
            Some(v) => Some(v.name()),
            None => None,
        },
        ValueKind::IaqLevel => match IaqLevel::from_repr(word) {
            Some(v) => Some(v.name()),
            None => None,
        },
        _ => None,
    }
}

/// A property's reading for the value of its first register: its published value and target,
/// or an error when the value stands for no value of the kind.
pub fn reading_of_value(kind: ValueKind, value: Value) -> (r: Result<PropertyReading, ()>)
    requires
        exact_text(kind),
    ensures
        match (r, reading_text(kind, word_of_value(value))) {
            (Ok(reading), Ok((text, target))) => reading.value@ == text && match reading.target {
                Some(t) => target == Some(t@),
                None => target is None,
            },
            (Err(_), Err(_)) => true,
            _ => false,
        },
{
    let word = value.into_inner();
    match kind {
        ValueKind::Boolean => Ok(
            PropertyReading {
                value: string_of_str(BooleanValue(word != 0).value()),
                target: None,
            },
        ),
        ValueKind::Uint | ValueKind::UintPercent => Ok(
            PropertyReading { value: UintValue(word).value(), target: None },
        ),
        ValueKind::StopDelay => Ok(PropertyReading { value: StopDelay(word).value(), target: None }),
        ValueKind::ReplacementPeriod => Ok(
            PropertyReading { value: ReplacementPeriod { months: word }.value(), target: None },
        ),
        ValueKind::Alarm => match AlarmValue::from_repr(word) {
            Some(a) => {
                let target = match a.target() {
                    Some(t) => t,
                    None => "clear",
                };
                Ok(
                    PropertyReading {
                        value: string_of_str(a.value()),
                        target: Some(string_of_str(target)),
                    },
                )
            },
            None => Err(()),
        },
        ValueKind::AlarmOutput => match AlarmOutputValue::from_repr(word) {
            Some(v) => Ok(
                PropertyReading {
                    value: string_of_str(v.name()),
                    target: Some(string_of_str(v.name())),
                },
            ),
            None => Err(()),
        },
        _ => match enum_text(kind, word) {
            Some(name) => Ok(PropertyReading { value: string_of_str(name), target: None }),
            None => Err(()),
        },
    }
}

/// A property's reading from the register cache: nothing while its first register has not been
/// read, else the reading for that register's value.
pub fn property_reading(
    kind: ValueKind,
    registers: &Vec<RegisterIndex>,
    cache: &ModbusDeviceValues,
) -> (r: Option<Result<PropertyReading, ()>>)
    requires
        exact_text(kind),
        registers@.len() >= 1,
    ensures
        !cache@.dom().contains(registers@[0].address_spec()) ==> r is None,
        cache@.dom().contains(registers@[0].address_spec()) ==> r is Some,
        r matches Some(reading) ==> match (
            reading,
            reading_text(kind, cache@[registers@[0].address_spec()]),
        ) {
            (Ok(reading), Ok((text, target))) => reading.value@ == text && match reading.target {
                Some(t) => target == Some(t@),
                None => target is None,
            },
            (Err(_), Err(_)) => true,
            _ => false,
        },
{
    match cache.value_of(registers[0]) {
        Some(value) => {
            let ghost word = cache@[registers@[0].address_spec()];
            proof {
                crate::registers::lemma_word_of_value_of_word(registers@[0].data_type_spec(), word);
            }
            Some(reading_of_value(kind, value))
        },
        None => None,
    }
}

} // verus!
