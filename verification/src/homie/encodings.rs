//! The register encodings of the device's enumerated values, as the device documents them:
//! which register word stands for which published name. Laws tie each enumeration, the text
//! that a property publishes for a register word, and the word that a Homie `set` writes, to
//! these tables.
use crate::homie::enums::{
    AlarmValue, AlarmOutputValue, Weekday, DaylightMode, CompensationType, DigitalInputConnection,
    DigitalInputPolarity, ControlMode, CurrentMode, AirflowLevel, WeeklyScheduleLevel,
    RegulationType, Season, IaqLevel,
};
use crate::homie::property::ValueKind;
use crate::homie::readings::reading_text;
use crate::text::decimal;
use vstd::prelude::*;

verus! {

/// The published name of each register word of the state of an alarm: whether it fires, and whether
/// it is pending for the other state: 0 clear, 1 firing, 2 evaluating, 3 acknowledged.
pub open spec fn alarm_value_names(word: u16) -> Option<Seq<char>> {
    if word == 0 {
        Some("clear"@)
    } else if word == 1 {
        Some("firing"@)
    } else if word == 2 {
        Some("evaluating"@)
    } else if word == 3 {
        Some("acknowledged"@)
    } else {
        None
    }
}

/// The encoding of `AlarmValue` is the table [`alarm_value_names`]: a register word stands for a
/// variant exactly when the table lists it, and then for the variant published under the listed
/// name; each variant is written as the word listed with its name, and a name read from a Homie
/// `set` is written as the word listed with that name.
pub proof fn lemma_alarm_value_encoding()
    ensures
        forall|word: u16|
            match #[trigger] AlarmValue::of_word(word) {
                Some(v) => alarm_value_names(word) == Some(v.name_text()),
                None => alarm_value_names(word) is None,
            },
        forall|v: AlarmValue| alarm_value_names(#[trigger] v.word()) == Some(v.name_text()),
        forall|text: Seq<char>|
            #[trigger] AlarmValue::named(text) matches Some(v) ==> alarm_value_names(v.word()) == Some(text),
{
    assert forall|v: AlarmValue| alarm_value_names(#[trigger] v.word()) == Some(v.name_text()) by {
        match v {
            AlarmValue::Clear => {},
            AlarmValue::Firing => {},
            AlarmValue::Evaluating => {},
            AlarmValue::Acknowledged => {},
        }
    }
}

/// The published name of each register word of whether any alarm fires: 0 clear, 1 firing.
pub open spec fn alarm_output_value_names(word: u16) -> Option<Seq<char>> {
    if word == 0 {
        Some("clear"@)
    } else if word == 1 {
        Some("firing"@)
    } else {
        None
    }
}

/// The encoding of `AlarmOutputValue` is the table [`alarm_output_value_names`]: a register word
/// stands for a variant exactly when the table lists it, and then for the variant published under
/// the listed name; each variant is written as the word listed with its name, and a name read from
/// a Homie `set` is written as the word listed with that name. A property of this kind publishes,
/// for a register word, the listed name, with the same name as its target, and is an error for an
/// unlisted word.
pub proof fn lemma_alarm_output_value_encoding()
    ensures
        forall|word: u16|
            match #[trigger] AlarmOutputValue::of_word(word) {
                Some(v) => alarm_output_value_names(word) == Some(v.name_text()),
                None => alarm_output_value_names(word) is None,
            },
        forall|v: AlarmOutputValue| alarm_output_value_names(#[trigger] v.word()) == Some(v.name_text()),
        forall|text: Seq<char>|
            #[trigger] AlarmOutputValue::named(text) matches Some(v) ==> alarm_output_value_names(v.word()) == Some(text),
        forall|word: u16|
            #[trigger] reading_text(ValueKind::AlarmOutput, word) == match alarm_output_value_names(word) {
                Some(n) => Ok((n, Some(n))),
                None => Err(()),
            },
{
    assert forall|v: AlarmOutputValue| alarm_output_value_names(#[trigger] v.word()) == Some(v.name_text()) by {
        match v {
            AlarmOutputValue::Clear => {},
            AlarmOutputValue::Firing => {},
        }
    }
}

/// The published name of each register word of the day of the week: 0 monday, 1 tuesday, 2
/// wednesday, 3 thursday, 4 friday, 5 saturday, 6 sunday.
pub open spec fn weekday_names(word: u16) -> Option<Seq<char>> {
    if word == 0 {
        Some("monday"@)
    } else if word == 1 {
        Some("tuesday"@)
    } else if word == 2 {
        Some("wednesday"@)
    } else if word == 3 {
        Some("thursday"@)
    } else if word == 4 {
        Some("friday"@)
    } else if word == 5 {
        Some("saturday"@)
    } else if word == 6 {
        Some("sunday"@)
    } else {
        None
    }
}

/// The encoding of `Weekday` is the table [`weekday_names`]: a register word stands for a variant
/// exactly when the table lists it, and then for the variant published under the listed name; each
/// variant is written as the word listed with its name, and a name read from a Homie `set` is
/// written as the word listed with that name. A property of this kind publishes, for a register
/// word, the listed name and no target, and is an error for an unlisted word.
pub proof fn lemma_weekday_encoding()
    ensures
        forall|word: u16|
            match #[trigger] Weekday::of_word(word) {
                Some(v) => weekday_names(word) == Some(v.name_text()),
                None => weekday_names(word) is None,
            },
        forall|v: Weekday| weekday_names(#[trigger] v.word()) == Some(v.name_text()),
        forall|text: Seq<char>|
            #[trigger] Weekday::named(text) matches Some(v) ==> weekday_names(v.word()) == Some(text),
        forall|word: u16|
            #[trigger] reading_text(ValueKind::Weekday, word) == match weekday_names(word) {
                Some(n) => Ok((n, None::<Seq<char>>)),
                None => Err(()),
            },
{
    assert forall|v: Weekday| weekday_names(#[trigger] v.word()) == Some(v.name_text()) by {
        match v {
            Weekday::Monday => {},
            Weekday::Tuesday => {},
            Weekday::Wednesday => {},
            Weekday::Thursday => {},
            Weekday::Friday => {},
            Weekday::Saturday => {},
            Weekday::Sunday => {},
        }
    }
}

/// The published name of each register word of winter or summer time: 0 winter-time, 1 summer-time.
pub open spec fn daylight_mode_names(word: u16) -> Option<Seq<char>> {
    if word == 0 {
        Some("winter-time"@)
    } else if word == 1 {
        Some("summer-time"@)
    } else {
        None
    }
}

/// The encoding of `DaylightMode` is the table [`daylight_mode_names`]: a register word stands for
/// a variant exactly when the table lists it, and then for the variant published under the listed
/// name; each variant is written as the word listed with its name, and a name read from a Homie
/// `set` is written as the word listed with that name.
pub proof fn lemma_daylight_mode_encoding()
    ensures
        forall|word: u16|
            match #[trigger] DaylightMode::of_word(word) {
                Some(v) => daylight_mode_names(word) == Some(v.name_text()),
                None => daylight_mode_names(word) is None,
            },
        forall|v: DaylightMode| daylight_mode_names(#[trigger] v.word()) == Some(v.name_text()),
        forall|text: Seq<char>|
            #[trigger] DaylightMode::named(text) matches Some(v) ==> daylight_mode_names(v.word()) == Some(text),
{
    assert forall|v: DaylightMode| daylight_mode_names(#[trigger] v.word()) == Some(v.name_text()) by {
        match v {
            DaylightMode::WinterTime => {},
            DaylightMode::SummerTime => {},
        }
    }
}

/// The published name of each register word of which fans the outdoor temperature compensation
/// drives: 0 saf-only, 1 saf-eaf.
pub open spec fn compensation_type_names(word: u16) -> Option<Seq<char>> {
    if word == 0 {
        Some("saf-only"@)
    } else if word == 1 {
        Some("saf-eaf"@)
    } else {
        None
    }
}

/// The encoding of `CompensationType` is the table [`compensation_type_names`]: a register word
/// stands for a variant exactly when the table lists it, and then for the variant published under
/// the listed name; each variant is written as the word listed with its name, and a name read from
/// a Homie `set` is written as the word listed with that name. A property of this kind publishes,
/// for a register word, the listed name and no target, and is an error for an unlisted word.
pub proof fn lemma_compensation_type_encoding()
    ensures
        forall|word: u16|
            match #[trigger] CompensationType::of_word(word) {
                Some(v) => compensation_type_names(word) == Some(v.name_text()),
                None => compensation_type_names(word) is None,
            },
        forall|v: CompensationType| compensation_type_names(#[trigger] v.word()) == Some(v.name_text()),
        forall|text: Seq<char>|
            #[trigger] CompensationType::named(text) matches Some(v) ==> compensation_type_names(v.word()) == Some(text),
        forall|word: u16|
            #[trigger] reading_text(ValueKind::CompensationType, word) == match compensation_type_names(word) {
                Some(n) => Ok((n, None::<Seq<char>>)),
                None => Err(()),
            },
{
    assert forall|v: CompensationType| compensation_type_names(#[trigger] v.word()) == Some(v.name_text()) by {
        match v {
            CompensationType::SafOnly => {},
            CompensationType::SafEaf => {},
        }
    }
}

/// The published name of each register word of what a digital input is connected to: 0 none, 1
/// away-mode, 3 vacuum-cleaner-mode, 4 cooker-hood-mode, 5 crowded-mode, 6 extra-controller-
/// emergency-thermostat, 7 external-stop, 8 extra-controller-alarm, 9 fireplace-mode, 10 holiday-
/// mode, 11 refresh-mode, 12 rotor-guard-sensor, 13 change-over-feedback, 14 fire-alarm, 15
/// configurable-digital-input1-mode, 16 configurable-digital-input2-mode, 17 configurable-digital-
/// input3-mode, 18 pressure-guard.
pub open spec fn digital_input_connection_names(word: u16) -> Option<Seq<char>> {
    if word == 0 {
        Some("none"@)
    } else if word == 1 {
        Some("away-mode"@)
    } else if word == 3 {
        Some("vacuum-cleaner-mode"@)
    } else if word == 4 {
        Some("cooker-hood-mode"@)
    } else if word == 5 {
        Some("crowded-mode"@)
    } else if word == 6 {
        Some("extra-controller-emergency-thermostat"@)
    } else if word == 7 {
        Some("external-stop"@)
    } else if word == 8 {
        Some("extra-controller-alarm"@)
    } else if word == 9 {
        Some("fireplace-mode"@)
    } else if word == 10 {
        Some("holiday-mode"@)
    } else if word == 11 {
        Some("refresh-mode"@)
    } else if word == 12 {
        Some("rotor-guard-sensor"@)
    } else if word == 13 {
        Some("change-over-feedback"@)
    } else if word == 14 {
        Some("fire-alarm"@)
    } else if word == 15 {
        Some("configurable-digital-input1-mode"@)
    } else if word == 16 {
        Some("configurable-digital-input2-mode"@)
    } else if word == 17 {
        Some("configurable-digital-input3-mode"@)
    } else if word == 18 {
        Some("pressure-guard"@)
    } else {
        None
    }
}

/// The encoding of `DigitalInputConnection` is the table [`digital_input_connection_names`]: a
/// register word stands for a variant exactly when the table lists it, and then for the variant
/// published under the listed name; each variant is written as the word listed with its name, and a
/// name read from a Homie `set` is written as the word listed with that name. A property of this
/// kind publishes, for a register word, the listed name and no target, and is an error for an
/// unlisted word.
pub proof fn lemma_digital_input_connection_encoding()
    ensures
        forall|word: u16|
            match #[trigger] DigitalInputConnection::of_word(word) {
                Some(v) => digital_input_connection_names(word) == Some(v.name_text()),
                None => digital_input_connection_names(word) is None,
            },
        forall|v: DigitalInputConnection| digital_input_connection_names(#[trigger] v.word()) == Some(v.name_text()),
        forall|text: Seq<char>|
            #[trigger] DigitalInputConnection::named(text) matches Some(v) ==> digital_input_connection_names(v.word()) == Some(text),
        forall|word: u16|
            #[trigger] reading_text(ValueKind::DigitalInputConnection, word) == match digital_input_connection_names(word) {
                Some(n) => Ok((n, None::<Seq<char>>)),
                None => Err(()),
            },
{
    assert forall|v: DigitalInputConnection| digital_input_connection_names(#[trigger] v.word()) == Some(v.name_text()) by {
        match v {
            DigitalInputConnection::NoConnection => {},
            DigitalInputConnection::AwayMode => {},
            DigitalInputConnection::VacuumCleanerMode => {},
            DigitalInputConnection::CookerHoodMode => {},
            DigitalInputConnection::CrowdedMode => {},
            DigitalInputConnection::ExtraControllerEmergencyThermostat => {},
            DigitalInputConnection::ExternalStop => {},
            DigitalInputConnection::ExtraControllerAlarm => {},
            DigitalInputConnection::FireplaceMode => {},
            DigitalInputConnection::HolidayMode => {},
            DigitalInputConnection::RefreshMode => {},
            DigitalInputConnection::RotorGuardSensor => {},
            DigitalInputConnection::ChangeOverFeedback => {},
            DigitalInputConnection::FireAlarm => {},
            DigitalInputConnection::ConfigurableDigitalInput1Mode => {},
            DigitalInputConnection::ConfigurableDigitalInput2Mode => {},
            DigitalInputConnection::ConfigurableDigitalInput3Mode => {},
            DigitalInputConnection::PressureGuard => {},
        }
    }
}

/// The published name of each register word of the polarity of a digital input: 0 normally-open, 1
/// mormally-closed.
pub open spec fn digital_input_polarity_names(word: u16) -> Option<Seq<char>> {
    if word == 0 {
        Some("normally-open"@)
    } else if word == 1 {
        Some("mormally-closed"@)
    } else {
        None
    }
}

/// The encoding of `DigitalInputPolarity` is the table [`digital_input_polarity_names`]: a register
/// word stands for a variant exactly when the table lists it, and then for the variant published
/// under the listed name; each variant is written as the word listed with its name, and a name read
/// from a Homie `set` is written as the word listed with that name. A property of this kind
/// publishes, for a register word, the listed name and no target, and is an error for an unlisted
/// word.
pub proof fn lemma_digital_input_polarity_encoding()
    ensures
        forall|word: u16|
            match #[trigger] DigitalInputPolarity::of_word(word) {
                Some(v) => digital_input_polarity_names(word) == Some(v.name_text()),
                None => digital_input_polarity_names(word) is None,
            },
        forall|v: DigitalInputPolarity| digital_input_polarity_names(#[trigger] v.word()) == Some(v.name_text()),
        forall|text: Seq<char>|
            #[trigger] DigitalInputPolarity::named(text) matches Some(v) ==> digital_input_polarity_names(v.word()) == Some(text),
        forall|word: u16|
            #[trigger] reading_text(ValueKind::DigitalInputPolarity, word) == match digital_input_polarity_names(word) {
                Some(n) => Ok((n, None::<Seq<char>>)),
                None => Err(()),
            },
{
    assert forall|v: DigitalInputPolarity| digital_input_polarity_names(#[trigger] v.word()) == Some(v.name_text()) by {
        match v {
            DigitalInputPolarity::NormallyOpen => {},
            DigitalInputPolarity::MormallyClosed => {},
        }
    }
}

/// The published name of each register word of what the temperature controller controls: 0 supply-
/// air, 1 room, 2 extract-air.
pub open spec fn control_mode_names(word: u16) -> Option<Seq<char>> {
    if word == 0 {
        Some("supply-air"@)
    } else if word == 1 {
        Some("room"@)
    } else if word == 2 {
        Some("extract-air"@)
    } else {
        None
    }
}

/// The encoding of `ControlMode` is the table [`control_mode_names`]: a register word stands for a
/// variant exactly when the table lists it, and then for the variant published under the listed
/// name; each variant is written as the word listed with its name, and a name read from a Homie
/// `set` is written as the word listed with that name. A property of this kind publishes, for a
/// register word, the listed name and no target, and is an error for an unlisted word.
pub proof fn lemma_control_mode_encoding()
    ensures
        forall|word: u16|
            match #[trigger] ControlMode::of_word(word) {
                Some(v) => control_mode_names(word) == Some(v.name_text()),
                None => control_mode_names(word) is None,
            },
        forall|v: ControlMode| control_mode_names(#[trigger] v.word()) == Some(v.name_text()),
        forall|text: Seq<char>|
            #[trigger] ControlMode::named(text) matches Some(v) ==> control_mode_names(v.word()) == Some(text),
        forall|word: u16|
            #[trigger] reading_text(ValueKind::ControlMode, word) == match control_mode_names(word) {
                Some(n) => Ok((n, None::<Seq<char>>)),
                None => Err(()),
            },
{
    assert forall|v: ControlMode| control_mode_names(#[trigger] v.word()) == Some(v.name_text()) by {
        match v {
            ControlMode::SupplyAir => {},
            ControlMode::Room => {},
            ControlMode::ExtractAir => {},
        }
    }
}

/// The published name of each register word of the operating mode the device is in: 0 auto, 1
/// manual, 2 crowded, 3 refresh, 4 fireplace, 5 away, 6 holiday, 7 cooker-hood, 8 vacuum-cleaner, 9
/// configurable-digital-input1, 10 configurable-digital-input2, 11 configurable-digital-input3, 12
/// pressure-guard.
pub open spec fn current_mode_names(word: u16) -> Option<Seq<char>> {
    if word == 0 {
        Some("auto"@)
    } else if word == 1 {
        Some("manual"@)
    } else if word == 2 {
        Some("crowded"@)
    } else if word == 3 {
        Some("refresh"@)
    } else if word == 4 {
        Some("fireplace"@)
    } else if word == 5 {
        Some("away"@)
    } else if word == 6 {
        Some("holiday"@)
    } else if word == 7 {
        Some("cooker-hood"@)
    } else if word == 8 {
        Some("vacuum-cleaner"@)
    } else if word == 9 {
        Some("configurable-digital-input1"@)
    } else if word == 10 {
        Some("configurable-digital-input2"@)
    } else if word == 11 {
        Some("configurable-digital-input3"@)
    } else if word == 12 {
        Some("pressure-guard"@)
    } else {
        None
    }
}

/// The encoding of `CurrentMode` is the table [`current_mode_names`]: a register word stands for a
/// variant exactly when the table lists it, and then for the variant published under the listed
/// name; each variant is written as the word listed with its name, and a name read from a Homie
/// `set` is written as the word listed with that name. A property of this kind publishes, for a
/// register word, the listed name and no target, and is an error for an unlisted word.
pub proof fn lemma_current_mode_encoding()
    ensures
        forall|word: u16|
            match #[trigger] CurrentMode::of_word(word) {
                Some(v) => current_mode_names(word) == Some(v.name_text()),
                None => current_mode_names(word) is None,
            },
        forall|v: CurrentMode| current_mode_names(#[trigger] v.word()) == Some(v.name_text()),
        forall|text: Seq<char>|
            #[trigger] CurrentMode::named(text) matches Some(v) ==> current_mode_names(v.word()) == Some(text),
        forall|word: u16|
            #[trigger] reading_text(ValueKind::CurrentMode, word) == match current_mode_names(word) {
                Some(n) => Ok((n, None::<Seq<char>>)),
                None => Err(()),
            },
{
    assert forall|v: CurrentMode| current_mode_names(#[trigger] v.word()) == Some(v.name_text()) by {
        match v {
            CurrentMode::Auto => {},
            CurrentMode::Manual => {},
            CurrentMode::Crowded => {},
            CurrentMode::Refresh => {},
            CurrentMode::Fireplace => {},
            CurrentMode::Away => {},
            CurrentMode::Holiday => {},
            CurrentMode::CookerHood => {},
            CurrentMode::VacuumCleaner => {},
            CurrentMode::ConfigurableDigitalInput1 => {},
            CurrentMode::ConfigurableDigitalInput2 => {},
            CurrentMode::ConfigurableDigitalInput3 => {},
            CurrentMode::PressureGuard => {},
        }
    }
}

/// The published name of each register word of a fan speed level: 0 off, 1 minimum, 2 low, 3
/// normal, 4 high, 5 maximum.
pub open spec fn airflow_level_names(word: u16) -> Option<Seq<char>> {
    if word == 0 {
        Some("off"@)
    } else if word == 1 {
        Some("minimum"@)
    } else if word == 2 {
        Some("low"@)
    } else if word == 3 {
        Some("normal"@)
    } else if word == 4 {
        Some("high"@)
    } else if word == 5 {
        Some("maximum"@)
    } else {
        None
    }
}

/// The encoding of `AirflowLevel` is the table [`airflow_level_names`]: a register word stands for
/// a variant exactly when the table lists it, and then for the variant published under the listed
/// name; each variant is written as the word listed with its name, and a name read from a Homie
/// `set` is written as the word listed with that name. A property of this kind publishes, for a
/// register word, the listed name and no target, and is an error for an unlisted word.
pub proof fn lemma_airflow_level_encoding()
    ensures
        forall|word: u16|
            match #[trigger] AirflowLevel::of_word(word) {
                Some(v) => airflow_level_names(word) == Some(v.name_text()),
                None => airflow_level_names(word) is None,
            },
        forall|v: AirflowLevel| airflow_level_names(#[trigger] v.word()) == Some(v.name_text()),
        forall|text: Seq<char>|
            #[trigger] AirflowLevel::named(text) matches Some(v) ==> airflow_level_names(v.word()) == Some(text),
        forall|word: u16|
            #[trigger] reading_text(ValueKind::AirflowLevel, word) == match airflow_level_names(word) {
                Some(n) => Ok((n, None::<Seq<char>>)),
                None => Err(()),
            },
{
    assert forall|v: AirflowLevel| airflow_level_names(#[trigger] v.word()) == Some(v.name_text()) by {
        match v {
            AirflowLevel::Off => {},
            AirflowLevel::Minimum => {},
            AirflowLevel::Low => {},
            AirflowLevel::Normal => {},
            AirflowLevel::High => {},
            AirflowLevel::Maximum => {},
        }
    }
}

/// The published name of each register word of a fan speed level of the weekly schedule: 0 off, 1
/// minimum, 2 low, 3 normal, 4 high, 5 demand-control.
pub open spec fn weekly_schedule_level_names(word: u16) -> Option<Seq<char>> {
    if word == 0 {
        Some("off"@)
    } else if word == 1 {
        Some("minimum"@)
    } else if word == 2 {
        Some("low"@)
    } else if word == 3 {
        Some("normal"@)
    } else if word == 4 {
        Some("high"@)
    } else if word == 5 {
        Some("demand-control"@)
    } else {
        None
    }
}

/// The encoding of `WeeklyScheduleLevel` is the table [`weekly_schedule_level_names`]: a register
/// word stands for a variant exactly when the table lists it, and then for the variant published
/// under the listed name; each variant is written as the word listed with its name, and a name read
/// from a Homie `set` is written as the word listed with that name. A property of this kind
/// publishes, for a register word, the listed name and no target, and is an error for an unlisted
/// word.
pub proof fn lemma_weekly_schedule_level_encoding()
    ensures
        forall|word: u16|
            match #[trigger] WeeklyScheduleLevel::of_word(word) {
                Some(v) => weekly_schedule_level_names(word) == Some(v.name_text()),
                None => weekly_schedule_level_names(word) is None,
            },
        forall|v: WeeklyScheduleLevel| weekly_schedule_level_names(#[trigger] v.word()) == Some(v.name_text()),
        forall|text: Seq<char>|
            #[trigger] WeeklyScheduleLevel::named(text) matches Some(v) ==> weekly_schedule_level_names(v.word()) == Some(text),
        forall|word: u16|
            #[trigger] reading_text(ValueKind::WeeklyScheduleLevel, word) == match weekly_schedule_level_names(word) {
                Some(n) => Ok((n, None::<Seq<char>>)),
                None => Err(()),
            },
{
    assert forall|v: WeeklyScheduleLevel| weekly_schedule_level_names(#[trigger] v.word()) == Some(v.name_text()) by {
        match v {
            WeeklyScheduleLevel::Off => {},
            WeeklyScheduleLevel::Minimum => {},
            WeeklyScheduleLevel::Low => {},
            WeeklyScheduleLevel::Normal => {},
            WeeklyScheduleLevel::High => {},
            WeeklyScheduleLevel::DemandControl => {},
        }
    }
}

/// The published name of each register word of how the fans are regulated: 0 manual, 1 rpm, 2
/// constant-pressure, 3 constant-flow, 4 external.
pub open spec fn regulation_type_names(word: u16) -> Option<Seq<char>> {
    if word == 0 {
        Some("manual"@)
    } else if word == 1 {
        Some("rpm"@)
    } else if word == 2 {
        Some("constant-pressure"@)
    } else if word == 3 {
        Some("constant-flow"@)
    } else if word == 4 {
        Some("external"@)
    } else {
        None
    }
}

/// The encoding of `RegulationType` is the table [`regulation_type_names`]: a register word stands
/// for a variant exactly when the table lists it, and then for the variant published under the
/// listed name; each variant is written as the word listed with its name, and a name read from a
/// Homie `set` is written as the word listed with that name. A property of this kind publishes, for
/// a register word, the listed name and no target, and is an error for an unlisted word.
pub proof fn lemma_regulation_type_encoding()
    ensures
        forall|word: u16|
            match #[trigger] RegulationType::of_word(word) {
                Some(v) => regulation_type_names(word) == Some(v.name_text()),
                None => regulation_type_names(word) is None,
            },
        forall|v: RegulationType| regulation_type_names(#[trigger] v.word()) == Some(v.name_text()),
        forall|text: Seq<char>|
            #[trigger] RegulationType::named(text) matches Some(v) ==> regulation_type_names(v.word()) == Some(text),
        forall|word: u16|
            #[trigger] reading_text(ValueKind::RegulationType, word) == match regulation_type_names(word) {
                Some(n) => Ok((n, None::<Seq<char>>)),
                None => Err(()),
            },
{
    assert forall|v: RegulationType| regulation_type_names(#[trigger] v.word()) == Some(v.name_text()) by {
        match v {
            RegulationType::Manual => {},
            RegulationType::RPM => {},
            RegulationType::ConstantPressure => {},
            RegulationType::ConstantFlow => {},
            RegulationType::External => {},
        }
    }
}

/// The published name of each register word of the season the device works for: 0 summer, 1 winter.
pub open spec fn season_names(word: u16) -> Option<Seq<char>> {
    if word == 0 {
        Some("summer"@)
    } else if word == 1 {
        Some("winter"@)
    } else {
        None
    }
}

/// The encoding of `Season` is the table [`season_names`]: a register word stands for a variant
/// exactly when the table lists it, and then for the variant published under the listed name; each
/// variant is written as the word listed with its name, and a name read from a Homie `set` is
/// written as the word listed with that name. A property of this kind publishes, for a register
/// word, the listed name and no target, and is an error for an unlisted word.
pub proof fn lemma_season_encoding()
    ensures
        forall|word: u16|
            match #[trigger] Season::of_word(word) {
                Some(v) => season_names(word) == Some(v.name_text()),
                None => season_names(word) is None,
            },
        forall|v: Season| season_names(#[trigger] v.word()) == Some(v.name_text()),
        forall|text: Seq<char>|
            #[trigger] Season::named(text) matches Some(v) ==> season_names(v.word()) == Some(text),
        forall|word: u16|
            #[trigger] reading_text(ValueKind::Season, word) == match season_names(word) {
                Some(n) => Ok((n, None::<Seq<char>>)),
                None => Err(()),
            },
{
    assert forall|v: Season| season_names(#[trigger] v.word()) == Some(v.name_text()) by {
        match v {
            Season::Summer => {},
            Season::Winter => {},
        }
    }
}

/// The published name of each register word of the indoor air quality level: 0 economic, 1 good, 2
/// improving.
pub open spec fn iaq_level_names(word: u16) -> Option<Seq<char>> {
    if word == 0 {
        Some("economic"@)
    } else if word == 1 {
        Some("good"@)
    } else if word == 2 {
        Some("improving"@)
    } else {
        None
    }
}

/// The encoding of `IaqLevel` is the table [`iaq_level_names`]: a register word stands for a
/// variant exactly when the table lists it, and then for the variant published under the listed
/// name; each variant is written as the word listed with its name, and a name read from a Homie
/// `set` is written as the word listed with that name. A property of this kind publishes, for a
/// register word, the listed name and no target, and is an error for an unlisted word.
pub proof fn lemma_iaq_level_encoding()
    ensures
        forall|word: u16|
            match #[trigger] IaqLevel::of_word(word) {
                Some(v) => iaq_level_names(word) == Some(v.name_text()),
                None => iaq_level_names(word) is None,
            },
        forall|v: IaqLevel| iaq_level_names(#[trigger] v.word()) == Some(v.name_text()),
        forall|text: Seq<char>|
            #[trigger] IaqLevel::named(text) matches Some(v) ==> iaq_level_names(v.word()) == Some(text),
        forall|word: u16|
            #[trigger] reading_text(ValueKind::IaqLevel, word) == match iaq_level_names(word) {
                Some(n) => Ok((n, None::<Seq<char>>)),
                None => Err(()),
            },
{
    assert forall|v: IaqLevel| iaq_level_names(#[trigger] v.word()) == Some(v.name_text()) by {
        match v {
            IaqLevel::Economic => {},
            IaqLevel::Good => {},
            IaqLevel::Improving => {},
        }
    }
}

/// What an alarm publishes for its state word, as value and target: `clear` and `clear` for a clear
/// alarm (0), `firing` and `firing` for a firing one (1), `clear` and `firing` while it is
/// evaluated (2), `firing` and `clear` once it is acknowledged (3); an error for any other word.
pub proof fn lemma_alarm_readings(word: u16)
    ensures
        reading_text(ValueKind::Alarm, word) == if word == 0 {
            Ok::<(Seq<char>, Option<Seq<char>>), ()>(("clear"@, Some("clear"@)))
        } else if word == 1 {
            Ok(("firing"@, Some("firing"@)))
        } else if word == 2 {
            Ok(("clear"@, Some("firing"@)))
        } else if word == 3 {
            Ok(("firing"@, Some("clear"@)))
        } else {
            Err(())
        },
{
}

/// What a property publishes for a register word of a switch, a number or a duration in whole
/// minutes or months: `true` for a nonzero word and `false` for zero; the word in decimal; an ISO
/// 8601 duration `PT<word>M` of minutes or `P<word>M` of months; never a target.
pub proof fn lemma_scalar_readings(word: u16)
    ensures
        reading_text(ValueKind::Boolean, word) == Ok::<(Seq<char>, Option<Seq<char>>), ()>(
            (if word != 0 { "true"@ } else { "false"@ }, None),
        ),
        reading_text(ValueKind::Uint, word) == Ok::<(Seq<char>, Option<Seq<char>>), ()>(
            (decimal(word as nat), None),
        ),
        reading_text(ValueKind::UintPercent, word) == Ok::<(Seq<char>, Option<Seq<char>>), ()>(
            (decimal(word as nat), None),
        ),
        reading_text(ValueKind::StopDelay, word) == Ok::<(Seq<char>, Option<Seq<char>>), ()>(
            (seq!['P', 'T'] + decimal(word as nat) + seq!['M'], None),
        ),
        reading_text(ValueKind::ReplacementPeriod, word) == Ok::<(Seq<char>, Option<Seq<char>>), ()>(
            (seq!['P'] + decimal(word as nat) + seq!['M'], None),
        ),
{
}

} // verus!
