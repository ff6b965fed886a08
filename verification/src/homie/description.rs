//! How each property is described to Homie: its data type, unit, whether it can be set and is
//! retained, the names of an enumeration, and the range that its register's limits give it.
use crate::homie::enums::{
    AirflowLevel, AlarmOutputValue, CompensationType, ControlMode, CurrentMode,
    DigitalInputConnection, DigitalInputPolarity, IaqLevel, RegulationType, Season,
    WeeklyScheduleLevel, Weekday,
};
use crate::homie::property::{PropertyEntry, PropertySource, ValueKind};
use crate::register_table::{table_data_type, table_maximum, table_minimum, table_mode};
use crate::registers::{value_of_raw, word_of_value, RegisterIndex, Value};
use vstd::prelude::*;

verus! {

/// The Homie data types that the device's properties use.
#[derive(Clone, Copy, PartialEq, Eq, Debug, Structural)]
pub enum HomieDataKind {
    Boolean,
    Integer,
    Float,
    Enum,
    Duration,
    Datetime,
}

/// The units that the device's properties carry.
#[derive(Clone, Copy, PartialEq, Eq, Debug, Structural)]
pub enum Unit {
    DegreeCelsius,
    GramsPerKilogram,
}

/// The range that a register's documented limits give a property, in raw register units; a
/// float range is divided by `scale` when it is published.
#[derive(Clone, Copy, PartialEq, Eq, Debug, Structural)]
pub enum RangeFormat {
    Unchanged,
    Integer { min: Option<i64>, max: Option<i64> },
    Float { min: Option<i64>, max: Option<i64>, scale: u8 },
}

/// The Homie data type of a kind of value.
pub open spec fn data_kind(kind: ValueKind) -> HomieDataKind {
    match kind {
        ValueKind::Boolean => HomieDataKind::Boolean,
        ValueKind::Uint | ValueKind::UintPercent => HomieDataKind::Integer,
        ValueKind::Celsius | ValueKind::SpecificHumidity => HomieDataKind::Float,
        ValueKind::StopDelay | ValueKind::ReplacementPeriod | ValueKind::CooldownDuration
        | ValueKind::RemainingTime | ValueKind::Uptime => HomieDataKind::Duration,
        ValueKind::Clock | ValueKind::Time => HomieDataKind::Datetime,
        _ => HomieDataKind::Enum,
    }
}

/// The Homie data type of a kind of value.
pub fn data_kind_of(kind: ValueKind) -> (r: HomieDataKind)
    ensures
        r == data_kind(kind),
{
    match kind {
        ValueKind::Boolean => HomieDataKind::Boolean,
        ValueKind::Uint | ValueKind::UintPercent => HomieDataKind::Integer,
        ValueKind::Celsius | ValueKind::SpecificHumidity => HomieDataKind::Float,
        ValueKind::StopDelay | ValueKind::ReplacementPeriod | ValueKind::CooldownDuration
        | ValueKind::RemainingTime | ValueKind::Uptime => HomieDataKind::Duration,
        ValueKind::Clock | ValueKind::Time => HomieDataKind::Datetime,
        _ => HomieDataKind::Enum,
    }
}

/// The unit of a kind of value.
pub open spec fn unit_of(kind: ValueKind) -> Option<Unit> {
    match kind {
        ValueKind::Celsius => Some(Unit::DegreeCelsius),
        ValueKind::SpecificHumidity => Some(Unit::GramsPerKilogram),
        _ => None,
    }
}

/// The names and register words of the enumeration a kind of value is, if it is one whose names
/// are limited by its register's range.
pub open spec fn enum_pairs(kind: ValueKind) -> Option<Seq<(Seq<char>, u16)>> {
    match kind {
        ValueKind::AlarmOutput => Some(
            AlarmOutputValue::all().map_values(|v: AlarmOutputValue| (v.name_text(), v.word())),
        ),
        ValueKind::Weekday => Some(Weekday::all().map_values(|v: Weekday| (v.name_text(), v.word()))),
        ValueKind::CompensationType => Some(
            CompensationType::all().map_values(|v: CompensationType| (v.name_text(), v.word())),
        ),
        ValueKind::DigitalInputConnection => Some(
            DigitalInputConnection::all().map_values(
                |v: DigitalInputConnection| (v.name_text(), v.word()),
            ),
        ),
        ValueKind::DigitalInputPolarity => Some(
            DigitalInputPolarity::all().map_values(
                |v: DigitalInputPolarity| (v.name_text(), v.word()),
            ),
        ),
        ValueKind::ControlMode => Some(
            ControlMode::all().map_values(|v: ControlMode| (v.name_text(), v.word())),
        ),
        ValueKind::CurrentMode => Some(
            CurrentMode::all().map_values(|v: CurrentMode| (v.name_text(), v.word())),
        ),
        ValueKind::AirflowLevel => Some(
            AirflowLevel::all().map_values(|v: AirflowLevel| (v.name_text(), v.word())),
        ),
        ValueKind::WeeklyScheduleLevel => Some(
            WeeklyScheduleLevel::all().map_values(|v: WeeklyScheduleLevel| (v.name_text(), v.word())),
        ),
        ValueKind::RegulationType => Some(
            RegulationType::all().map_values(|v: RegulationType| (v.name_text(), v.word())),
        ),
        ValueKind::Season => Some(Season::all().map_values(|v: Season| (v.name_text(), v.word()))),
        ValueKind::IaqLevel => Some(IaqLevel::all().map_values(|v: IaqLevel| (v.name_text(), v.word()))),
        _ => None,
    }
}

/// The names of `pairs` whose word lies in `min..=max`, in order.
pub open spec fn names_within(pairs: Seq<(Seq<char>, u16)>, min: u16, max: u16) -> Seq<Seq<char>>
    decreases pairs.len(),
{
    if pairs.len() == 0 {
        Seq::empty()
    } else {
        let rest = names_within(pairs.drop_last(), min, max);
        let last = pairs.last();
        if min <= last.1 <= max {
            rest.push(last.0)
        } else {
            rest
        }
    }
}

/// The names of `pairs`, in order.
pub open spec fn names_of(pairs: Seq<(Seq<char>, u16)>) -> Seq<Seq<char>> {
    pairs.map_values(|p: (Seq<char>, u16)| p.0)
}

/// The register word of a register's documented minimum.
pub open spec fn minimum_word(i: RegisterIndex) -> u16 {
    word_of_value(value_of_raw(table_data_type(i.index()), table_minimum(i.index()).unwrap()))
}

/// The register word of a register's documented maximum.
pub open spec fn maximum_word(i: RegisterIndex) -> u16 {
    word_of_value(value_of_raw(table_data_type(i.index()), table_maximum(i.index()).unwrap()))
}

/// The enumeration names a property is published with: the names of the variants that its one
/// register's range admits, or all names when it has several registers; two fixed names for an
/// alarm, and `now` for an action.
pub open spec fn enum_names(kind: ValueKind, registers: Seq<RegisterIndex>) -> Option<
    Seq<Seq<char>>,
> {
    match kind {
        ValueKind::Alarm => Some(seq!["clear"@, "firing"@]),
        ValueKind::SynchronizeClock | ValueKind::Replace => Some(seq!["now"@]),
        _ => match enum_pairs(kind) {
            Some(pairs) => if registers.len() == 1 {
                Some(names_within(pairs, minimum_word(registers[0]), maximum_word(registers[0])))
            } else {
                Some(names_of(pairs))
            },
            None => None,
        },
    }
}

/// A register value as a 64-bit number, raw.
pub open spec fn value_as_i64(v: Value) -> i64 {
    match v {
        Value::U16(n) => n as i64,
        Value::I16(n) => n as i64,
        Value::Celsius(n) => n as i64,
        Value::SpecificHumidity(n) => n as i64,
    }
}

/// A register's documented minimum, as a raw 64-bit number.
pub open spec fn minimum_i64(i: RegisterIndex) -> Option<i64> {
    match table_minimum(i.index()) {
        Some(raw) => Some(value_as_i64(value_of_raw(table_data_type(i.index()), raw))),
        None => None,
    }
}

/// A register's documented maximum, as a raw 64-bit number.
pub open spec fn maximum_i64(i: RegisterIndex) -> Option<i64> {
    match table_maximum(i.index()) {
        Some(raw) => Some(value_as_i64(value_of_raw(table_data_type(i.index()), raw))),
        None => None,
    }
}

/// The range a register's limits give a property of a kind of value.
pub open spec fn range_of(kind: ValueKind, i: RegisterIndex) -> RangeFormat {
    match data_kind(kind) {
        HomieDataKind::Integer => RangeFormat::Integer { min: minimum_i64(i), max: maximum_i64(i) },
        HomieDataKind::Float => RangeFormat::Float {
            min: minimum_i64(i),
            max: maximum_i64(i),
            scale: if table_data_type(i.index()) == crate::registers::DataType::CEL
                || table_data_type(i.index()) == crate::registers::DataType::SPH {
                10u8
            } else {
                1u8
            },
        },
        _ => RangeFormat::Unchanged,
    }
}

/// A property's registers are what its source names: one for a mirrored register.
pub open spec fn registers_fit(entry: PropertyEntry, registers: Seq<RegisterIndex>) -> bool {
    entry.source is Register ==> registers.len() == 1
}

/// What describing a property asserts of its register: a switch's limits, when
/// documented, are 0 and 1, and an enumeration mirrored from one register has both limits.
pub open spec fn limits_fit(entry: PropertyEntry, registers: Seq<RegisterIndex>) -> bool {
    &&& (entry.source is Register && data_kind(entry.value) == HomieDataKind::Boolean
        && minimum_i64(registers[0]) is Some && maximum_i64(registers[0]) is Some) ==> (
    minimum_i64(registers[0]) == Some(0i64) && maximum_i64(registers[0]) == Some(1i64))
    &&& (enum_pairs(entry.value) is Some && registers.len() == 1) ==> (table_minimum(
        registers[0].index(),
    ) is Some && table_maximum(registers[0].index()) is Some)
}

/// How a property is described to Homie.
pub struct DescriptionPlan {
    pub datatype: HomieDataKind,
    pub unit: Option<Unit>,
    pub settable: bool,
    pub retained: bool,
    pub enum_names: Option<Vec<&'static str>>,
    pub range: RangeFormat,
}

fn value_i64(v: Value) -> (r: i64)
    ensures
        r == value_as_i64(v),
{
    match v {
        Value::U16(n) => n as i64,
        Value::I16(n) => n as i64,
        Value::Celsius(n) => n as i64,
        Value::SpecificHumidity(n) => n as i64,
    }
}

fn optional_i64(v: Option<Value>) -> (r: Option<i64>)
    ensures
        r == match v {
            Some(x) => Some(value_as_i64(x)),
            None => None,
        },
{
    match v {
        Some(x) => Some(value_i64(x)),
        None => None,
    }
}

fn enum_variants(kind: ValueKind) -> (r: Option<Vec<(&'static str, u16)>>)
    ensures
        match r {
            Some(v) => enum_pairs(kind) matches Some(pairs) && v@.len() == pairs.len() && forall|
                k: int,
            | 0 <= k < v@.len() ==> (#[trigger] v@[k]).0@ == pairs[k].0 && v@[k].1 == pairs[k].1,
            None => enum_pairs(kind) is None,
        },
{
    match kind {
        ValueKind::AlarmOutput => Some(AlarmOutputValue::name_word_pairs()),
        ValueKind::Weekday => Some(Weekday::name_word_pairs()),
        ValueKind::CompensationType => Some(CompensationType::name_word_pairs()),
        ValueKind::DigitalInputConnection => Some(DigitalInputConnection::name_word_pairs()),
        ValueKind::DigitalInputPolarity => Some(DigitalInputPolarity::name_word_pairs()),
        ValueKind::ControlMode => Some(ControlMode::name_word_pairs()),
        ValueKind::CurrentMode => Some(CurrentMode::name_word_pairs()),
        ValueKind::AirflowLevel => Some(AirflowLevel::name_word_pairs()),
        ValueKind::WeeklyScheduleLevel => Some(WeeklyScheduleLevel::name_word_pairs()),
        ValueKind::RegulationType => Some(RegulationType::name_word_pairs()),
        ValueKind::Season => Some(Season::name_word_pairs()),
        ValueKind::IaqLevel => Some(IaqLevel::name_word_pairs()),
        _ => None,
    }
}

/// The names of `pairs`, all of them or those whose word lies in `min..=max`.
fn select_names(pairs: &Vec<(&'static str, u16)>, limits: Option<(u16, u16)>) -> (r: Vec<
    &'static str,
>)
    ensures
        ({
            let spec_pairs = pairs@.map_values(|p: (&'static str, u16)| (p.0@, p.1));
            r@.map_values(|s: &'static str| s@) == match limits {
                Some((min, max)) => names_within(spec_pairs, min, max),
                None => names_of(spec_pairs),
            }
        }),
{
    let ghost spec_pairs = pairs@.map_values(|p: (&'static str, u16)| (p.0@, p.1));
    let mut r: Vec<&'static str> = Vec::new();
    let mut i: usize = 0;
    while i < pairs.len()
        invariant
            spec_pairs == pairs@.map_values(|p: (&'static str, u16)| (p.0@, p.1)),
            i <= pairs@.len(),
            r@.map_values(|s: &'static str| s@) == match limits {
                Some((min, max)) => names_within(spec_pairs.take(i as int), min, max),
                None => names_of(spec_pairs.take(i as int)),
            },
        decreases pairs@.len() - i,
    {
        let (name, word) = pairs[i];
        let ghost before = r@;
        let keep = match limits {
            Some((min, max)) => min <= word && word <= max,
            None => true,
        };
        if keep {
            r.push(name);
        }
        assert(spec_pairs.take(i + 1).drop_last() =~= spec_pairs.take(i as int));
        assert(spec_pairs.take(i + 1).last() == (name@, word));
        assert(names_of(spec_pairs.take(i + 1)) =~= names_of(spec_pairs.take(i as int)).push(
            name@,
        ));
        assert(r@.map_values(|s: &'static str| s@) =~= if keep {
            before.map_values(|s: &'static str| s@).push(name@)
        } else {
            before.map_values(|s: &'static str| s@)
        });
        i = i + 1;
    }
    assert(spec_pairs.take(pairs@.len() as int) =~= spec_pairs);
    r
}

/// How a property is described: its data type and unit; a mirrored register makes it settable
/// when the register is writable, retained, and ranged by the register's limits; a combined
/// value is retained and settable only for a clock or a time of day; an action is settable and
/// not retained.
pub fn description_plan(entry: &PropertyEntry, registers: &Vec<RegisterIndex>) -> (r:
    DescriptionPlan)
    requires
        registers_fit(*entry, registers@),
        limits_fit(*entry, registers@),
    ensures
        r.datatype == data_kind(entry.value),
        r.unit == unit_of(entry.value),
        r.settable == match entry.source {
            PropertySource::Register(_) => table_mode(registers@[0].index()).writable(),
            PropertySource::Action => true,
            _ => entry.value == ValueKind::Clock || entry.value == ValueKind::Time,
        },
        r.retained == !(entry.source is Action),
        r.range == match entry.source {
            PropertySource::Register(_) => range_of(entry.value, registers@[0]),
            _ => RangeFormat::Unchanged,
        },
        match r.enum_names {
            Some(v) => enum_names(entry.value, registers@) == Some(
                v@.map_values(|s: &'static str| s@),
            ),
            None => enum_names(entry.value, registers@) is None,
        },
{
    let datatype = data_kind_of(entry.value);
    let unit = match entry.value {
        ValueKind::Celsius => Some(Unit::DegreeCelsius),
        ValueKind::SpecificHumidity => Some(Unit::GramsPerKilogram),
        _ => None,
    };
    let enum_names = match entry.value {
        ValueKind::Alarm => {
            let mut v: Vec<&'static str> = Vec::new();
            v.push("clear");
            v.push("firing");
            assert(v@.map_values(|s: &'static str| s@) =~= seq!["clear"@, "firing"@]);
            Some(v)
        },
        ValueKind::SynchronizeClock | ValueKind::Replace => {
            let mut v: Vec<&'static str> = Vec::new();
            v.push("now");
            assert(v@.map_values(|s: &'static str| s@) =~= seq!["now"@]);
            Some(v)
        },
        _ => match enum_variants(entry.value) {
            Some(pairs) => {
                let ghost spec_pairs = enum_pairs(entry.value)->0;
                assert(pairs@.map_values(|p: (&'static str, u16)| (p.0@, p.1)) =~= spec_pairs);
                if registers.len() == 1 {
                    let register = registers[0];
                    let min = match register.minimum_value() {
                        Some(v) => v.into_inner(),
                        None => 0,
                    };
                    let max = match register.maximum_value() {
                        Some(v) => v.into_inner(),
                        None => 0,
                    };
                    Some(select_names(&pairs, Some((min, max))))
                } else {
                    Some(select_names(&pairs, None))
                }
            },
            None => None,
        },
    };
    match entry.source {
        PropertySource::Register(_) => {
            let register = registers[0];
            let min = optional_i64(register.minimum_value());
            let max = optional_i64(register.maximum_value());
            let range = match datatype {
                HomieDataKind::Integer => RangeFormat::Integer { min, max },
                HomieDataKind::Float => RangeFormat::Float {
                    min,
                    max,
                    scale: register.data_type().scale(),
                },
                _ => RangeFormat::Unchanged,
            };
            DescriptionPlan {
                datatype,
                unit,
                settable: register.mode().is_writable(),
                retained: true,
                enum_names,
                range,
            }
        },
        PropertySource::Action => DescriptionPlan {
            datatype,
            unit,
            settable: true,
            retained: false,
            enum_names,
            range: RangeFormat::Unchanged,
        },
        _ => DescriptionPlan {
            datatype,
            unit,
            settable: entry.value == ValueKind::Clock || entry.value == ValueKind::Time,
            retained: true,
            enum_names,
            range: RangeFormat::Unchanged,
        },
    }
}

} // verus!
