//! Property values of the device and their register words and published text.
use crate::homie::enums::{AlarmValue, CurrentMode};
use crate::registers::{word_of_value, Value};
use crate::text::{decimal, decimal_chars, parse_u16, parsed_u16, str_eq, string_of_chars};
use vstd::prelude::*;

verus! {

/// The 32-bit number of a low and a high register word.
pub open spec fn word_pair(low: u16, high: u16) -> u32 {
    (high * 65536 + low) as u32
}

/// The 32-bit number of a low and a high register word, as `high << 16 | low`.
pub fn combine_words(low: u16, high: u16) -> (r: u32)
    ensures
        r == word_pair(low, high),
        r == high as int * 65536 + low as int,
{
    let h = high as u32;
    let l = low as u32;
    let r = h << 16 | l;
    assert(r == h * 65536 + l) by (bit_vector)
        requires
            h < 65536 && l < 65536 && r == h << 16 | l,
    ;
    r
}

/// The device's clock and its start-up time, both in seconds.
#[derive(Clone, Copy, PartialEq, Eq, Debug, Structural)]
pub struct UptimeValue {
    pub rtc: u32,
    pub start_time: u32,
}

impl UptimeValue {
    /// From the low and high words of the clock and of the start-up time.
    pub fn new(rtc_l: Value, rtc_h: Value, up_l: Value, up_h: Value) -> (r: Result<
        UptimeValue,
        (),
    >)
        ensures
            r == Ok::<UptimeValue, ()>(
                UptimeValue {
                    rtc: word_pair(word_of_value(rtc_l), word_of_value(rtc_h)),
                    start_time: word_pair(word_of_value(up_l), word_of_value(up_h)),
                },
            ),
    {
        Ok(
            UptimeValue {
                rtc: combine_words(rtc_l.into_inner(), rtc_h.into_inner()),
                start_time: combine_words(up_l.into_inner(), up_h.into_inner()),
            },
        )
    }
}

impl AlarmValue {
    /// The alarm state that a register value stands for.
    pub fn new(current: Value) -> (r: Result<AlarmValue, ()>)
        ensures
            match AlarmValue::of_word(word_of_value(current)) {
                Some(v) => r == Ok::<AlarmValue, ()>(v),
                None => r == Err::<AlarmValue, ()>(()),
            },
    {
        match AlarmValue::from_value(current) {
            Some(v) => Ok(v),
            None => Err(()),
        }
    }

    /// Whether the alarm fires now: a cleared alarm that is still being evaluated does not, an
    /// acknowledged one that has not gone away yet does.
    pub open spec fn fires(self) -> bool {
        self == AlarmValue::Firing || self == AlarmValue::Acknowledged
    }

    /// Whether the alarm heads for firing.
    pub open spec fn heads_for_firing(self) -> bool {
        self == AlarmValue::Firing || self == AlarmValue::Evaluating
    }

    /// The published value: `firing` or `clear`.
    pub fn value(&self) -> (r: &'static str)
        ensures
            r@ == (if self.fires() {
                "firing"@
            } else {
                "clear"@
            }),
    {
        match self {
            AlarmValue::Clear | AlarmValue::Evaluating => "clear",
            AlarmValue::Firing | AlarmValue::Acknowledged => "firing",
        }
    }

    /// The published target: the state the alarm heads for.
    pub fn target(&self) -> (r: Option<&'static str>)
        ensures
            r matches Some(t) && t@ == (if self.heads_for_firing() {
                "firing"@
            } else {
                "clear"@
            }),
    {
        match self {
            AlarmValue::Clear | AlarmValue::Acknowledged => Some("clear"),
            AlarmValue::Firing | AlarmValue::Evaluating => Some("firing"),
        }
    }
}

/// An alarm's published value and target differ exactly while it is pending for the other state:
/// cleared but still being evaluated, or acknowledged but not gone yet.
pub proof fn lemma_alarm_pending(alarm: AlarmValue)
    ensures
        (alarm.fires() != alarm.heads_for_firing()) <==> (alarm == AlarmValue::Evaluating || alarm
            == AlarmValue::Acknowledged),
        !alarm.fires() && !alarm.heads_for_firing() <==> alarm == AlarmValue::Clear,
        alarm.fires() && alarm.heads_for_firing() <==> alarm == AlarmValue::Firing,
{
}

impl CurrentMode {
    /// The operating mode that a register value stands for.
    pub fn new(value: Value) -> (r: Result<CurrentMode, ()>)
        ensures
            match CurrentMode::of_word(word_of_value(value)) {
                Some(v) => r == Ok::<CurrentMode, ()>(v),
                None => r == Err::<CurrentMode, ()>(()),
            },
    {
        match CurrentMode::from_value(value) {
            Some(v) => Ok(v),
            None => Err(()),
        }
    }
}

/// A switch: any non-zero word is on.
#[derive(Clone, Copy, PartialEq, Eq, Debug, Structural)]
pub struct BooleanValue(pub bool);

/// The published text of a switch.
pub open spec fn boolean_text(value: BooleanValue) -> Seq<char> {
    if value.0 {
        "true"@
    } else {
        "false"@
    }
}

/// The switch that a text names, as `bool::from_str` reads it: `true` or `false` only.
pub open spec fn boolean_of_text(text: Seq<char>) -> Option<BooleanValue> {
    if text == "true"@ {
        Some(BooleanValue(true))
    } else if text == "false"@ {
        Some(BooleanValue(false))
    } else {
        None
    }
}

impl BooleanValue {
    /// The switch that a register value stands for.
    pub fn from_value(value: Value) -> (r: BooleanValue)
        ensures
            r.0 == (word_of_value(value) != 0),
    {
        BooleanValue(value.into_inner() != 0)
    }

    /// Parses `true` or `false`, the only texts that `bool::from_str` takes.
    pub fn from_text(text: &str) -> (r: Option<BooleanValue>)
        ensures
            r == boolean_of_text(text@),
    {
        if str_eq(text, "true") {
            Some(BooleanValue(true))
        } else if str_eq(text, "false") {
            Some(BooleanValue(false))
        } else {
            None
        }
    }

    /// The published value.
    pub fn value(&self) -> (r: &'static str)
        ensures
            r@ == boolean_text(*self),
    {
        if self.0 {
            "true"
        } else {
            "false"
        }
    }

    /// The register word: 1 for on, 0 for off.
    pub fn to_modbus(&self) -> (r: u16)
        ensures
            r == (if self.0 {
                1u16
            } else {
                0u16
            }),
    {
        if self.0 {
            1
        } else {
            0
        }
    }
}

/// A switch's published value parses back to the switch.
pub proof fn lemma_boolean_round_trip(value: BooleanValue)
    ensures
        boolean_of_text(boolean_text(value)) == Some(value),
{
    reveal_strlit("true");
    reveal_strlit("false");
    assert("true"@.len() != "false"@.len());
}

/// An unsigned number's published value parses back to the number.
pub proof fn lemma_uint_round_trip(value: UintValue)
    ensures
        parsed_u16(decimal(value.0 as nat)) == Some(value.0),
{
    crate::text::lemma_parse_decimal(value.0);
}

/// An unsigned number.
#[derive(Clone, Copy, PartialEq, Eq, Debug, Structural)]
pub struct UintValue(pub u16);

impl UintValue {
    /// The number that a register value holds.
    pub fn from_value(value: Value) -> (r: UintValue)
        ensures
            r.0 == word_of_value(value),
    {
        UintValue(value.into_inner())
    }

    /// Parses a decimal number as `u16::from_str` does.
    pub fn from_text(text: &str) -> (r: Option<UintValue>)
        ensures
            r == match parsed_u16(text@) {
                Some(n) => Some(UintValue(n)),
                None => None,
            },
    {
        let chars = crate::text::chars_of(text);
        match parse_u16(&chars) {
            Some(n) => Some(UintValue(n)),
            None => None,
        }
    }

    /// The published value: the number in decimal.
    pub fn value(&self) -> (r: String)
        ensures
            r@ == decimal(self.0 as nat),
    {
        string_of_chars(&decimal_chars(self.0))
    }

    /// The register word.
    pub fn to_modbus(&self) -> (r: u16)
        ensures
            r == self.0,
    {
        self.0
    }
}

/// A temperature in tenths of a degree Celsius.
#[derive(Clone, Copy, PartialEq, Eq, Debug, Structural)]
pub struct CelsiusValue(pub i16);

impl CelsiusValue {
    /// The temperature that a register value holds.
    pub fn from_value(value: Value) -> (r: CelsiusValue)
        ensures
            r.0 == word_of_value(value) as i16,
    {
        CelsiusValue(value.into_inner() as i16)
    }

    /// The register word.
    pub fn to_modbus(&self) -> (r: u16)
        ensures
            r == self.0 as u16,
    {
        self.0 as u16
    }
}

/// A specific humidity in tenths of g/kg.
#[derive(Clone, Copy, PartialEq, Eq, Debug, Structural)]
pub struct SpcHumidityValue(pub u16);

impl SpcHumidityValue {
    /// The humidity that a register value holds.
    pub fn from_value(value: Value) -> (r: SpcHumidityValue)
        ensures
            r.0 == word_of_value(value),
    {
        SpcHumidityValue(value.into_inner())
    }

    /// The register word.
    pub fn to_modbus(&self) -> (r: u16)
        ensures
            r == self.0,
    {
        self.0
    }
}

/// `prefix`, the number in decimal, then `M`.
pub open spec fn duration_text(prefix: Seq<char>, n: u16) -> Seq<char> {
    prefix + decimal(n as nat) + seq!['M']
}

fn duration_string(prefix: &Vec<char>, n: u16) -> (r: String)
    ensures
        r@ == duration_text(prefix@, n),
{
    let mut chars: Vec<char> = prefix.clone();
    let digits = decimal_chars(n);
    let mut i: usize = 0;
    while i < digits.len()
        invariant
            i <= digits@.len(),
            chars@ == prefix@ + digits@.take(i as int),
        decreases digits@.len() - i,
    {
        chars.push(digits[i]);
        assert(chars@ =~= prefix@ + digits@.take(i + 1));
        i = i + 1;
    }
    assert(digits@.take(digits@.len() as int) =~= digits@);
    chars.push('M');
    assert(chars@ =~= duration_text(prefix@, n));
    string_of_chars(&chars)
}

/// How long a circulation pump runs on after a stop, in minutes.
#[derive(Clone, Copy, PartialEq, Eq, Debug, Structural)]
pub struct StopDelay(pub u16);

impl StopDelay {
    /// The delay that a register value holds.
    pub fn from_value(value: Value) -> (r: StopDelay)
        ensures
            r.0 == word_of_value(value),
    {
        StopDelay(value.into_inner())
    }

    /// The published value: an ISO 8601 duration in minutes, `PT<n>M`.
    pub fn value(&self) -> (r: String)
        ensures
            r@ == duration_text(seq!['P', 'T'], self.0),
    {
        let mut prefix: Vec<char> = Vec::new();
        prefix.push('P');
        prefix.push('T');
        duration_string(&prefix, self.0)
    }

    /// The register word.
    pub fn to_modbus(&self) -> (r: u16)
        ensures
            r == self.0,
    {
        self.0
    }
}

/// How often the filter is replaced, in months.
#[derive(Clone, Copy, PartialEq, Eq, Debug, Structural)]
pub struct ReplacementPeriod {
    pub months: u16,
}

impl ReplacementPeriod {
    /// The period that a register value holds.
    pub fn from_value(value: Value) -> (r: ReplacementPeriod)
        ensures
            r.months == word_of_value(value),
    {
        ReplacementPeriod { months: value.into_inner() }
    }

    /// The published value: an ISO 8601 duration in months, `P<n>M`.
    pub fn value(&self) -> (r: String)
        ensures
            r@ == duration_text(seq!['P'], self.months),
    {
        let mut prefix: Vec<char> = Vec::new();
        prefix.push('P');
        duration_string(&prefix, self.months)
    }

    /// The register word.
    pub fn to_modbus(&self) -> (r: u16)
        ensures
            r == self.months,
    {
        self.months
    }
}

/// An action that is triggered by setting its property to `now`.
pub fn is_now(text: &str) -> (r: bool)
    ensures
        r == (text@ == "now"@),
{
    str_eq(text, "now")
}

} // verus!
