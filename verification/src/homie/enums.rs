//! The enumerated property values of the device: the register word that stands for each
//! variant, and the kebab-case name by which it is published.
use crate::registers::{word_of_value, Value};
use crate::text::str_eq;
use vstd::prelude::*;

verus! {

/// The state of an alarm: whether it fires, and whether it is pending for the other state.
#[derive(Clone, Copy, PartialEq, Eq, Debug, Structural)]
pub enum AlarmValue {
    Clear,
    Firing,
    Evaluating,
    Acknowledged,
}

impl AlarmValue {
    /// The register word that stands for the variant.
    pub open spec fn word(self) -> u16 {
        match self {
            AlarmValue::Clear => 0,
            AlarmValue::Firing => 1,
            AlarmValue::Evaluating => 2,
            AlarmValue::Acknowledged => 3,
        }
    }

    /// The variant that a register word stands for, if any.
    pub open spec fn of_word(word: u16) -> Option<AlarmValue> {
        if word == 0 {
            Some(AlarmValue::Clear)
        } else if word == 1 {
            Some(AlarmValue::Firing)
        } else if word == 2 {
            Some(AlarmValue::Evaluating)
        } else if word == 3 {
            Some(AlarmValue::Acknowledged)
        } else {
            None
        }
    }

    /// The variant's published name.
    pub open spec fn name_text(self) -> Seq<char> {
        match self {
            AlarmValue::Clear => "clear"@,
            AlarmValue::Firing => "firing"@,
            AlarmValue::Evaluating => "evaluating"@,
            AlarmValue::Acknowledged => "acknowledged"@,
        }
    }

    /// The variant whose published name is `text`, if any.
    pub open spec fn named(text: Seq<char>) -> Option<AlarmValue> {
        if text == "clear"@ {
            Some(AlarmValue::Clear)
        } else if text == "firing"@ {
            Some(AlarmValue::Firing)
        } else if text == "evaluating"@ {
            Some(AlarmValue::Evaluating)
        } else if text == "acknowledged"@ {
            Some(AlarmValue::Acknowledged)
        } else {
            None
        }
    }

    /// The variant that a register word stands for, if any.
    pub fn from_repr(word: u16) -> (r: Option<AlarmValue>)
        ensures
            r == AlarmValue::of_word(word),
    {
        match word {
            0 => Some(AlarmValue::Clear),
            1 => Some(AlarmValue::Firing),
            2 => Some(AlarmValue::Evaluating),
            3 => Some(AlarmValue::Acknowledged),
            _ => None,
        }
    }

    /// The variant that a register value stands for, if any.
    pub fn from_value(value: Value) -> (r: Option<AlarmValue>)
        ensures
            r == AlarmValue::of_word(word_of_value(value)),
    {
        AlarmValue::from_repr(value.into_inner())
    }

    /// The register word that stands for the variant.
    pub fn to_modbus(&self) -> (r: u16)
        ensures
            r == self.word(),
    {
        match self {
            AlarmValue::Clear => 0,
            AlarmValue::Firing => 1,
            AlarmValue::Evaluating => 2,
            AlarmValue::Acknowledged => 3,
        }
    }

    /// The variant's published name.
    pub fn name(&self) -> (r: &'static str)
        ensures
            r@ == self.name_text(),
    {
        match self {
            AlarmValue::Clear => "clear",
            AlarmValue::Firing => "firing",
            AlarmValue::Evaluating => "evaluating",
            AlarmValue::Acknowledged => "acknowledged",
        }
    }

    /// The variant whose published name is `text`, if any.
    pub fn from_name(text: &str) -> (r: Option<AlarmValue>)
        ensures
            r == AlarmValue::named(text@),
    {
        if str_eq(text, "clear") {
            return Some(AlarmValue::Clear);
        }
        if str_eq(text, "firing") {
            return Some(AlarmValue::Firing);
        }
        if str_eq(text, "evaluating") {
            return Some(AlarmValue::Evaluating);
        }
        if str_eq(text, "acknowledged") {
            return Some(AlarmValue::Acknowledged);
        }
        None
    }

    /// A variant's register word stands for the variant, and its published name names it.
    pub proof fn lemma_round_trip(self)
        ensures
            AlarmValue::of_word(self.word()) == Some(self),
            AlarmValue::named(self.name_text()) == Some(self),
    {
        match self {
            AlarmValue::Clear => {
                reveal_strlit("clear");
            },
            AlarmValue::Firing => {
                reveal_strlit("firing");
                reveal_strlit("clear");
                assert("clear"@.len() != "firing"@.len());
            },
            AlarmValue::Evaluating => {
                reveal_strlit("evaluating");
                reveal_strlit("clear");
                assert("clear"@.len() != "evaluating"@.len());
                reveal_strlit("firing");
                assert("firing"@.len() != "evaluating"@.len());
            },
            AlarmValue::Acknowledged => {
                reveal_strlit("acknowledged");
                reveal_strlit("clear");
                assert("clear"@.len() != "acknowledged"@.len());
                reveal_strlit("firing");
                assert("firing"@.len() != "acknowledged"@.len());
                reveal_strlit("evaluating");
                assert("evaluating"@.len() != "acknowledged"@.len());
            },
        }
    }

    /// The published name and the register word of every variant, in declaration order.
    pub fn name_word_pairs() -> (r: Vec<(&'static str, u16)>)
        ensures
            r@.len() == AlarmValue::all().len(),
            forall|k: int|
                0 <= k < r@.len() ==> (#[trigger] r@[k]).0@ == AlarmValue::all()[k].name_text() && r@[k].1
                    == AlarmValue::all()[k].word(),
    {
        let variants = AlarmValue::variants();
        let mut r: Vec<(&'static str, u16)> = Vec::new();
        let mut i: usize = 0;
        while i < variants.len()
            invariant
                variants@ == AlarmValue::all(),
                i <= variants@.len(),
                r@.len() == i,
                forall|k: int|
                    0 <= k < i ==> (#[trigger] r@[k]).0@ == AlarmValue::all()[k].name_text() && r@[k].1
                        == AlarmValue::all()[k].word(),
            decreases variants@.len() - i,
        {
            let v = variants[i];
            r.push((v.name(), v.to_modbus()));
            i = i + 1;
        }
        r
    }

    /// Every variant, in declaration order.
    pub open spec fn all() -> Seq<AlarmValue> {
        seq![AlarmValue::Clear, AlarmValue::Firing, AlarmValue::Evaluating, AlarmValue::Acknowledged]
    }

    /// Every variant, in declaration order.
    pub fn variants() -> (r: Vec<AlarmValue>)
        ensures
            r@ == AlarmValue::all(),
    {
        let mut r: Vec<AlarmValue> = Vec::new();
        r.push(AlarmValue::Clear);
        r.push(AlarmValue::Firing);
        r.push(AlarmValue::Evaluating);
        r.push(AlarmValue::Acknowledged);
        r
    }
}

/// Whether any alarm fires.
#[derive(Clone, Copy, PartialEq, Eq, Debug, Structural)]
pub enum AlarmOutputValue {
    Clear,
    Firing,
}

impl AlarmOutputValue {
    /// The register word that stands for the variant.
    pub open spec fn word(self) -> u16 {
        match self {
            AlarmOutputValue::Clear => 0,
            AlarmOutputValue::Firing => 1,
        }
    }

    /// The variant that a register word stands for, if any.
    pub open spec fn of_word(word: u16) -> Option<AlarmOutputValue> {
        if word == 0 {
            Some(AlarmOutputValue::Clear)
        } else if word == 1 {
            Some(AlarmOutputValue::Firing)
        } else {
            None
        }
    }

    /// The variant's published name.
    pub open spec fn name_text(self) -> Seq<char> {
        match self {
            AlarmOutputValue::Clear => "clear"@,
            AlarmOutputValue::Firing => "firing"@,
        }
    }

    /// The variant whose published name is `text`, if any.
    pub open spec fn named(text: Seq<char>) -> Option<AlarmOutputValue> {
        if text == "clear"@ {
            Some(AlarmOutputValue::Clear)
        } else if text == "firing"@ {
            Some(AlarmOutputValue::Firing)
        } else {
            None
        }
    }

    /// The variant that a register word stands for, if any.
    pub fn from_repr(word: u16) -> (r: Option<AlarmOutputValue>)
        ensures
            r == AlarmOutputValue::of_word(word),
    {
        match word {
            0 => Some(AlarmOutputValue::Clear),
            1 => Some(AlarmOutputValue::Firing),
            _ => None,
        }
    }

    /// The variant that a register value stands for, if any.
    pub fn from_value(value: Value) -> (r: Option<AlarmOutputValue>)
        ensures
            r == AlarmOutputValue::of_word(word_of_value(value)),
    {
        AlarmOutputValue::from_repr(value.into_inner())
    }

    /// The register word that stands for the variant.
    pub fn to_modbus(&self) -> (r: u16)
        ensures
            r == self.word(),
    {
        match self {
            AlarmOutputValue::Clear => 0,
            AlarmOutputValue::Firing => 1,
        }
    }

    /// The variant's published name.
    pub fn name(&self) -> (r: &'static str)
        ensures
            r@ == self.name_text(),
    {
        match self {
            AlarmOutputValue::Clear => "clear",
            AlarmOutputValue::Firing => "firing",
        }
    }

    /// The variant whose published name is `text`, if any.
    pub fn from_name(text: &str) -> (r: Option<AlarmOutputValue>)
        ensures
            r == AlarmOutputValue::named(text@),
    {
        if str_eq(text, "clear") {
            return Some(AlarmOutputValue::Clear);
        }
        if str_eq(text, "firing") {
            return Some(AlarmOutputValue::Firing);
        }
        None
    }

    /// A variant's register word stands for the variant, and its published name names it.
    pub proof fn lemma_round_trip(self)
        ensures
            AlarmOutputValue::of_word(self.word()) == Some(self),
            AlarmOutputValue::named(self.name_text()) == Some(self),
    {
        match self {
            AlarmOutputValue::Clear => {
                reveal_strlit("clear");
            },
            AlarmOutputValue::Firing => {
                reveal_strlit("firing");
                reveal_strlit("clear");
                assert("clear"@.len() != "firing"@.len());
            },
        }
    }

    /// The published name and the register word of every variant, in declaration order.
    pub fn name_word_pairs() -> (r: Vec<(&'static str, u16)>)
        ensures
            r@.len() == AlarmOutputValue::all().len(),
            forall|k: int|
                0 <= k < r@.len() ==> (#[trigger] r@[k]).0@ == AlarmOutputValue::all()[k].name_text() && r@[k].1
                    == AlarmOutputValue::all()[k].word(),
    {
        let variants = AlarmOutputValue::variants();
        let mut r: Vec<(&'static str, u16)> = Vec::new();
        let mut i: usize = 0;
        while i < variants.len()
            invariant
                variants@ == AlarmOutputValue::all(),
                i <= variants@.len(),
                r@.len() == i,
                forall|k: int|
                    0 <= k < i ==> (#[trigger] r@[k]).0@ == AlarmOutputValue::all()[k].name_text() && r@[k].1
                        == AlarmOutputValue::all()[k].word(),
            decreases variants@.len() - i,
        {
            let v = variants[i];
            r.push((v.name(), v.to_modbus()));
            i = i + 1;
        }
        r
    }

    /// Every variant, in declaration order.
    pub open spec fn all() -> Seq<AlarmOutputValue> {
        seq![AlarmOutputValue::Clear, AlarmOutputValue::Firing]
    }

    /// Every variant, in declaration order.
    pub fn variants() -> (r: Vec<AlarmOutputValue>)
        ensures
            r@ == AlarmOutputValue::all(),
    {
        let mut r: Vec<AlarmOutputValue> = Vec::new();
        r.push(AlarmOutputValue::Clear);
        r.push(AlarmOutputValue::Firing);
        r
    }
}

/// The day of the week.
#[derive(Clone, Copy, PartialEq, Eq, Debug, Structural)]
pub enum Weekday {
    Monday,
    Tuesday,
    Wednesday,
    Thursday,
    Friday,
    Saturday,
    Sunday,
}

impl Weekday {
    /// The register word that stands for the variant.
    pub open spec fn word(self) -> u16 {
        match self {
            Weekday::Monday => 0,
            Weekday::Tuesday => 1,
            Weekday::Wednesday => 2,
            Weekday::Thursday => 3,
            Weekday::Friday => 4,
            Weekday::Saturday => 5,
            Weekday::Sunday => 6,
        }
    }

    /// The variant that a register word stands for, if any.
    pub open spec fn of_word(word: u16) -> Option<Weekday> {
        if word == 0 {
            Some(Weekday::Monday)
        } else if word == 1 {
            Some(Weekday::Tuesday)
        } else if word == 2 {
            Some(Weekday::Wednesday)
        } else if word == 3 {
            Some(Weekday::Thursday)
        } else if word == 4 {
            Some(Weekday::Friday)
        } else if word == 5 {
            Some(Weekday::Saturday)
        } else if word == 6 {
            Some(Weekday::Sunday)
        } else {
            None
        }
    }

    /// The variant's published name.
    pub open spec fn name_text(self) -> Seq<char> {
        match self {
            Weekday::Monday => "monday"@,
            Weekday::Tuesday => "tuesday"@,
            Weekday::Wednesday => "wednesday"@,
            Weekday::Thursday => "thursday"@,
            Weekday::Friday => "friday"@,
            Weekday::Saturday => "saturday"@,
            Weekday::Sunday => "sunday"@,
        }
    }

    /// The variant whose published name is `text`, if any.
    pub open spec fn named(text: Seq<char>) -> Option<Weekday> {
        if text == "monday"@ {
            Some(Weekday::Monday)
        } else if text == "tuesday"@ {
            Some(Weekday::Tuesday)
        } else if text == "wednesday"@ {
            Some(Weekday::Wednesday)
        } else if text == "thursday"@ {
            Some(Weekday::Thursday)
        } else if text == "friday"@ {
            Some(Weekday::Friday)
        } else if text == "saturday"@ {
            Some(Weekday::Saturday)
        } else if text == "sunday"@ {
            Some(Weekday::Sunday)
        } else {
            None
        }
    }

    /// The variant that a register word stands for, if any.
    pub fn from_repr(word: u16) -> (r: Option<Weekday>)
        ensures
            r == Weekday::of_word(word),
    {
        match word {
            0 => Some(Weekday::Monday),
            1 => Some(Weekday::Tuesday),
            2 => Some(Weekday::Wednesday),
            3 => Some(Weekday::Thursday),
            4 => Some(Weekday::Friday),
            5 => Some(Weekday::Saturday),
            6 => Some(Weekday::Sunday),
            _ => None,
        }
    }

    /// The variant that a register value stands for, if any.
    pub fn from_value(value: Value) -> (r: Option<Weekday>)
        ensures
            r == Weekday::of_word(word_of_value(value)),
    {
        Weekday::from_repr(value.into_inner())
    }

    /// The register word that stands for the variant.
    pub fn to_modbus(&self) -> (r: u16)
        ensures
            r == self.word(),
    {
        match self {
            Weekday::Monday => 0,
            Weekday::Tuesday => 1,
            Weekday::Wednesday => 2,
            Weekday::Thursday => 3,
            Weekday::Friday => 4,
            Weekday::Saturday => 5,
            Weekday::Sunday => 6,
        }
    }

    /// The variant's published name.
    pub fn name(&self) -> (r: &'static str)
        ensures
            r@ == self.name_text(),
    {
        match self {
            Weekday::Monday => "monday",
            Weekday::Tuesday => "tuesday",
            Weekday::Wednesday => "wednesday",
            Weekday::Thursday => "thursday",
            Weekday::Friday => "friday",
            Weekday::Saturday => "saturday",
            Weekday::Sunday => "sunday",
        }
    }

    /// The variant whose published name is `text`, if any.
    pub fn from_name(text: &str) -> (r: Option<Weekday>)
        ensures
            r == Weekday::named(text@),
    {
        if str_eq(text, "monday") {
            return Some(Weekday::Monday);
        }
        if str_eq(text, "tuesday") {
            return Some(Weekday::Tuesday);
        }
        if str_eq(text, "wednesday") {
            return Some(Weekday::Wednesday);
        }
        if str_eq(text, "thursday") {
            return Some(Weekday::Thursday);
        }
        if str_eq(text, "friday") {
            return Some(Weekday::Friday);
        }
        if str_eq(text, "saturday") {
            return Some(Weekday::Saturday);
        }
        if str_eq(text, "sunday") {
            return Some(Weekday::Sunday);
        }
        None
    }

    /// A variant's register word stands for the variant, and its published name names it.
    pub proof fn lemma_round_trip(self)
        ensures
            Weekday::of_word(self.word()) == Some(self),
            Weekday::named(self.name_text()) == Some(self),
    {
        match self {
            Weekday::Monday => {
                reveal_strlit("monday");
            },
            Weekday::Tuesday => {
                reveal_strlit("tuesday");
                reveal_strlit("monday");
                assert("monday"@.len() != "tuesday"@.len());
            },
            Weekday::Wednesday => {
                reveal_strlit("wednesday");
                reveal_strlit("monday");
                assert("monday"@.len() != "wednesday"@.len());
                reveal_strlit("tuesday");
                assert("tuesday"@.len() != "wednesday"@.len());
            },
            Weekday::Thursday => {
                reveal_strlit("thursday");
                reveal_strlit("monday");
                assert("monday"@.len() != "thursday"@.len());
                reveal_strlit("tuesday");
                assert("tuesday"@.len() != "thursday"@.len());
                reveal_strlit("wednesday");
                assert("wednesday"@.len() != "thursday"@.len());
            },
            Weekday::Friday => {
                reveal_strlit("friday");
                reveal_strlit("monday");
                assert("monday"@[0] != "friday"@[0]);
                reveal_strlit("tuesday");
                assert("tuesday"@.len() != "friday"@.len());
                reveal_strlit("wednesday");
                assert("wednesday"@.len() != "friday"@.len());
                reveal_strlit("thursday");
                assert("thursday"@.len() != "friday"@.len());
            },
            Weekday::Saturday => {
                reveal_strlit("saturday");
                reveal_strlit("monday");
                assert("monday"@.len() != "saturday"@.len());
                reveal_strlit("tuesday");
                assert("tuesday"@.len() != "saturday"@.len());
                reveal_strlit("wednesday");
                assert("wednesday"@.len() != "saturday"@.len());
                reveal_strlit("thursday");
                assert("thursday"@[0] != "saturday"@[0]);
                reveal_strlit("friday");
                assert("friday"@.len() != "saturday"@.len());
            },
            Weekday::Sunday => {
                reveal_strlit("sunday");
                reveal_strlit("monday");
                assert("monday"@[0] != "sunday"@[0]);
                reveal_strlit("tuesday");
                assert("tuesday"@.len() != "sunday"@.len());
                reveal_strlit("wednesday");
                assert("wednesday"@.len() != "sunday"@.len());
                reveal_strlit("thursday");
                assert("thursday"@.len() != "sunday"@.len());
                reveal_strlit("friday");
                assert("friday"@[0] != "sunday"@[0]);
                reveal_strlit("saturday");
                assert("saturday"@.len() != "sunday"@.len());
            },
        }
    }

    /// The published name and the register word of every variant, in declaration order.
    pub fn name_word_pairs() -> (r: Vec<(&'static str, u16)>)
        ensures
            r@.len() == Weekday::all().len(),
            forall|k: int|
                0 <= k < r@.len() ==> (#[trigger] r@[k]).0@ == Weekday::all()[k].name_text() && r@[k].1
                    == Weekday::all()[k].word(),
    {
        let variants = Weekday::variants();
        let mut r: Vec<(&'static str, u16)> = Vec::new();
        let mut i: usize = 0;
        while i < variants.len()
            invariant
                variants@ == Weekday::all(),
                i <= variants@.len(),
                r@.len() == i,
                forall|k: int|
                    0 <= k < i ==> (#[trigger] r@[k]).0@ == Weekday::all()[k].name_text() && r@[k].1
                        == Weekday::all()[k].word(),
            decreases variants@.len() - i,
        {
            let v = variants[i];
            r.push((v.name(), v.to_modbus()));
            i = i + 1;
        }
        r
    }

    /// Every variant, in declaration order.
    pub open spec fn all() -> Seq<Weekday> {
        seq![Weekday::Monday, Weekday::Tuesday, Weekday::Wednesday, Weekday::Thursday, Weekday::Friday, Weekday::Saturday, Weekday::Sunday]
    }

    /// Every variant, in declaration order.
    pub fn variants() -> (r: Vec<Weekday>)
        ensures
            r@ == Weekday::all(),
    {
        let mut r: Vec<Weekday> = Vec::new();
        r.push(Weekday::Monday);
        r.push(Weekday::Tuesday);
        r.push(Weekday::Wednesday);
        r.push(Weekday::Thursday);
        r.push(Weekday::Friday);
        r.push(Weekday::Saturday);
        r.push(Weekday::Sunday);
        r
    }
}

/// Winter or summer time.
#[derive(Clone, Copy, PartialEq, Eq, Debug, Structural)]
pub enum DaylightMode {
    WinterTime,
    SummerTime,
}

impl DaylightMode {
    /// The register word that stands for the variant.
    pub open spec fn word(self) -> u16 {
        match self {
            DaylightMode::WinterTime => 0,
            DaylightMode::SummerTime => 1,
        }
    }

    /// The variant that a register word stands for, if any.
    pub open spec fn of_word(word: u16) -> Option<DaylightMode> {
        if word == 0 {
            Some(DaylightMode::WinterTime)
        } else if word == 1 {
            Some(DaylightMode::SummerTime)
        } else {
            None
        }
    }

    /// The variant's published name.
    pub open spec fn name_text(self) -> Seq<char> {
        match self {
            DaylightMode::WinterTime => "winter-time"@,
            DaylightMode::SummerTime => "summer-time"@,
        }
    }

    /// The variant whose published name is `text`, if any.
    pub open spec fn named(text: Seq<char>) -> Option<DaylightMode> {
        if text == "winter-time"@ {
            Some(DaylightMode::WinterTime)
        } else if text == "summer-time"@ {
            Some(DaylightMode::SummerTime)
        } else {
            None
        }
    }

    /// The variant that a register word stands for, if any.
    pub fn from_repr(word: u16) -> (r: Option<DaylightMode>)
        ensures
            r == DaylightMode::of_word(word),
    {
        match word {
            0 => Some(DaylightMode::WinterTime),
            1 => Some(DaylightMode::SummerTime),
            _ => None,
        }
    }

    /// The variant that a register value stands for, if any.
    pub fn from_value(value: Value) -> (r: Option<DaylightMode>)
        ensures
            r == DaylightMode::of_word(word_of_value(value)),
    {
        DaylightMode::from_repr(value.into_inner())
    }

    /// The register word that stands for the variant.
    pub fn to_modbus(&self) -> (r: u16)
        ensures
            r == self.word(),
    {
        match self {
            DaylightMode::WinterTime => 0,
            DaylightMode::SummerTime => 1,
        }
    }

    /// The variant's published name.
    pub fn name(&self) -> (r: &'static str)
        ensures
            r@ == self.name_text(),
    {
        match self {
            DaylightMode::WinterTime => "winter-time",
            DaylightMode::SummerTime => "summer-time",
        }
    }

    /// The variant whose published name is `text`, if any.
    pub fn from_name(text: &str) -> (r: Option<DaylightMode>)
        ensures
            r == DaylightMode::named(text@),
    {
        if str_eq(text, "winter-time") {
            return Some(DaylightMode::WinterTime);
        }
        if str_eq(text, "summer-time") {
            return Some(DaylightMode::SummerTime);
        }
        None
    }

    /// A variant's register word stands for the variant, and its published name names it.
    pub proof fn lemma_round_trip(self)
        ensures
            DaylightMode::of_word(self.word()) == Some(self),
            DaylightMode::named(self.name_text()) == Some(self),
    {
        match self {
            DaylightMode::WinterTime => {
                reveal_strlit("winter-time");
            },
            DaylightMode::SummerTime => {
                reveal_strlit("summer-time");
                reveal_strlit("winter-time");
                assert("winter-time"@[0] != "summer-time"@[0]);
            },
        }
    }

    /// The published name and the register word of every variant, in declaration order.
    pub fn name_word_pairs() -> (r: Vec<(&'static str, u16)>)
        ensures
            r@.len() == DaylightMode::all().len(),
            forall|k: int|
                0 <= k < r@.len() ==> (#[trigger] r@[k]).0@ == DaylightMode::all()[k].name_text() && r@[k].1
                    == DaylightMode::all()[k].word(),
    {
        let variants = DaylightMode::variants();
        let mut r: Vec<(&'static str, u16)> = Vec::new();
        let mut i: usize = 0;
        while i < variants.len()
            invariant
                variants@ == DaylightMode::all(),
                i <= variants@.len(),
                r@.len() == i,
                forall|k: int|
                    0 <= k < i ==> (#[trigger] r@[k]).0@ == DaylightMode::all()[k].name_text() && r@[k].1
                        == DaylightMode::all()[k].word(),
            decreases variants@.len() - i,
        {
            let v = variants[i];
            r.push((v.name(), v.to_modbus()));
            i = i + 1;
        }
        r
    }

    /// Every variant, in declaration order.
    pub open spec fn all() -> Seq<DaylightMode> {
        seq![DaylightMode::WinterTime, DaylightMode::SummerTime]
    }

    /// Every variant, in declaration order.
    pub fn variants() -> (r: Vec<DaylightMode>)
        ensures
            r@ == DaylightMode::all(),
    {
        let mut r: Vec<DaylightMode> = Vec::new();
        r.push(DaylightMode::WinterTime);
        r.push(DaylightMode::SummerTime);
        r
    }
}

/// Which fans the outdoor temperature compensation drives.
#[derive(Clone, Copy, PartialEq, Eq, Debug, Structural)]
pub enum CompensationType {
    SafOnly,
    SafEaf,
}

impl CompensationType {
    /// The register word that stands for the variant.
    pub open spec fn word(self) -> u16 {
        match self {
            CompensationType::SafOnly => 0,
            CompensationType::SafEaf => 1,
        }
    }

    /// The variant that a register word stands for, if any.
    pub open spec fn of_word(word: u16) -> Option<CompensationType> {
        if word == 0 {
            Some(CompensationType::SafOnly)
        } else if word == 1 {
            Some(CompensationType::SafEaf)
        } else {
            None
        }
    }

    /// The variant's published name.
    pub open spec fn name_text(self) -> Seq<char> {
        match self {
            CompensationType::SafOnly => "saf-only"@,
            CompensationType::SafEaf => "saf-eaf"@,
        }
    }

    /// The variant whose published name is `text`, if any.
    pub open spec fn named(text: Seq<char>) -> Option<CompensationType> {
        if text == "saf-only"@ {
            Some(CompensationType::SafOnly)
        } else if text == "saf-eaf"@ {
            Some(CompensationType::SafEaf)
        } else {
            None
        }
    }

    /// The variant that a register word stands for, if any.
    pub fn from_repr(word: u16) -> (r: Option<CompensationType>)
        ensures
            r == CompensationType::of_word(word),
    {
        match word {
            0 => Some(CompensationType::SafOnly),
            1 => Some(CompensationType::SafEaf),
            _ => None,
        }
    }

    /// The variant that a register value stands for, if any.
    pub fn from_value(value: Value) -> (r: Option<CompensationType>)
        ensures
            r == CompensationType::of_word(word_of_value(value)),
    {
        CompensationType::from_repr(value.into_inner())
    }

    /// The register word that stands for the variant.
    pub fn to_modbus(&self) -> (r: u16)
        ensures
            r == self.word(),
    {
        match self {
            CompensationType::SafOnly => 0,
            CompensationType::SafEaf => 1,
        }
    }

    /// The variant's published name.
    pub fn name(&self) -> (r: &'static str)
        ensures
            r@ == self.name_text(),
    {
        match self {
            CompensationType::SafOnly => "saf-only",
            CompensationType::SafEaf => "saf-eaf",
        }
    }

    /// The variant whose published name is `text`, if any.
    pub fn from_name(text: &str) -> (r: Option<CompensationType>)
        ensures
            r == CompensationType::named(text@),
    {
        if str_eq(text, "saf-only") {
            return Some(CompensationType::SafOnly);
        }
        if str_eq(text, "saf-eaf") {
            return Some(CompensationType::SafEaf);
        }
        None
    }

    /// A variant's register word stands for the variant, and its published name names it.
    pub proof fn lemma_round_trip(self)
        ensures
            CompensationType::of_word(self.word()) == Some(self),
            CompensationType::named(self.name_text()) == Some(self),
    {
        match self {
            CompensationType::SafOnly => {
                reveal_strlit("saf-only");
            },
            CompensationType::SafEaf => {
                reveal_strlit("saf-eaf");
                reveal_strlit("saf-only");
                assert("saf-only"@.len() != "saf-eaf"@.len());
            },
        }
    }

    /// The published name and the register word of every variant, in declaration order.
    pub fn name_word_pairs() -> (r: Vec<(&'static str, u16)>)
        ensures
            r@.len() == CompensationType::all().len(),
            forall|k: int|
                0 <= k < r@.len() ==> (#[trigger] r@[k]).0@ == CompensationType::all()[k].name_text() && r@[k].1
                    == CompensationType::all()[k].word(),
    {
        let variants = CompensationType::variants();
        let mut r: Vec<(&'static str, u16)> = Vec::new();
        let mut i: usize = 0;
        while i < variants.len()
            invariant
                variants@ == CompensationType::all(),
                i <= variants@.len(),
                r@.len() == i,
                forall|k: int|
                    0 <= k < i ==> (#[trigger] r@[k]).0@ == CompensationType::all()[k].name_text() && r@[k].1
                        == CompensationType::all()[k].word(),
            decreases variants@.len() - i,
        {
            let v = variants[i];
            r.push((v.name(), v.to_modbus()));
            i = i + 1;
        }
        r
    }

    /// Every variant, in declaration order.
    pub open spec fn all() -> Seq<CompensationType> {
        seq![CompensationType::SafOnly, CompensationType::SafEaf]
    }

    /// Every variant, in declaration order.
    pub fn variants() -> (r: Vec<CompensationType>)
        ensures
            r@ == CompensationType::all(),
    {
        let mut r: Vec<CompensationType> = Vec::new();
        r.push(CompensationType::SafOnly);
        r.push(CompensationType::SafEaf);
        r
    }
}

/// What a digital input is connected to.
#[derive(Clone, Copy, PartialEq, Eq, Debug, Structural)]
pub enum DigitalInputConnection {
    NoConnection,
    AwayMode,
    VacuumCleanerMode,
    CookerHoodMode,
    CrowdedMode,
    ExtraControllerEmergencyThermostat,
    ExternalStop,
    ExtraControllerAlarm,
    FireplaceMode,
    HolidayMode,
    RefreshMode,
    RotorGuardSensor,
    ChangeOverFeedback,
    FireAlarm,
    ConfigurableDigitalInput1Mode,
    ConfigurableDigitalInput2Mode,
    ConfigurableDigitalInput3Mode,
    PressureGuard,
}

impl DigitalInputConnection {
    /// The register word that stands for the variant.
    pub open spec fn word(self) -> u16 {
        match self {
            DigitalInputConnection::NoConnection => 0,
            DigitalInputConnection::AwayMode => 1,
            DigitalInputConnection::VacuumCleanerMode => 3,
            DigitalInputConnection::CookerHoodMode => 4,
            DigitalInputConnection::CrowdedMode => 5,
            DigitalInputConnection::ExtraControllerEmergencyThermostat => 6,
            DigitalInputConnection::ExternalStop => 7,
            DigitalInputConnection::ExtraControllerAlarm => 8,
            DigitalInputConnection::FireplaceMode => 9,
            DigitalInputConnection::HolidayMode => 10,
            DigitalInputConnection::RefreshMode => 11,
            DigitalInputConnection::RotorGuardSensor => 12,
            DigitalInputConnection::ChangeOverFeedback => 13,
            DigitalInputConnection::FireAlarm => 14,
            DigitalInputConnection::ConfigurableDigitalInput1Mode => 15,
            DigitalInputConnection::ConfigurableDigitalInput2Mode => 16,
            DigitalInputConnection::ConfigurableDigitalInput3Mode => 17,
            DigitalInputConnection::PressureGuard => 18,
        }
    }

    /// The variant that a register word stands for, if any.
    pub open spec fn of_word(word: u16) -> Option<DigitalInputConnection> {
        if word == 0 {
            Some(DigitalInputConnection::NoConnection)
        } else if word == 1 {
            Some(DigitalInputConnection::AwayMode)
        } else if word == 3 {
            Some(DigitalInputConnection::VacuumCleanerMode)
        } else if word == 4 {
            Some(DigitalInputConnection::CookerHoodMode)
        } else if word == 5 {
            Some(DigitalInputConnection::CrowdedMode)
        } else if word == 6 {
            Some(DigitalInputConnection::ExtraControllerEmergencyThermostat)
        } else if word == 7 {
            Some(DigitalInputConnection::ExternalStop)
        } else if word == 8 {
            Some(DigitalInputConnection::ExtraControllerAlarm)
        } else if word == 9 {
            Some(DigitalInputConnection::FireplaceMode)
        } else if word == 10 {
            Some(DigitalInputConnection::HolidayMode)
        } else if word == 11 {
            Some(DigitalInputConnection::RefreshMode)
        } else if word == 12 {
            Some(DigitalInputConnection::RotorGuardSensor)
        } else if word == 13 {
            Some(DigitalInputConnection::ChangeOverFeedback)
        } else if word == 14 {
            Some(DigitalInputConnection::FireAlarm)
        } else if word == 15 {
            Some(DigitalInputConnection::ConfigurableDigitalInput1Mode)
        } else if word == 16 {
            Some(DigitalInputConnection::ConfigurableDigitalInput2Mode)
        } else if word == 17 {
            Some(DigitalInputConnection::ConfigurableDigitalInput3Mode)
        } else if word == 18 {
            Some(DigitalInputConnection::PressureGuard)
        } else {
            None
        }
    }

    /// The variant's published name.
    pub open spec fn name_text(self) -> Seq<char> {
        match self {
            DigitalInputConnection::NoConnection => "none"@,
            DigitalInputConnection::AwayMode => "away-mode"@,
            DigitalInputConnection::VacuumCleanerMode => "vacuum-cleaner-mode"@,
            DigitalInputConnection::CookerHoodMode => "cooker-hood-mode"@,
            DigitalInputConnection::CrowdedMode => "crowded-mode"@,
            DigitalInputConnection::ExtraControllerEmergencyThermostat => "extra-controller-emergency-thermostat"@,
            DigitalInputConnection::ExternalStop => "external-stop"@,
            DigitalInputConnection::ExtraControllerAlarm => "extra-controller-alarm"@,
            DigitalInputConnection::FireplaceMode => "fireplace-mode"@,
            DigitalInputConnection::HolidayMode => "holiday-mode"@,
            DigitalInputConnection::RefreshMode => "refresh-mode"@,
            DigitalInputConnection::RotorGuardSensor => "rotor-guard-sensor"@,
            DigitalInputConnection::ChangeOverFeedback => "change-over-feedback"@,
            DigitalInputConnection::FireAlarm => "fire-alarm"@,
            DigitalInputConnection::ConfigurableDigitalInput1Mode => "configurable-digital-input1-mode"@,
            DigitalInputConnection::ConfigurableDigitalInput2Mode => "configurable-digital-input2-mode"@,
            DigitalInputConnection::ConfigurableDigitalInput3Mode => "configurable-digital-input3-mode"@,
            DigitalInputConnection::PressureGuard => "pressure-guard"@,
        }
    }

    /// The variant whose published name is `text`, if any.
    pub open spec fn named(text: Seq<char>) -> Option<DigitalInputConnection> {
        if text == "none"@ {
            Some(DigitalInputConnection::NoConnection)
        } else if text == "away-mode"@ {
            Some(DigitalInputConnection::AwayMode)
        } else if text == "vacuum-cleaner-mode"@ {
            Some(DigitalInputConnection::VacuumCleanerMode)
        } else if text == "cooker-hood-mode"@ {
            Some(DigitalInputConnection::CookerHoodMode)
        } else if text == "crowded-mode"@ {
            Some(DigitalInputConnection::CrowdedMode)
        } else if text == "extra-controller-emergency-thermostat"@ {
            Some(DigitalInputConnection::ExtraControllerEmergencyThermostat)
        } else if text == "external-stop"@ {
            Some(DigitalInputConnection::ExternalStop)
        } else if text == "extra-controller-alarm"@ {
            Some(DigitalInputConnection::ExtraControllerAlarm)
        } else if text == "fireplace-mode"@ {
            Some(DigitalInputConnection::FireplaceMode)
        } else if text == "holiday-mode"@ {
            Some(DigitalInputConnection::HolidayMode)
        } else if text == "refresh-mode"@ {
            Some(DigitalInputConnection::RefreshMode)
        } else if text == "rotor-guard-sensor"@ {
            Some(DigitalInputConnection::RotorGuardSensor)
        } else if text == "change-over-feedback"@ {
            Some(DigitalInputConnection::ChangeOverFeedback)
        } else if text == "fire-alarm"@ {
            Some(DigitalInputConnection::FireAlarm)
        } else if text == "configurable-digital-input1-mode"@ {
            Some(DigitalInputConnection::ConfigurableDigitalInput1Mode)
        } else if text == "configurable-digital-input2-mode"@ {
            Some(DigitalInputConnection::ConfigurableDigitalInput2Mode)
        } else if text == "configurable-digital-input3-mode"@ {
            Some(DigitalInputConnection::ConfigurableDigitalInput3Mode)
        } else if text == "pressure-guard"@ {
            Some(DigitalInputConnection::PressureGuard)
        } else {
            None
        }
    }

    /// The variant that a register word stands for, if any.
    pub fn from_repr(word: u16) -> (r: Option<DigitalInputConnection>)
        ensures
            r == DigitalInputConnection::of_word(word),
    {
        match word {
            0 => Some(DigitalInputConnection::NoConnection),
            1 => Some(DigitalInputConnection::AwayMode),
            3 => Some(DigitalInputConnection::VacuumCleanerMode),
            4 => Some(DigitalInputConnection::CookerHoodMode),
            5 => Some(DigitalInputConnection::CrowdedMode),
            6 => Some(DigitalInputConnection::ExtraControllerEmergencyThermostat),
            7 => Some(DigitalInputConnection::ExternalStop),
            8 => Some(DigitalInputConnection::ExtraControllerAlarm),
            9 => Some(DigitalInputConnection::FireplaceMode),
            10 => Some(DigitalInputConnection::HolidayMode),
            11 => Some(DigitalInputConnection::RefreshMode),
            12 => Some(DigitalInputConnection::RotorGuardSensor),
            13 => Some(DigitalInputConnection::ChangeOverFeedback),
            14 => Some(DigitalInputConnection::FireAlarm),
            15 => Some(DigitalInputConnection::ConfigurableDigitalInput1Mode),
            16 => Some(DigitalInputConnection::ConfigurableDigitalInput2Mode),
            17 => Some(DigitalInputConnection::ConfigurableDigitalInput3Mode),
            18 => Some(DigitalInputConnection::PressureGuard),
            _ => None,
        }
    }

    /// The variant that a register value stands for, if any.
    pub fn from_value(value: Value) -> (r: Option<DigitalInputConnection>)
        ensures
            r == DigitalInputConnection::of_word(word_of_value(value)),
    {
        DigitalInputConnection::from_repr(value.into_inner())
    }

    /// The register word that stands for the variant.
    pub fn to_modbus(&self) -> (r: u16)
        ensures
            r == self.word(),
    {
        match self {
            DigitalInputConnection::NoConnection => 0,
            DigitalInputConnection::AwayMode => 1,
            DigitalInputConnection::VacuumCleanerMode => 3,
            DigitalInputConnection::CookerHoodMode => 4,
            DigitalInputConnection::CrowdedMode => 5,
            DigitalInputConnection::ExtraControllerEmergencyThermostat => 6,
            DigitalInputConnection::ExternalStop => 7,
            DigitalInputConnection::ExtraControllerAlarm => 8,
            DigitalInputConnection::FireplaceMode => 9,
            DigitalInputConnection::HolidayMode => 10,
            DigitalInputConnection::RefreshMode => 11,
            DigitalInputConnection::RotorGuardSensor => 12,
            DigitalInputConnection::ChangeOverFeedback => 13,
            DigitalInputConnection::FireAlarm => 14,
            DigitalInputConnection::ConfigurableDigitalInput1Mode => 15,
            DigitalInputConnection::ConfigurableDigitalInput2Mode => 16,
            DigitalInputConnection::ConfigurableDigitalInput3Mode => 17,
            DigitalInputConnection::PressureGuard => 18,
        }
    }

    /// The variant's published name.
    pub fn name(&self) -> (r: &'static str)
        ensures
            r@ == self.name_text(),
    {
        match self {
            DigitalInputConnection::NoConnection => "none",
            DigitalInputConnection::AwayMode => "away-mode",
            DigitalInputConnection::VacuumCleanerMode => "vacuum-cleaner-mode",
            DigitalInputConnection::CookerHoodMode => "cooker-hood-mode",
            DigitalInputConnection::CrowdedMode => "crowded-mode",
            DigitalInputConnection::ExtraControllerEmergencyThermostat => "extra-controller-emergency-thermostat",
            DigitalInputConnection::ExternalStop => "external-stop",
            DigitalInputConnection::ExtraControllerAlarm => "extra-controller-alarm",
            DigitalInputConnection::FireplaceMode => "fireplace-mode",
            DigitalInputConnection::HolidayMode => "holiday-mode",
            DigitalInputConnection::RefreshMode => "refresh-mode",
            DigitalInputConnection::RotorGuardSensor => "rotor-guard-sensor",
            DigitalInputConnection::ChangeOverFeedback => "change-over-feedback",
            DigitalInputConnection::FireAlarm => "fire-alarm",
            DigitalInputConnection::ConfigurableDigitalInput1Mode => "configurable-digital-input1-mode",
            DigitalInputConnection::ConfigurableDigitalInput2Mode => "configurable-digital-input2-mode",
            DigitalInputConnection::ConfigurableDigitalInput3Mode => "configurable-digital-input3-mode",
            DigitalInputConnection::PressureGuard => "pressure-guard",
        }
    }

    /// The variant whose published name is `text`, if any.
    pub fn from_name(text: &str) -> (r: Option<DigitalInputConnection>)
        ensures
            r == DigitalInputConnection::named(text@),
    {
        if str_eq(text, "none") {
            return Some(DigitalInputConnection::NoConnection);
        }
        if str_eq(text, "away-mode") {
            return Some(DigitalInputConnection::AwayMode);
        }
        if str_eq(text, "vacuum-cleaner-mode") {
            return Some(DigitalInputConnection::VacuumCleanerMode);
        }
        if str_eq(text, "cooker-hood-mode") {
            return Some(DigitalInputConnection::CookerHoodMode);
        }
        if str_eq(text, "crowded-mode") {
            return Some(DigitalInputConnection::CrowdedMode);
        }
        if str_eq(text, "extra-controller-emergency-thermostat") {
            return Some(DigitalInputConnection::ExtraControllerEmergencyThermostat);
        }
        if str_eq(text, "external-stop") {
            return Some(DigitalInputConnection::ExternalStop);
        }
        if str_eq(text, "extra-controller-alarm") {
            return Some(DigitalInputConnection::ExtraControllerAlarm);
        }
        if str_eq(text, "fireplace-mode") {
            return Some(DigitalInputConnection::FireplaceMode);
        }
        if str_eq(text, "holiday-mode") {
            return Some(DigitalInputConnection::HolidayMode);
        }
        if str_eq(text, "refresh-mode") {
            return Some(DigitalInputConnection::RefreshMode);
        }
        if str_eq(text, "rotor-guard-sensor") {
            return Some(DigitalInputConnection::RotorGuardSensor);
        }
        if str_eq(text, "change-over-feedback") {
            return Some(DigitalInputConnection::ChangeOverFeedback);
        }
        if str_eq(text, "fire-alarm") {
            return Some(DigitalInputConnection::FireAlarm);
        }
        if str_eq(text, "configurable-digital-input1-mode") {
            return Some(DigitalInputConnection::ConfigurableDigitalInput1Mode);
        }
        if str_eq(text, "configurable-digital-input2-mode") {
            return Some(DigitalInputConnection::ConfigurableDigitalInput2Mode);
        }
        if str_eq(text, "configurable-digital-input3-mode") {
            return Some(DigitalInputConnection::ConfigurableDigitalInput3Mode);
        }
        if str_eq(text, "pressure-guard") {
            return Some(DigitalInputConnection::PressureGuard);
        }
        None
    }

    /// A variant's register word stands for the variant, and its published name names it.
    pub proof fn lemma_round_trip(self)
        ensures
            DigitalInputConnection::of_word(self.word()) == Some(self),
            DigitalInputConnection::named(self.name_text()) == Some(self),
    {
        match self {
            DigitalInputConnection::NoConnection => {
                reveal_strlit("none");
            },
            DigitalInputConnection::AwayMode => {
                reveal_strlit("away-mode");
                reveal_strlit("none");
                assert("none"@.len() != "away-mode"@.len());
            },
            DigitalInputConnection::VacuumCleanerMode => {
                reveal_strlit("vacuum-cleaner-mode");
                reveal_strlit("none");
                assert("none"@.len() != "vacuum-cleaner-mode"@.len());
                reveal_strlit("away-mode");
                assert("away-mode"@.len() != "vacuum-cleaner-mode"@.len());
            },
            DigitalInputConnection::CookerHoodMode => {
                reveal_strlit("cooker-hood-mode");
                reveal_strlit("none");
                assert("none"@.len() != "cooker-hood-mode"@.len());
                reveal_strlit("away-mode");
                assert("away-mode"@.len() != "cooker-hood-mode"@.len());
                reveal_strlit("vacuum-cleaner-mode");
                assert("vacuum-cleaner-mode"@.len() != "cooker-hood-mode"@.len());
            },
            DigitalInputConnection::CrowdedMode => {
                reveal_strlit("crowded-mode");
                reveal_strlit("none");
                assert("none"@.len() != "crowded-mode"@.len());
                reveal_strlit("away-mode");
                assert("away-mode"@.len() != "crowded-mode"@.len());
                reveal_strlit("vacuum-cleaner-mode");
                assert("vacuum-cleaner-mode"@.len() != "crowded-mode"@.len());
                reveal_strlit("cooker-hood-mode");
                assert("cooker-hood-mode"@.len() != "crowded-mode"@.len());
            },
            DigitalInputConnection::ExtraControllerEmergencyThermostat => {
                reveal_strlit("extra-controller-emergency-thermostat");
                reveal_strlit("none");
                assert("none"@.len() != "extra-controller-emergency-thermostat"@.len());
                reveal_strlit("away-mode");
                assert("away-mode"@.len() != "extra-controller-emergency-thermostat"@.len());
                reveal_strlit("vacuum-cleaner-mode");
                assert("vacuum-cleaner-mode"@.len() != "extra-controller-emergency-thermostat"@.len());
                reveal_strlit("cooker-hood-mode");
                assert("cooker-hood-mode"@.len() != "extra-controller-emergency-thermostat"@.len());
                reveal_strlit("crowded-mode");
                assert("crowded-mode"@.len() != "extra-controller-emergency-thermostat"@.len());
            },
            DigitalInputConnection::ExternalStop => {
                reveal_strlit("external-stop");
                reveal_strlit("none");
                assert("none"@.len() != "external-stop"@.len());
                reveal_strlit("away-mode");
                assert("away-mode"@.len() != "external-stop"@.len());
                reveal_strlit("vacuum-cleaner-mode");
                assert("vacuum-cleaner-mode"@.len() != "external-stop"@.len());
                reveal_strlit("cooker-hood-mode");
                assert("cooker-hood-mode"@.len() != "external-stop"@.len());
                reveal_strlit("crowded-mode");
                assert("crowded-mode"@.len() != "external-stop"@.len());
                reveal_strlit("extra-controller-emergency-thermostat");
                assert("extra-controller-emergency-thermostat"@.len() != "external-stop"@.len());
            },
            DigitalInputConnection::ExtraControllerAlarm => {
                reveal_strlit("extra-controller-alarm");
                reveal_strlit("none");
                assert("none"@.len() != "extra-controller-alarm"@.len());
                reveal_strlit("away-mode");
                assert("away-mode"@.len() != "extra-controller-alarm"@.len());
                reveal_strlit("vacuum-cleaner-mode");
                assert("vacuum-cleaner-mode"@.len() != "extra-controller-alarm"@.len());
                reveal_strlit("cooker-hood-mode");
                assert("cooker-hood-mode"@.len() != "extra-controller-alarm"@.len());
                reveal_strlit("crowded-mode");
                assert("crowded-mode"@.len() != "extra-controller-alarm"@.len());
                reveal_strlit("extra-controller-emergency-thermostat");
                assert("extra-controller-emergency-thermostat"@.len() != "extra-controller-alarm"@.len());
                reveal_strlit("external-stop");
                assert("external-stop"@.len() != "extra-controller-alarm"@.len());
            },
            DigitalInputConnection::FireplaceMode => {
                reveal_strlit("fireplace-mode");
                reveal_strlit("none");
                assert("none"@.len() != "fireplace-mode"@.len());
                reveal_strlit("away-mode");
                assert("away-mode"@.len() != "fireplace-mode"@.len());
                reveal_strlit("vacuum-cleaner-mode");
                assert("vacuum-cleaner-mode"@.len() != "fireplace-mode"@.len());
                reveal_strlit("cooker-hood-mode");
                assert("cooker-hood-mode"@.len() != "fireplace-mode"@.len());
                reveal_strlit("crowded-mode");
                assert("crowded-mode"@.len() != "fireplace-mode"@.len());
                reveal_strlit("extra-controller-emergency-thermostat");
                assert("extra-controller-emergency-thermostat"@.len() != "fireplace-mode"@.len());
                reveal_strlit("external-stop");
                assert("external-stop"@.len() != "fireplace-mode"@.len());
                reveal_strlit("extra-controller-alarm");
                assert("extra-controller-alarm"@.len() != "fireplace-mode"@.len());
            },
            DigitalInputConnection::HolidayMode => {
                reveal_strlit("holiday-mode");
                reveal_strlit("none");
                assert("none"@.len() != "holiday-mode"@.len());
                reveal_strlit("away-mode");
                assert("away-mode"@.len() != "holiday-mode"@.len());
                reveal_strlit("vacuum-cleaner-mode");
                assert("vacuum-cleaner-mode"@.len() != "holiday-mode"@.len());
                reveal_strlit("cooker-hood-mode");
                assert("cooker-hood-mode"@.len() != "holiday-mode"@.len());
                reveal_strlit("crowded-mode");
                assert("crowded-mode"@[0] != "holiday-mode"@[0]);
                reveal_strlit("extra-controller-emergency-thermostat");
                assert("extra-controller-emergency-thermostat"@.len() != "holiday-mode"@.len());
                reveal_strlit("external-stop");
                assert("external-stop"@.len() != "holiday-mode"@.len());
                reveal_strlit("extra-controller-alarm");
                assert("extra-controller-alarm"@.len() != "holiday-mode"@.len());
                reveal_strlit("fireplace-mode");
                assert("fireplace-mode"@.len() != "holiday-mode"@.len());
            },
            DigitalInputConnection::RefreshMode => {
                reveal_strlit("refresh-mode");
                reveal_strlit("none");
                assert("none"@.len() != "refresh-mode"@.len());
                reveal_strlit("away-mode");
                assert("away-mode"@.len() != "refresh-mode"@.len());
                reveal_strlit("vacuum-cleaner-mode");
                assert("vacuum-cleaner-mode"@.len() != "refresh-mode"@.len());
                reveal_strlit("cooker-hood-mode");
                assert("cooker-hood-mode"@.len() != "refresh-mode"@.len());
                reveal_strlit("crowded-mode");
                assert("crowded-mode"@[0] != "refresh-mode"@[0]);
                reveal_strlit("extra-controller-emergency-thermostat");
                assert("extra-controller-emergency-thermostat"@.len() != "refresh-mode"@.len());
                reveal_strlit("external-stop");
                assert("external-stop"@.len() != "refresh-mode"@.len());
                reveal_strlit("extra-controller-alarm");
                assert("extra-controller-alarm"@.len() != "refresh-mode"@.len());
                reveal_strlit("fireplace-mode");
                assert("fireplace-mode"@.len() != "refresh-mode"@.len());
                reveal_strlit("holiday-mode");
                assert("holiday-mode"@[0] != "refresh-mode"@[0]);
            },
            DigitalInputConnection::RotorGuardSensor => {
                reveal_strlit("rotor-guard-sensor");
                reveal_strlit("none");
                assert("none"@.len() != "rotor-guard-sensor"@.len());
                reveal_strlit("away-mode");
                assert("away-mode"@.len() != "rotor-guard-sensor"@.len());
                reveal_strlit("vacuum-cleaner-mode");
                assert("vacuum-cleaner-mode"@.len() != "rotor-guard-sensor"@.len());
                reveal_strlit("cooker-hood-mode");
                assert("cooker-hood-mode"@.len() != "rotor-guard-sensor"@.len());
                reveal_strlit("crowded-mode");
                assert("crowded-mode"@.len() != "rotor-guard-sensor"@.len());
                reveal_strlit("extra-controller-emergency-thermostat");
                assert("extra-controller-emergency-thermostat"@.len() != "rotor-guard-sensor"@.len());
                reveal_strlit("external-stop");
                assert("external-stop"@.len() != "rotor-guard-sensor"@.len());
                reveal_strlit("extra-controller-alarm");
                assert("extra-controller-alarm"@.len() != "rotor-guard-sensor"@.len());
                reveal_strlit("fireplace-mode");
                assert("fireplace-mode"@.len() != "rotor-guard-sensor"@.len());
                reveal_strlit("holiday-mode");
                assert("holiday-mode"@.len() != "rotor-guard-sensor"@.len());
                reveal_strlit("refresh-mode");
                assert("refresh-mode"@.len() != "rotor-guard-sensor"@.len());
            },
            DigitalInputConnection::ChangeOverFeedback => {
                reveal_strlit("change-over-feedback");
                reveal_strlit("none");
                assert("none"@.len() != "change-over-feedback"@.len());
                reveal_strlit("away-mode");
                assert("away-mode"@.len() != "change-over-feedback"@.len());
                reveal_strlit("vacuum-cleaner-mode");
                assert("vacuum-cleaner-mode"@.len() != "change-over-feedback"@.len());
                reveal_strlit("cooker-hood-mode");
                assert("cooker-hood-mode"@.len() != "change-over-feedback"@.len());
                reveal_strlit("crowded-mode");
                assert("crowded-mode"@.len() != "change-over-feedback"@.len());
                reveal_strlit("extra-controller-emergency-thermostat");
                assert("extra-controller-emergency-thermostat"@.len() != "change-over-feedback"@.len());
                reveal_strlit("external-stop");
                assert("external-stop"@.len() != "change-over-feedback"@.len());
                reveal_strlit("extra-controller-alarm");
                assert("extra-controller-alarm"@.len() != "change-over-feedback"@.len());
                reveal_strlit("fireplace-mode");
                assert("fireplace-mode"@.len() != "change-over-feedback"@.len());
                reveal_strlit("holiday-mode");
                assert("holiday-mode"@.len() != "change-over-feedback"@.len());
                reveal_strlit("refresh-mode");
                assert("refresh-mode"@.len() != "change-over-feedback"@.len());
                reveal_strlit("rotor-guard-sensor");
                assert("rotor-guard-sensor"@.len() != "change-over-feedback"@.len());
            },
            DigitalInputConnection::FireAlarm => {
                reveal_strlit("fire-alarm");
                reveal_strlit("none");
                assert("none"@.len() != "fire-alarm"@.len());
                reveal_strlit("away-mode");
                assert("away-mode"@.len() != "fire-alarm"@.len());
                reveal_strlit("vacuum-cleaner-mode");
                assert("vacuum-cleaner-mode"@.len() != "fire-alarm"@.len());
                reveal_strlit("cooker-hood-mode");
                assert("cooker-hood-mode"@.len() != "fire-alarm"@.len());
                reveal_strlit("crowded-mode");
                assert("crowded-mode"@.len() != "fire-alarm"@.len());
                reveal_strlit("extra-controller-emergency-thermostat");
                assert("extra-controller-emergency-thermostat"@.len() != "fire-alarm"@.len());
                reveal_strlit("external-stop");
                assert("external-stop"@.len() != "fire-alarm"@.len());
                reveal_strlit("extra-controller-alarm");
                assert("extra-controller-alarm"@.len() != "fire-alarm"@.len());
                reveal_strlit("fireplace-mode");
                assert("fireplace-mode"@.len() != "fire-alarm"@.len());
                reveal_strlit("holiday-mode");
                assert("holiday-mode"@.len() != "fire-alarm"@.len());
                reveal_strlit("refresh-mode");
                assert("refresh-mode"@.len() != "fire-alarm"@.len());
                reveal_strlit("rotor-guard-sensor");
                assert("rotor-guard-sensor"@.len() != "fire-alarm"@.len());
                reveal_strlit("change-over-feedback");
                assert("change-over-feedback"@.len() != "fire-alarm"@.len());
            },
            DigitalInputConnection::ConfigurableDigitalInput1Mode => {
                reveal_strlit("configurable-digital-input1-mode");
                reveal_strlit("none");
                assert("none"@.len() != "configurable-digital-input1-mode"@.len());
                reveal_strlit("away-mode");
                assert("away-mode"@.len() != "configurable-digital-input1-mode"@.len());
                reveal_strlit("vacuum-cleaner-mode");
                assert("vacuum-cleaner-mode"@.len() != "configurable-digital-input1-mode"@.len());
                reveal_strlit("cooker-hood-mode");
                assert("cooker-hood-mode"@.len() != "configurable-digital-input1-mode"@.len());
                reveal_strlit("crowded-mode");
                assert("crowded-mode"@.len() != "configurable-digital-input1-mode"@.len());
                reveal_strlit("extra-controller-emergency-thermostat");
                assert("extra-controller-emergency-thermostat"@.len() != "configurable-digital-input1-mode"@.len());
                reveal_strlit("external-stop");
                assert("external-stop"@.len() != "configurable-digital-input1-mode"@.len());
                reveal_strlit("extra-controller-alarm");
                assert("extra-controller-alarm"@.len() != "configurable-digital-input1-mode"@.len());
                reveal_strlit("fireplace-mode");
                assert("fireplace-mode"@.len() != "configurable-digital-input1-mode"@.len());
                reveal_strlit("holiday-mode");
                assert("holiday-mode"@.len() != "configurable-digital-input1-mode"@.len());
                reveal_strlit("refresh-mode");
                assert("refresh-mode"@.len() != "configurable-digital-input1-mode"@.len());
                reveal_strlit("rotor-guard-sensor");
                assert("rotor-guard-sensor"@.len() != "configurable-digital-input1-mode"@.len());
                reveal_strlit("change-over-feedback");
                assert("change-over-feedback"@.len() != "configurable-digital-input1-mode"@.len());
                reveal_strlit("fire-alarm");
                assert("fire-alarm"@.len() != "configurable-digital-input1-mode"@.len());
            },
            DigitalInputConnection::ConfigurableDigitalInput2Mode => {
                reveal_strlit("configurable-digital-input2-mode");
                reveal_strlit("none");
                assert("none"@.len() != "configurable-digital-input2-mode"@.len());
                reveal_strlit("away-mode");
                assert("away-mode"@.len() != "configurable-digital-input2-mode"@.len());
                reveal_strlit("vacuum-cleaner-mode");
                assert("vacuum-cleaner-mode"@.len() != "configurable-digital-input2-mode"@.len());
                reveal_strlit("cooker-hood-mode");
                assert("cooker-hood-mode"@.len() != "configurable-digital-input2-mode"@.len());
                reveal_strlit("crowded-mode");
                assert("crowded-mode"@.len() != "configurable-digital-input2-mode"@.len());
                reveal_strlit("extra-controller-emergency-thermostat");
                assert("extra-controller-emergency-thermostat"@.len() != "configurable-digital-input2-mode"@.len());
                reveal_strlit("external-stop");
                assert("external-stop"@.len() != "configurable-digital-input2-mode"@.len());
                reveal_strlit("extra-controller-alarm");
                assert("extra-controller-alarm"@.len() != "configurable-digital-input2-mode"@.len());
                reveal_strlit("fireplace-mode");
                assert("fireplace-mode"@.len() != "configurable-digital-input2-mode"@.len());
                reveal_strlit("holiday-mode");
                assert("holiday-mode"@.len() != "configurable-digital-input2-mode"@.len());
                reveal_strlit("refresh-mode");
                assert("refresh-mode"@.len() != "configurable-digital-input2-mode"@.len());
                reveal_strlit("rotor-guard-sensor");
                assert("rotor-guard-sensor"@.len() != "configurable-digital-input2-mode"@.len());
                reveal_strlit("change-over-feedback");
                assert("change-over-feedback"@.len() != "configurable-digital-input2-mode"@.len());
                reveal_strlit("fire-alarm");
                assert("fire-alarm"@.len() != "configurable-digital-input2-mode"@.len());
                reveal_strlit("configurable-digital-input1-mode");
                assert("configurable-digital-input1-mode"@[26] != "configurable-digital-input2-mode"@[26]);
            },
            DigitalInputConnection::ConfigurableDigitalInput3Mode => {
                reveal_strlit("configurable-digital-input3-mode");
                reveal_strlit("none");
                assert("none"@.len() != "configurable-digital-input3-mode"@.len());
                reveal_strlit("away-mode");
                assert("away-mode"@.len() != "configurable-digital-input3-mode"@.len());
                reveal_strlit("vacuum-cleaner-mode");
                assert("vacuum-cleaner-mode"@.len() != "configurable-digital-input3-mode"@.len());
                reveal_strlit("cooker-hood-mode");
                assert("cooker-hood-mode"@.len() != "configurable-digital-input3-mode"@.len());
                reveal_strlit("crowded-mode");
                assert("crowded-mode"@.len() != "configurable-digital-input3-mode"@.len());
                reveal_strlit("extra-controller-emergency-thermostat");
                assert("extra-controller-emergency-thermostat"@.len() != "configurable-digital-input3-mode"@.len());
                reveal_strlit("external-stop");
                assert("external-stop"@.len() != "configurable-digital-input3-mode"@.len());
                reveal_strlit("extra-controller-alarm");
                assert("extra-controller-alarm"@.len() != "configurable-digital-input3-mode"@.len());
                reveal_strlit("fireplace-mode");
                assert("fireplace-mode"@.len() != "configurable-digital-input3-mode"@.len());
                reveal_strlit("holiday-mode");
                assert("holiday-mode"@.len() != "configurable-digital-input3-mode"@.len());
                reveal_strlit("refresh-mode");
                assert("refresh-mode"@.len() != "configurable-digital-input3-mode"@.len());
                reveal_strlit("rotor-guard-sensor");
                assert("rotor-guard-sensor"@.len() != "configurable-digital-input3-mode"@.len());
                reveal_strlit("change-over-feedback");
                assert("change-over-feedback"@.len() != "configurable-digital-input3-mode"@.len());
                reveal_strlit("fire-alarm");
                assert("fire-alarm"@.len() != "configurable-digital-input3-mode"@.len());
                reveal_strlit("configurable-digital-input1-mode");
                assert("configurable-digital-input1-mode"@[26] != "configurable-digital-input3-mode"@[26]);
                reveal_strlit("configurable-digital-input2-mode");
                assert("configurable-digital-input2-mode"@[26] != "configurable-digital-input3-mode"@[26]);
            },
            DigitalInputConnection::PressureGuard => {
                reveal_strlit("pressure-guard");
                reveal_strlit("none");
                assert("none"@.len() != "pressure-guard"@.len());
                reveal_strlit("away-mode");
                assert("away-mode"@.len() != "pressure-guard"@.len());
                reveal_strlit("vacuum-cleaner-mode");
                assert("vacuum-cleaner-mode"@.len() != "pressure-guard"@.len());
                reveal_strlit("cooker-hood-mode");
                assert("cooker-hood-mode"@.len() != "pressure-guard"@.len());
                reveal_strlit("crowded-mode");
                assert("crowded-mode"@.len() != "pressure-guard"@.len());
                reveal_strlit("extra-controller-emergency-thermostat");
                assert("extra-controller-emergency-thermostat"@.len() != "pressure-guard"@.len());
                reveal_strlit("external-stop");
                assert("external-stop"@.len() != "pressure-guard"@.len());
                reveal_strlit("extra-controller-alarm");
                assert("extra-controller-alarm"@.len() != "pressure-guard"@.len());
                reveal_strlit("fireplace-mode");
                assert("fireplace-mode"@[0] != "pressure-guard"@[0]);
                reveal_strlit("holiday-mode");
                assert("holiday-mode"@.len() != "pressure-guard"@.len());
                reveal_strlit("refresh-mode");
                assert("refresh-mode"@.len() != "pressure-guard"@.len());
                reveal_strlit("rotor-guard-sensor");
                assert("rotor-guard-sensor"@.len() != "pressure-guard"@.len());
                reveal_strlit("change-over-feedback");
                assert("change-over-feedback"@.len() != "pressure-guard"@.len());
                reveal_strlit("fire-alarm");
                assert("fire-alarm"@.len() != "pressure-guard"@.len());
                reveal_strlit("configurable-digital-input1-mode");
                assert("configurable-digital-input1-mode"@.len() != "pressure-guard"@.len());
                reveal_strlit("configurable-digital-input2-mode");
                assert("configurable-digital-input2-mode"@.len() != "pressure-guard"@.len());
                reveal_strlit("configurable-digital-input3-mode");
                assert("configurable-digital-input3-mode"@.len() != "pressure-guard"@.len());
            },
        }
    }

    /// The published name and the register word of every variant, in declaration order.
    pub fn name_word_pairs() -> (r: Vec<(&'static str, u16)>)
        ensures
            r@.len() == DigitalInputConnection::all().len(),
            forall|k: int|
                0 <= k < r@.len() ==> (#[trigger] r@[k]).0@ == DigitalInputConnection::all()[k].name_text() && r@[k].1
                    == DigitalInputConnection::all()[k].word(),
    {
        let variants = DigitalInputConnection::variants();
        let mut r: Vec<(&'static str, u16)> = Vec::new();
        let mut i: usize = 0;
        while i < variants.len()
            invariant
                variants@ == DigitalInputConnection::all(),
                i <= variants@.len(),
                r@.len() == i,
                forall|k: int|
                    0 <= k < i ==> (#[trigger] r@[k]).0@ == DigitalInputConnection::all()[k].name_text() && r@[k].1
                        == DigitalInputConnection::all()[k].word(),
            decreases variants@.len() - i,
        {
            let v = variants[i];
            r.push((v.name(), v.to_modbus()));
            i = i + 1;
        }
        r
    }

    /// Every variant, in declaration order.
    pub open spec fn all() -> Seq<DigitalInputConnection> {
        seq![DigitalInputConnection::NoConnection, DigitalInputConnection::AwayMode, DigitalInputConnection::VacuumCleanerMode, DigitalInputConnection::CookerHoodMode, DigitalInputConnection::CrowdedMode, DigitalInputConnection::ExtraControllerEmergencyThermostat, DigitalInputConnection::ExternalStop, DigitalInputConnection::ExtraControllerAlarm, DigitalInputConnection::FireplaceMode, DigitalInputConnection::HolidayMode, DigitalInputConnection::RefreshMode, DigitalInputConnection::RotorGuardSensor, DigitalInputConnection::ChangeOverFeedback, DigitalInputConnection::FireAlarm, DigitalInputConnection::ConfigurableDigitalInput1Mode, DigitalInputConnection::ConfigurableDigitalInput2Mode, DigitalInputConnection::ConfigurableDigitalInput3Mode, DigitalInputConnection::PressureGuard]
    }

    /// Every variant, in declaration order.
    pub fn variants() -> (r: Vec<DigitalInputConnection>)
        ensures
            r@ == DigitalInputConnection::all(),
    {
        let mut r: Vec<DigitalInputConnection> = Vec::new();
        r.push(DigitalInputConnection::NoConnection);
        r.push(DigitalInputConnection::AwayMode);
        r.push(DigitalInputConnection::VacuumCleanerMode);
        r.push(DigitalInputConnection::CookerHoodMode);
        r.push(DigitalInputConnection::CrowdedMode);
        r.push(DigitalInputConnection::ExtraControllerEmergencyThermostat);
        r.push(DigitalInputConnection::ExternalStop);
        r.push(DigitalInputConnection::ExtraControllerAlarm);
        r.push(DigitalInputConnection::FireplaceMode);
        r.push(DigitalInputConnection::HolidayMode);
        r.push(DigitalInputConnection::RefreshMode);
        r.push(DigitalInputConnection::RotorGuardSensor);
        r.push(DigitalInputConnection::ChangeOverFeedback);
        r.push(DigitalInputConnection::FireAlarm);
        r.push(DigitalInputConnection::ConfigurableDigitalInput1Mode);
        r.push(DigitalInputConnection::ConfigurableDigitalInput2Mode);
        r.push(DigitalInputConnection::ConfigurableDigitalInput3Mode);
        r.push(DigitalInputConnection::PressureGuard);
        r
    }
}

/// The polarity of a digital input.
#[derive(Clone, Copy, PartialEq, Eq, Debug, Structural)]
pub enum DigitalInputPolarity {
    NormallyOpen,
    MormallyClosed,
}

impl DigitalInputPolarity {
    /// The register word that stands for the variant.
    pub open spec fn word(self) -> u16 {
        match self {
            DigitalInputPolarity::NormallyOpen => 0,
            DigitalInputPolarity::MormallyClosed => 1,
        }
    }

    /// The variant that a register word stands for, if any.
    pub open spec fn of_word(word: u16) -> Option<DigitalInputPolarity> {
        if word == 0 {
            Some(DigitalInputPolarity::NormallyOpen)
        } else if word == 1 {
            Some(DigitalInputPolarity::MormallyClosed)
        } else {
            None
        }
    }

    /// The variant's published name.
    pub open spec fn name_text(self) -> Seq<char> {
        match self {
            DigitalInputPolarity::NormallyOpen => "normally-open"@,
            DigitalInputPolarity::MormallyClosed => "mormally-closed"@,
        }
    }

    /// The variant whose published name is `text`, if any.
    pub open spec fn named(text: Seq<char>) -> Option<DigitalInputPolarity> {
        if text == "normally-open"@ {
            Some(DigitalInputPolarity::NormallyOpen)
        } else if text == "mormally-closed"@ {
            Some(DigitalInputPolarity::MormallyClosed)
        } else {
            None
        }
    }

    /// The variant that a register word stands for, if any.
    pub fn from_repr(word: u16) -> (r: Option<DigitalInputPolarity>)
        ensures
            r == DigitalInputPolarity::of_word(word),
    {
        match word {
            0 => Some(DigitalInputPolarity::NormallyOpen),
            1 => Some(DigitalInputPolarity::MormallyClosed),
            _ => None,
        }
    }

    /// The variant that a register value stands for, if any.
    pub fn from_value(value: Value) -> (r: Option<DigitalInputPolarity>)
        ensures
            r == DigitalInputPolarity::of_word(word_of_value(value)),
    {
        DigitalInputPolarity::from_repr(value.into_inner())
    }

    /// The register word that stands for the variant.
    pub fn to_modbus(&self) -> (r: u16)
        ensures
            r == self.word(),
    {
        match self {
            DigitalInputPolarity::NormallyOpen => 0,
            DigitalInputPolarity::MormallyClosed => 1,
        }
    }

    /// The variant's published name.
    pub fn name(&self) -> (r: &'static str)
        ensures
            r@ == self.name_text(),
    {
        match self {
            DigitalInputPolarity::NormallyOpen => "normally-open",
            DigitalInputPolarity::MormallyClosed => "mormally-closed",
        }
    }

    /// The variant whose published name is `text`, if any.
    pub fn from_name(text: &str) -> (r: Option<DigitalInputPolarity>)
        ensures
            r == DigitalInputPolarity::named(text@),
    {
        if str_eq(text, "normally-open") {
            return Some(DigitalInputPolarity::NormallyOpen);
        }
        if str_eq(text, "mormally-closed") {
            return Some(DigitalInputPolarity::MormallyClosed);
        }
        None
    }

    /// A variant's register word stands for the variant, and its published name names it.
    pub proof fn lemma_round_trip(self)
        ensures
            DigitalInputPolarity::of_word(self.word()) == Some(self),
            DigitalInputPolarity::named(self.name_text()) == Some(self),
    {
        match self {
            DigitalInputPolarity::NormallyOpen => {
                reveal_strlit("normally-open");
            },
            DigitalInputPolarity::MormallyClosed => {
                reveal_strlit("mormally-closed");
                reveal_strlit("normally-open");
                assert("normally-open"@.len() != "mormally-closed"@.len());
            },
        }
    }

    /// The published name and the register word of every variant, in declaration order.
    pub fn name_word_pairs() -> (r: Vec<(&'static str, u16)>)
        ensures
            r@.len() == DigitalInputPolarity::all().len(),
            forall|k: int|
                0 <= k < r@.len() ==> (#[trigger] r@[k]).0@ == DigitalInputPolarity::all()[k].name_text() && r@[k].1
                    == DigitalInputPolarity::all()[k].word(),
    {
        let variants = DigitalInputPolarity::variants();
        let mut r: Vec<(&'static str, u16)> = Vec::new();
        let mut i: usize = 0;
        while i < variants.len()
            invariant
                variants@ == DigitalInputPolarity::all(),
                i <= variants@.len(),
                r@.len() == i,
                forall|k: int|
                    0 <= k < i ==> (#[trigger] r@[k]).0@ == DigitalInputPolarity::all()[k].name_text() && r@[k].1
                        == DigitalInputPolarity::all()[k].word(),
            decreases variants@.len() - i,
        {
            let v = variants[i];
            r.push((v.name(), v.to_modbus()));
            i = i + 1;
        }
        r
    }

    /// Every variant, in declaration order.
    pub open spec fn all() -> Seq<DigitalInputPolarity> {
        seq![DigitalInputPolarity::NormallyOpen, DigitalInputPolarity::MormallyClosed]
    }

    /// Every variant, in declaration order.
    pub fn variants() -> (r: Vec<DigitalInputPolarity>)
        ensures
            r@ == DigitalInputPolarity::all(),
    {
        let mut r: Vec<DigitalInputPolarity> = Vec::new();
        r.push(DigitalInputPolarity::NormallyOpen);
        r.push(DigitalInputPolarity::MormallyClosed);
        r
    }
}

/// What the temperature controller controls.
#[derive(Clone, Copy, PartialEq, Eq, Debug, Structural)]
pub enum ControlMode {
    SupplyAir,
    Room,
    ExtractAir,
}

impl ControlMode {
    /// The register word that stands for the variant.
    pub open spec fn word(self) -> u16 {
        match self {
            ControlMode::SupplyAir => 0,
            ControlMode::Room => 1,
            ControlMode::ExtractAir => 2,
        }
    }

    /// The variant that a register word stands for, if any.
    pub open spec fn of_word(word: u16) -> Option<ControlMode> {
        if word == 0 {
            Some(ControlMode::SupplyAir)
        } else if word == 1 {
            Some(ControlMode::Room)
        } else if word == 2 {
            Some(ControlMode::ExtractAir)
        } else {
            None
        }
    }

    /// The variant's published name.
    pub open spec fn name_text(self) -> Seq<char> {
        match self {
            ControlMode::SupplyAir => "supply-air"@,
            ControlMode::Room => "room"@,
            ControlMode::ExtractAir => "extract-air"@,
        }
    }

    /// The variant whose published name is `text`, if any.
    pub open spec fn named(text: Seq<char>) -> Option<ControlMode> {
        if text == "supply-air"@ {
            Some(ControlMode::SupplyAir)
        } else if text == "room"@ {
            Some(ControlMode::Room)
        } else if text == "extract-air"@ {
            Some(ControlMode::ExtractAir)
        } else {
            None
        }
    }

    /// The variant that a register word stands for, if any.
    pub fn from_repr(word: u16) -> (r: Option<ControlMode>)
        ensures
            r == ControlMode::of_word(word),
    {
        match word {
            0 => Some(ControlMode::SupplyAir),
            1 => Some(ControlMode::Room),
            2 => Some(ControlMode::ExtractAir),
            _ => None,
        }
    }

    /// The variant that a register value stands for, if any.
    pub fn from_value(value: Value) -> (r: Option<ControlMode>)
        ensures
            r == ControlMode::of_word(word_of_value(value)),
    {
        ControlMode::from_repr(value.into_inner())
    }

    /// The register word that stands for the variant.
    pub fn to_modbus(&self) -> (r: u16)
        ensures
            r == self.word(),
    {
        match self {
            ControlMode::SupplyAir => 0,
            ControlMode::Room => 1,
            ControlMode::ExtractAir => 2,
        }
    }

    /// The variant's published name.
    pub fn name(&self) -> (r: &'static str)
        ensures
            r@ == self.name_text(),
    {
        match self {
            ControlMode::SupplyAir => "supply-air",
            ControlMode::Room => "room",
            ControlMode::ExtractAir => "extract-air",
        }
    }

    /// The variant whose published name is `text`, if any.
    pub fn from_name(text: &str) -> (r: Option<ControlMode>)
        ensures
            r == ControlMode::named(text@),
    {
        if str_eq(text, "supply-air") {
            return Some(ControlMode::SupplyAir);
        }
        if str_eq(text, "room") {
            return Some(ControlMode::Room);
        }
        if str_eq(text, "extract-air") {
            return Some(ControlMode::ExtractAir);
        }
        None
    }

    /// A variant's register word stands for the variant, and its published name names it.
    pub proof fn lemma_round_trip(self)
        ensures
            ControlMode::of_word(self.word()) == Some(self),
            ControlMode::named(self.name_text()) == Some(self),
    {
        match self {
            ControlMode::SupplyAir => {
                reveal_strlit("supply-air");
            },
            ControlMode::Room => {
                reveal_strlit("room");
                reveal_strlit("supply-air");
                assert("supply-air"@.len() != "room"@.len());
            },
            ControlMode::ExtractAir => {
                reveal_strlit("extract-air");
                reveal_strlit("supply-air");
                assert("supply-air"@.len() != "extract-air"@.len());
                reveal_strlit("room");
                assert("room"@.len() != "extract-air"@.len());
            },
        }
    }

    /// The published name and the register word of every variant, in declaration order.
    pub fn name_word_pairs() -> (r: Vec<(&'static str, u16)>)
        ensures
            r@.len() == ControlMode::all().len(),
            forall|k: int|
                0 <= k < r@.len() ==> (#[trigger] r@[k]).0@ == ControlMode::all()[k].name_text() && r@[k].1
                    == ControlMode::all()[k].word(),
    {
        let variants = ControlMode::variants();
        let mut r: Vec<(&'static str, u16)> = Vec::new();
        let mut i: usize = 0;
        while i < variants.len()
            invariant
                variants@ == ControlMode::all(),
                i <= variants@.len(),
                r@.len() == i,
                forall|k: int|
                    0 <= k < i ==> (#[trigger] r@[k]).0@ == ControlMode::all()[k].name_text() && r@[k].1
                        == ControlMode::all()[k].word(),
            decreases variants@.len() - i,
        {
            let v = variants[i];
            r.push((v.name(), v.to_modbus()));
            i = i + 1;
        }
        r
    }

    /// Every variant, in declaration order.
    pub open spec fn all() -> Seq<ControlMode> {
        seq![ControlMode::SupplyAir, ControlMode::Room, ControlMode::ExtractAir]
    }

    /// Every variant, in declaration order.
    pub fn variants() -> (r: Vec<ControlMode>)
        ensures
            r@ == ControlMode::all(),
    {
        let mut r: Vec<ControlMode> = Vec::new();
        r.push(ControlMode::SupplyAir);
        r.push(ControlMode::Room);
        r.push(ControlMode::ExtractAir);
        r
    }
}

/// The operating mode the device is in.
#[derive(Clone, Copy, PartialEq, Eq, Debug, Structural)]
pub enum CurrentMode {
    Auto,
    Manual,
    Crowded,
    Refresh,
    Fireplace,
    Away,
    Holiday,
    CookerHood,
    VacuumCleaner,
    ConfigurableDigitalInput1,
    ConfigurableDigitalInput2,
    ConfigurableDigitalInput3,
    PressureGuard,
}

impl CurrentMode {
    /// The register word that stands for the variant.
    pub open spec fn word(self) -> u16 {
        match self {
            CurrentMode::Auto => 0,
            CurrentMode::Manual => 1,
            CurrentMode::Crowded => 2,
            CurrentMode::Refresh => 3,
            CurrentMode::Fireplace => 4,
            CurrentMode::Away => 5,
            CurrentMode::Holiday => 6,
            CurrentMode::CookerHood => 7,
            CurrentMode::VacuumCleaner => 8,
            CurrentMode::ConfigurableDigitalInput1 => 9,
            CurrentMode::ConfigurableDigitalInput2 => 10,
            CurrentMode::ConfigurableDigitalInput3 => 11,
            CurrentMode::PressureGuard => 12,
        }
    }

    /// The variant that a register word stands for, if any.
    pub open spec fn of_word(word: u16) -> Option<CurrentMode> {
        if word == 0 {
            Some(CurrentMode::Auto)
        } else if word == 1 {
            Some(CurrentMode::Manual)
        } else if word == 2 {
            Some(CurrentMode::Crowded)
        } else if word == 3 {
            Some(CurrentMode::Refresh)
        } else if word == 4 {
            Some(CurrentMode::Fireplace)
        } else if word == 5 {
            Some(CurrentMode::Away)
        } else if word == 6 {
            Some(CurrentMode::Holiday)
        } else if word == 7 {
            Some(CurrentMode::CookerHood)
        } else if word == 8 {
            Some(CurrentMode::VacuumCleaner)
        } else if word == 9 {
            Some(CurrentMode::ConfigurableDigitalInput1)
        } else if word == 10 {
            Some(CurrentMode::ConfigurableDigitalInput2)
        } else if word == 11 {
            Some(CurrentMode::ConfigurableDigitalInput3)
        } else if word == 12 {
            Some(CurrentMode::PressureGuard)
        } else {
            None
        }
    }

    /// The variant's published name.
    pub open spec fn name_text(self) -> Seq<char> {
        match self {
            CurrentMode::Auto => "auto"@,
            CurrentMode::Manual => "manual"@,
            CurrentMode::Crowded => "crowded"@,
            CurrentMode::Refresh => "refresh"@,
            CurrentMode::Fireplace => "fireplace"@,
            CurrentMode::Away => "away"@,
            CurrentMode::Holiday => "holiday"@,
            CurrentMode::CookerHood => "cooker-hood"@,
            CurrentMode::VacuumCleaner => "vacuum-cleaner"@,
            CurrentMode::ConfigurableDigitalInput1 => "configurable-digital-input1"@,
            CurrentMode::ConfigurableDigitalInput2 => "configurable-digital-input2"@,
            CurrentMode::ConfigurableDigitalInput3 => "configurable-digital-input3"@,
            CurrentMode::PressureGuard => "pressure-guard"@,
        }
    }

    /// The variant whose published name is `text`, if any.
    pub open spec fn named(text: Seq<char>) -> Option<CurrentMode> {
        if text == "auto"@ {
            Some(CurrentMode::Auto)
        } else if text == "manual"@ {
            Some(CurrentMode::Manual)
        } else if text == "crowded"@ {
            Some(CurrentMode::Crowded)
        } else if text == "refresh"@ {
            Some(CurrentMode::Refresh)
        } else if text == "fireplace"@ {
            Some(CurrentMode::Fireplace)
        } else if text == "away"@ {
            Some(CurrentMode::Away)
        } else if text == "holiday"@ {
            Some(CurrentMode::Holiday)
        } else if text == "cooker-hood"@ {
            Some(CurrentMode::CookerHood)
        } else if text == "vacuum-cleaner"@ {
            Some(CurrentMode::VacuumCleaner)
        } else if text == "configurable-digital-input1"@ {
            Some(CurrentMode::ConfigurableDigitalInput1)
        } else if text == "configurable-digital-input2"@ {
            Some(CurrentMode::ConfigurableDigitalInput2)
        } else if text == "configurable-digital-input3"@ {
            Some(CurrentMode::ConfigurableDigitalInput3)
        } else if text == "pressure-guard"@ {
            Some(CurrentMode::PressureGuard)
        } else {
            None
        }
    }

    /// The variant that a register word stands for, if any.
    pub fn from_repr(word: u16) -> (r: Option<CurrentMode>)
        ensures
            r == CurrentMode::of_word(word),
    {
        match word {
            0 => Some(CurrentMode::Auto),
            1 => Some(CurrentMode::Manual),
            2 => Some(CurrentMode::Crowded),
            3 => Some(CurrentMode::Refresh),
            4 => Some(CurrentMode::Fireplace),
            5 => Some(CurrentMode::Away),
            6 => Some(CurrentMode::Holiday),
            7 => Some(CurrentMode::CookerHood),
            8 => Some(CurrentMode::VacuumCleaner),
            9 => Some(CurrentMode::ConfigurableDigitalInput1),
            10 => Some(CurrentMode::ConfigurableDigitalInput2),
            11 => Some(CurrentMode::ConfigurableDigitalInput3),
            12 => Some(CurrentMode::PressureGuard),
            _ => None,
        }
    }

    /// The variant that a register value stands for, if any.
    pub fn from_value(value: Value) -> (r: Option<CurrentMode>)
        ensures
            r == CurrentMode::of_word(word_of_value(value)),
    {
        CurrentMode::from_repr(value.into_inner())
    }

    /// The register word that stands for the variant.
    pub fn to_modbus(&self) -> (r: u16)
        ensures
            r == self.word(),
    {
        match self {
            CurrentMode::Auto => 0,
            CurrentMode::Manual => 1,
            CurrentMode::Crowded => 2,
            CurrentMode::Refresh => 3,
            CurrentMode::Fireplace => 4,
            CurrentMode::Away => 5,
            CurrentMode::Holiday => 6,
            CurrentMode::CookerHood => 7,
            CurrentMode::VacuumCleaner => 8,
            CurrentMode::ConfigurableDigitalInput1 => 9,
            CurrentMode::ConfigurableDigitalInput2 => 10,
            CurrentMode::ConfigurableDigitalInput3 => 11,
            CurrentMode::PressureGuard => 12,
        }
    }

    /// The variant's published name.
    pub fn name(&self) -> (r: &'static str)
        ensures
            r@ == self.name_text(),
    {
        match self {
            CurrentMode::Auto => "auto",
            CurrentMode::Manual => "manual",
            CurrentMode::Crowded => "crowded",
            CurrentMode::Refresh => "refresh",
            CurrentMode::Fireplace => "fireplace",
            CurrentMode::Away => "away",
            CurrentMode::Holiday => "holiday",
            CurrentMode::CookerHood => "cooker-hood",
            CurrentMode::VacuumCleaner => "vacuum-cleaner",
            CurrentMode::ConfigurableDigitalInput1 => "configurable-digital-input1",
            CurrentMode::ConfigurableDigitalInput2 => "configurable-digital-input2",
            CurrentMode::ConfigurableDigitalInput3 => "configurable-digital-input3",
            CurrentMode::PressureGuard => "pressure-guard",
        }
    }

    /// The variant whose published name is `text`, if any.
    pub fn from_name(text: &str) -> (r: Option<CurrentMode>)
        ensures
            r == CurrentMode::named(text@),
    {
        if str_eq(text, "auto") {
            return Some(CurrentMode::Auto);
        }
        if str_eq(text, "manual") {
            return Some(CurrentMode::Manual);
        }
        if str_eq(text, "crowded") {
            return Some(CurrentMode::Crowded);
        }
        if str_eq(text, "refresh") {
            return Some(CurrentMode::Refresh);
        }
        if str_eq(text, "fireplace") {
            return Some(CurrentMode::Fireplace);
        }
        if str_eq(text, "away") {
            return Some(CurrentMode::Away);
        }
        if str_eq(text, "holiday") {
            return Some(CurrentMode::Holiday);
        }
        if str_eq(text, "cooker-hood") {
            return Some(CurrentMode::CookerHood);
        }
        if str_eq(text, "vacuum-cleaner") {
            return Some(CurrentMode::VacuumCleaner);
        }
        if str_eq(text, "configurable-digital-input1") {
            return Some(CurrentMode::ConfigurableDigitalInput1);
        }
        if str_eq(text, "configurable-digital-input2") {
            return Some(CurrentMode::ConfigurableDigitalInput2);
        }
        if str_eq(text, "configurable-digital-input3") {
            return Some(CurrentMode::ConfigurableDigitalInput3);
        }
        if str_eq(text, "pressure-guard") {
            return Some(CurrentMode::PressureGuard);
        }
        None
    }

    /// A variant's register word stands for the variant, and its published name names it.
    pub proof fn lemma_round_trip(self)
        ensures
            CurrentMode::of_word(self.word()) == Some(self),
            CurrentMode::named(self.name_text()) == Some(self),
    {
        match self {
            CurrentMode::Auto => {
                reveal_strlit("auto");
            },
            CurrentMode::Manual => {
                reveal_strlit("manual");
                reveal_strlit("auto");
                assert("auto"@.len() != "manual"@.len());
            },
            CurrentMode::Crowded => {
                reveal_strlit("crowded");
                reveal_strlit("auto");
                assert("auto"@.len() != "crowded"@.len());
                reveal_strlit("manual");
                assert("manual"@.len() != "crowded"@.len());
            },
            CurrentMode::Refresh => {
                reveal_strlit("refresh");
                reveal_strlit("auto");
                assert("auto"@.len() != "refresh"@.len());
                reveal_strlit("manual");
                assert("manual"@.len() != "refresh"@.len());
                reveal_strlit("crowded");
                assert("crowded"@[0] != "refresh"@[0]);
            },
            CurrentMode::Fireplace => {
                reveal_strlit("fireplace");
                reveal_strlit("auto");
                assert("auto"@.len() != "fireplace"@.len());
                reveal_strlit("manual");
                assert("manual"@.len() != "fireplace"@.len());
                reveal_strlit("crowded");
                assert("crowded"@.len() != "fireplace"@.len());
                reveal_strlit("refresh");
                assert("refresh"@.len() != "fireplace"@.len());
            },
            CurrentMode::Away => {
                reveal_strlit("away");
                reveal_strlit("auto");
                assert("auto"@[1] != "away"@[1]);
                reveal_strlit("manual");
                assert("manual"@.len() != "away"@.len());
                reveal_strlit("crowded");
                assert("crowded"@.len() != "away"@.len());
                reveal_strlit("refresh");
                assert("refresh"@.len() != "away"@.len());
                reveal_strlit("fireplace");
                assert("fireplace"@.len() != "away"@.len());
            },
            CurrentMode::Holiday => {
                reveal_strlit("holiday");
                reveal_strlit("auto");
                assert("auto"@.len() != "holiday"@.len());
                reveal_strlit("manual");
                assert("manual"@.len() != "holiday"@.len());
                reveal_strlit("crowded");
                assert("crowded"@[0] != "holiday"@[0]);
                reveal_strlit("refresh");
                assert("refresh"@[0] != "holiday"@[0]);
                reveal_strlit("fireplace");
                assert("fireplace"@.len() != "holiday"@.len());
                reveal_strlit("away");
                assert("away"@.len() != "holiday"@.len());
            },
            CurrentMode::CookerHood => {
                reveal_strlit("cooker-hood");
                reveal_strlit("auto");
                assert("auto"@.len() != "cooker-hood"@.len());
                reveal_strlit("manual");
                assert("manual"@.len() != "cooker-hood"@.len());
                reveal_strlit("crowded");
                assert("crowded"@.len() != "cooker-hood"@.len());
                reveal_strlit("refresh");
                assert("refresh"@.len() != "cooker-hood"@.len());
                reveal_strlit("fireplace");
                assert("fireplace"@.len() != "cooker-hood"@.len());
                reveal_strlit("away");
                assert("away"@.len() != "cooker-hood"@.len());
                reveal_strlit("holiday");
                assert("holiday"@.len() != "cooker-hood"@.len());
            },
            CurrentMode::VacuumCleaner => {
                reveal_strlit("vacuum-cleaner");
                reveal_strlit("auto");
                assert("auto"@.len() != "vacuum-cleaner"@.len());
                reveal_strlit("manual");
                assert("manual"@.len() != "vacuum-cleaner"@.len());
                reveal_strlit("crowded");
                assert("crowded"@.len() != "vacuum-cleaner"@.len());
                reveal_strlit("refresh");
                assert("refresh"@.len() != "vacuum-cleaner"@.len());
                reveal_strlit("fireplace");
                assert("fireplace"@.len() != "vacuum-cleaner"@.len());
                reveal_strlit("away");
                assert("away"@.len() != "vacuum-cleaner"@.len());
                reveal_strlit("holiday");
                assert("holiday"@.len() != "vacuum-cleaner"@.len());
                reveal_strlit("cooker-hood");
                assert("cooker-hood"@.len() != "vacuum-cleaner"@.len());
            },
            CurrentMode::ConfigurableDigitalInput1 => {
                reveal_strlit("configurable-digital-input1");
                reveal_strlit("auto");
                assert("auto"@.len() != "configurable-digital-input1"@.len());
                reveal_strlit("manual");
                assert("manual"@.len() != "configurable-digital-input1"@.len());
                reveal_strlit("crowded");
                assert("crowded"@.len() != "configurable-digital-input1"@.len());
                reveal_strlit("refresh");
                assert("refresh"@.len() != "configurable-digital-input1"@.len());
                reveal_strlit("fireplace");
                assert("fireplace"@.len() != "configurable-digital-input1"@.len());
                reveal_strlit("away");
                assert("away"@.len() != "configurable-digital-input1"@.len());
                reveal_strlit("holiday");
                assert("holiday"@.len() != "configurable-digital-input1"@.len());
                reveal_strlit("cooker-hood");
                assert("cooker-hood"@.len() != "configurable-digital-input1"@.len());
                reveal_strlit("vacuum-cleaner");
                assert("vacuum-cleaner"@.len() != "configurable-digital-input1"@.len());
            },
            CurrentMode::ConfigurableDigitalInput2 => {
                reveal_strlit("configurable-digital-input2");
                reveal_strlit("auto");
                assert("auto"@.len() != "configurable-digital-input2"@.len());
                reveal_strlit("manual");
                assert("manual"@.len() != "configurable-digital-input2"@.len());
                reveal_strlit("crowded");
                assert("crowded"@.len() != "configurable-digital-input2"@.len());
                reveal_strlit("refresh");
                assert("refresh"@.len() != "configurable-digital-input2"@.len());
                reveal_strlit("fireplace");
                assert("fireplace"@.len() != "configurable-digital-input2"@.len());
                reveal_strlit("away");
                assert("away"@.len() != "configurable-digital-input2"@.len());
                reveal_strlit("holiday");
                assert("holiday"@.len() != "configurable-digital-input2"@.len());
                reveal_strlit("cooker-hood");
                assert("cooker-hood"@.len() != "configurable-digital-input2"@.len());
                reveal_strlit("vacuum-cleaner");
                assert("vacuum-cleaner"@.len() != "configurable-digital-input2"@.len());
                reveal_strlit("configurable-digital-input1");
                assert("configurable-digital-input1"@[26] != "configurable-digital-input2"@[26]);
            },
            CurrentMode::ConfigurableDigitalInput3 => {
                reveal_strlit("configurable-digital-input3");
                reveal_strlit("auto");
                assert("auto"@.len() != "configurable-digital-input3"@.len());
                reveal_strlit("manual");
                assert("manual"@.len() != "configurable-digital-input3"@.len());
                reveal_strlit("crowded");
                assert("crowded"@.len() != "configurable-digital-input3"@.len());
                reveal_strlit("refresh");
                assert("refresh"@.len() != "configurable-digital-input3"@.len());
                reveal_strlit("fireplace");
                assert("fireplace"@.len() != "configurable-digital-input3"@.len());
                reveal_strlit("away");
                assert("away"@.len() != "configurable-digital-input3"@.len());
                reveal_strlit("holiday");
                assert("holiday"@.len() != "configurable-digital-input3"@.len());
                reveal_strlit("cooker-hood");
                assert("cooker-hood"@.len() != "configurable-digital-input3"@.len());
                reveal_strlit("vacuum-cleaner");
                assert("vacuum-cleaner"@.len() != "configurable-digital-input3"@.len());
                reveal_strlit("configurable-digital-input1");
                assert("configurable-digital-input1"@[26] != "configurable-digital-input3"@[26]);
                reveal_strlit("configurable-digital-input2");
                assert("configurable-digital-input2"@[26] != "configurable-digital-input3"@[26]);
            },
            CurrentMode::PressureGuard => {
                reveal_strlit("pressure-guard");
                reveal_strlit("auto");
                assert("auto"@.len() != "pressure-guard"@.len());
                reveal_strlit("manual");
                assert("manual"@.len() != "pressure-guard"@.len());
                reveal_strlit("crowded");
                assert("crowded"@.len() != "pressure-guard"@.len());
                reveal_strlit("refresh");
                assert("refresh"@.len() != "pressure-guard"@.len());
                reveal_strlit("fireplace");
                assert("fireplace"@.len() != "pressure-guard"@.len());
                reveal_strlit("away");
                assert("away"@.len() != "pressure-guard"@.len());
                reveal_strlit("holiday");
                assert("holiday"@.len() != "pressure-guard"@.len());
                reveal_strlit("cooker-hood");
                assert("cooker-hood"@.len() != "pressure-guard"@.len());
                reveal_strlit("vacuum-cleaner");
                assert("vacuum-cleaner"@[0] != "pressure-guard"@[0]);
                reveal_strlit("configurable-digital-input1");
                assert("configurable-digital-input1"@.len() != "pressure-guard"@.len());
                reveal_strlit("configurable-digital-input2");
                assert("configurable-digital-input2"@.len() != "pressure-guard"@.len());
                reveal_strlit("configurable-digital-input3");
                assert("configurable-digital-input3"@.len() != "pressure-guard"@.len());
            },
        }
    }

    /// The published name and the register word of every variant, in declaration order.
    pub fn name_word_pairs() -> (r: Vec<(&'static str, u16)>)
        ensures
            r@.len() == CurrentMode::all().len(),
            forall|k: int|
                0 <= k < r@.len() ==> (#[trigger] r@[k]).0@ == CurrentMode::all()[k].name_text() && r@[k].1
                    == CurrentMode::all()[k].word(),
    {
        let variants = CurrentMode::variants();
        let mut r: Vec<(&'static str, u16)> = Vec::new();
        let mut i: usize = 0;
        while i < variants.len()
            invariant
                variants@ == CurrentMode::all(),
                i <= variants@.len(),
                r@.len() == i,
                forall|k: int|
                    0 <= k < i ==> (#[trigger] r@[k]).0@ == CurrentMode::all()[k].name_text() && r@[k].1
                        == CurrentMode::all()[k].word(),
            decreases variants@.len() - i,
        {
            let v = variants[i];
            r.push((v.name(), v.to_modbus()));
            i = i + 1;
        }
        r
    }

    /// Every variant, in declaration order.
    pub open spec fn all() -> Seq<CurrentMode> {
        seq![CurrentMode::Auto, CurrentMode::Manual, CurrentMode::Crowded, CurrentMode::Refresh, CurrentMode::Fireplace, CurrentMode::Away, CurrentMode::Holiday, CurrentMode::CookerHood, CurrentMode::VacuumCleaner, CurrentMode::ConfigurableDigitalInput1, CurrentMode::ConfigurableDigitalInput2, CurrentMode::ConfigurableDigitalInput3, CurrentMode::PressureGuard]
    }

    /// Every variant, in declaration order.
    pub fn variants() -> (r: Vec<CurrentMode>)
        ensures
            r@ == CurrentMode::all(),
    {
        let mut r: Vec<CurrentMode> = Vec::new();
        r.push(CurrentMode::Auto);
        r.push(CurrentMode::Manual);
        r.push(CurrentMode::Crowded);
        r.push(CurrentMode::Refresh);
        r.push(CurrentMode::Fireplace);
        r.push(CurrentMode::Away);
        r.push(CurrentMode::Holiday);
        r.push(CurrentMode::CookerHood);
        r.push(CurrentMode::VacuumCleaner);
        r.push(CurrentMode::ConfigurableDigitalInput1);
        r.push(CurrentMode::ConfigurableDigitalInput2);
        r.push(CurrentMode::ConfigurableDigitalInput3);
        r.push(CurrentMode::PressureGuard);
        r
    }
}

/// A fan speed level.
#[derive(Clone, Copy, PartialEq, Eq, Debug, Structural)]
pub enum AirflowLevel {
    Off,
    Minimum,
    Low,
    Normal,
    High,
    Maximum,
}

impl AirflowLevel {
    /// The register word that stands for the variant.
    pub open spec fn word(self) -> u16 {
        match self {
            AirflowLevel::Off => 0,
            AirflowLevel::Minimum => 1,
            AirflowLevel::Low => 2,
            AirflowLevel::Normal => 3,
            AirflowLevel::High => 4,
            AirflowLevel::Maximum => 5,
        }
    }

    /// The variant that a register word stands for, if any.
    pub open spec fn of_word(word: u16) -> Option<AirflowLevel> {
        if word == 0 {
            Some(AirflowLevel::Off)
        } else if word == 1 {
            Some(AirflowLevel::Minimum)
        } else if word == 2 {
            Some(AirflowLevel::Low)
        } else if word == 3 {
            Some(AirflowLevel::Normal)
        } else if word == 4 {
            Some(AirflowLevel::High)
        } else if word == 5 {
            Some(AirflowLevel::Maximum)
        } else {
            None
        }
    }

    /// The variant's published name.
    pub open spec fn name_text(self) -> Seq<char> {
        match self {
            AirflowLevel::Off => "off"@,
            AirflowLevel::Minimum => "minimum"@,
            AirflowLevel::Low => "low"@,
            AirflowLevel::Normal => "normal"@,
            AirflowLevel::High => "high"@,
            AirflowLevel::Maximum => "maximum"@,
        }
    }

    /// The variant whose published name is `text`, if any.
    pub open spec fn named(text: Seq<char>) -> Option<AirflowLevel> {
        if text == "off"@ {
            Some(AirflowLevel::Off)
        } else if text == "minimum"@ {
            Some(AirflowLevel::Minimum)
        } else if text == "low"@ {
            Some(AirflowLevel::Low)
        } else if text == "normal"@ {
            Some(AirflowLevel::Normal)
        } else if text == "high"@ {
            Some(AirflowLevel::High)
        } else if text == "maximum"@ {
            Some(AirflowLevel::Maximum)
        } else {
            None
        }
    }

    /// The variant that a register word stands for, if any.
    pub fn from_repr(word: u16) -> (r: Option<AirflowLevel>)
        ensures
            r == AirflowLevel::of_word(word),
    {
        match word {
            0 => Some(AirflowLevel::Off),
            1 => Some(AirflowLevel::Minimum),
            2 => Some(AirflowLevel::Low),
            3 => Some(AirflowLevel::Normal),
            4 => Some(AirflowLevel::High),
            5 => Some(AirflowLevel::Maximum),
            _ => None,
        }
    }

    /// The variant that a register value stands for, if any.
    pub fn from_value(value: Value) -> (r: Option<AirflowLevel>)
        ensures
            r == AirflowLevel::of_word(word_of_value(value)),
    {
        AirflowLevel::from_repr(value.into_inner())
    }

    /// The register word that stands for the variant.
    pub fn to_modbus(&self) -> (r: u16)
        ensures
            r == self.word(),
    {
        match self {
            AirflowLevel::Off => 0,
            AirflowLevel::Minimum => 1,
            AirflowLevel::Low => 2,
            AirflowLevel::Normal => 3,
            AirflowLevel::High => 4,
            AirflowLevel::Maximum => 5,
        }
    }

    /// The variant's published name.
    pub fn name(&self) -> (r: &'static str)
        ensures
            r@ == self.name_text(),
    {
        match self {
            AirflowLevel::Off => "off",
            AirflowLevel::Minimum => "minimum",
            AirflowLevel::Low => "low",
            AirflowLevel::Normal => "normal",
            AirflowLevel::High => "high",
            AirflowLevel::Maximum => "maximum",
        }
    }

    /// The variant whose published name is `text`, if any.
    pub fn from_name(text: &str) -> (r: Option<AirflowLevel>)
        ensures
            r == AirflowLevel::named(text@),
    {
        if str_eq(text, "off") {
            return Some(AirflowLevel::Off);
        }
        if str_eq(text, "minimum") {
            return Some(AirflowLevel::Minimum);
        }
        if str_eq(text, "low") {
            return Some(AirflowLevel::Low);
        }
        if str_eq(text, "normal") {
            return Some(AirflowLevel::Normal);
        }
        if str_eq(text, "high") {
            return Some(AirflowLevel::High);
        }
        if str_eq(text, "maximum") {
            return Some(AirflowLevel::Maximum);
        }
        None
    }

    /// A variant's register word stands for the variant, and its published name names it.
    pub proof fn lemma_round_trip(self)
        ensures
            AirflowLevel::of_word(self.word()) == Some(self),
            AirflowLevel::named(self.name_text()) == Some(self),
    {
        match self {
            AirflowLevel::Off => {
                reveal_strlit("off");
            },
            AirflowLevel::Minimum => {
                reveal_strlit("minimum");
                reveal_strlit("off");
                assert("off"@.len() != "minimum"@.len());
            },
            AirflowLevel::Low => {
                reveal_strlit("low");
                reveal_strlit("off");
                assert("off"@[0] != "low"@[0]);
                reveal_strlit("minimum");
                assert("minimum"@.len() != "low"@.len());
            },
            AirflowLevel::Normal => {
                reveal_strlit("normal");
                reveal_strlit("off");
                assert("off"@.len() != "normal"@.len());
                reveal_strlit("minimum");
                assert("minimum"@.len() != "normal"@.len());
                reveal_strlit("low");
                assert("low"@.len() != "normal"@.len());
            },
            AirflowLevel::High => {
                reveal_strlit("high");
                reveal_strlit("off");
                assert("off"@.len() != "high"@.len());
                reveal_strlit("minimum");
                assert("minimum"@.len() != "high"@.len());
                reveal_strlit("low");
                assert("low"@.len() != "high"@.len());
                reveal_strlit("normal");
                assert("normal"@.len() != "high"@.len());
            },
            AirflowLevel::Maximum => {
                reveal_strlit("maximum");
                reveal_strlit("off");
                assert("off"@.len() != "maximum"@.len());
                reveal_strlit("minimum");
                assert("minimum"@[1] != "maximum"@[1]);
                reveal_strlit("low");
                assert("low"@.len() != "maximum"@.len());
                reveal_strlit("normal");
                assert("normal"@.len() != "maximum"@.len());
                reveal_strlit("high");
                assert("high"@.len() != "maximum"@.len());
            },
        }
    }

    /// The published name and the register word of every variant, in declaration order.
    pub fn name_word_pairs() -> (r: Vec<(&'static str, u16)>)
        ensures
            r@.len() == AirflowLevel::all().len(),
            forall|k: int|
                0 <= k < r@.len() ==> (#[trigger] r@[k]).0@ == AirflowLevel::all()[k].name_text() && r@[k].1
                    == AirflowLevel::all()[k].word(),
    {
        let variants = AirflowLevel::variants();
        let mut r: Vec<(&'static str, u16)> = Vec::new();
        let mut i: usize = 0;
        while i < variants.len()
            invariant
                variants@ == AirflowLevel::all(),
                i <= variants@.len(),
                r@.len() == i,
                forall|k: int|
                    0 <= k < i ==> (#[trigger] r@[k]).0@ == AirflowLevel::all()[k].name_text() && r@[k].1
                        == AirflowLevel::all()[k].word(),
            decreases variants@.len() - i,
        {
            let v = variants[i];
            r.push((v.name(), v.to_modbus()));
            i = i + 1;
        }
        r
    }

    /// Every variant, in declaration order.
    pub open spec fn all() -> Seq<AirflowLevel> {
        seq![AirflowLevel::Off, AirflowLevel::Minimum, AirflowLevel::Low, AirflowLevel::Normal, AirflowLevel::High, AirflowLevel::Maximum]
    }

    /// Every variant, in declaration order.
    pub fn variants() -> (r: Vec<AirflowLevel>)
        ensures
            r@ == AirflowLevel::all(),
    {
        let mut r: Vec<AirflowLevel> = Vec::new();
        r.push(AirflowLevel::Off);
        r.push(AirflowLevel::Minimum);
        r.push(AirflowLevel::Low);
        r.push(AirflowLevel::Normal);
        r.push(AirflowLevel::High);
        r.push(AirflowLevel::Maximum);
        r
    }
}

/// A fan speed level of the weekly schedule.
#[derive(Clone, Copy, PartialEq, Eq, Debug, Structural)]
pub enum WeeklyScheduleLevel {
    Off,
    Minimum,
    Low,
    Normal,
    High,
    DemandControl,
}

impl WeeklyScheduleLevel {
    /// The register word that stands for the variant.
    pub open spec fn word(self) -> u16 {
        match self {
            WeeklyScheduleLevel::Off => 0,
            WeeklyScheduleLevel::Minimum => 1,
            WeeklyScheduleLevel::Low => 2,
            WeeklyScheduleLevel::Normal => 3,
            WeeklyScheduleLevel::High => 4,
            WeeklyScheduleLevel::DemandControl => 5,
        }
    }

    /// The variant that a register word stands for, if any.
    pub open spec fn of_word(word: u16) -> Option<WeeklyScheduleLevel> {
        if word == 0 {
            Some(WeeklyScheduleLevel::Off)
        } else if word == 1 {
            Some(WeeklyScheduleLevel::Minimum)
        } else if word == 2 {
            Some(WeeklyScheduleLevel::Low)
        } else if word == 3 {
            Some(WeeklyScheduleLevel::Normal)
        } else if word == 4 {
            Some(WeeklyScheduleLevel::High)
        } else if word == 5 {
            Some(WeeklyScheduleLevel::DemandControl)
        } else {
            None
        }
    }

    /// The variant's published name.
    pub open spec fn name_text(self) -> Seq<char> {
        match self {
            WeeklyScheduleLevel::Off => "off"@,
            WeeklyScheduleLevel::Minimum => "minimum"@,
            WeeklyScheduleLevel::Low => "low"@,
            WeeklyScheduleLevel::Normal => "normal"@,
            WeeklyScheduleLevel::High => "high"@,
            WeeklyScheduleLevel::DemandControl => "demand-control"@,
        }
    }

    /// The variant whose published name is `text`, if any.
    pub open spec fn named(text: Seq<char>) -> Option<WeeklyScheduleLevel> {
        if text == "off"@ {
            Some(WeeklyScheduleLevel::Off)
        } else if text == "minimum"@ {
            Some(WeeklyScheduleLevel::Minimum)
        } else if text == "low"@ {
            Some(WeeklyScheduleLevel::Low)
        } else if text == "normal"@ {
            Some(WeeklyScheduleLevel::Normal)
        } else if text == "high"@ {
            Some(WeeklyScheduleLevel::High)
        } else if text == "demand-control"@ {
            Some(WeeklyScheduleLevel::DemandControl)
        } else {
            None
        }
    }

    /// The variant that a register word stands for, if any.
    pub fn from_repr(word: u16) -> (r: Option<WeeklyScheduleLevel>)
        ensures
            r == WeeklyScheduleLevel::of_word(word),
    {
        match word {
            0 => Some(WeeklyScheduleLevel::Off),
            1 => Some(WeeklyScheduleLevel::Minimum),
            2 => Some(WeeklyScheduleLevel::Low),
            3 => Some(WeeklyScheduleLevel::Normal),
            4 => Some(WeeklyScheduleLevel::High),
            5 => Some(WeeklyScheduleLevel::DemandControl),
            _ => None,
        }
    }

    /// The variant that a register value stands for, if any.
    pub fn from_value(value: Value) -> (r: Option<WeeklyScheduleLevel>)
        ensures
            r == WeeklyScheduleLevel::of_word(word_of_value(value)),
    {
        WeeklyScheduleLevel::from_repr(value.into_inner())
    }

    /// The register word that stands for the variant.
    pub fn to_modbus(&self) -> (r: u16)
        ensures
            r == self.word(),
    {
        match self {
            WeeklyScheduleLevel::Off => 0,
            WeeklyScheduleLevel::Minimum => 1,
            WeeklyScheduleLevel::Low => 2,
            WeeklyScheduleLevel::Normal => 3,
            WeeklyScheduleLevel::High => 4,
            WeeklyScheduleLevel::DemandControl => 5,
        }
    }

    /// The variant's published name.
    pub fn name(&self) -> (r: &'static str)
        ensures
            r@ == self.name_text(),
    {
        match self {
            WeeklyScheduleLevel::Off => "off",
            WeeklyScheduleLevel::Minimum => "minimum",
            WeeklyScheduleLevel::Low => "low",
            WeeklyScheduleLevel::Normal => "normal",
            WeeklyScheduleLevel::High => "high",
            WeeklyScheduleLevel::DemandControl => "demand-control",
        }
    }

    /// The variant whose published name is `text`, if any.
    pub fn from_name(text: &str) -> (r: Option<WeeklyScheduleLevel>)
        ensures
            r == WeeklyScheduleLevel::named(text@),
    {
        if str_eq(text, "off") {
            return Some(WeeklyScheduleLevel::Off);
        }
        if str_eq(text, "minimum") {
            return Some(WeeklyScheduleLevel::Minimum);
        }
        if str_eq(text, "low") {
            return Some(WeeklyScheduleLevel::Low);
        }
        if str_eq(text, "normal") {
            return Some(WeeklyScheduleLevel::Normal);
        }
        if str_eq(text, "high") {
            return Some(WeeklyScheduleLevel::High);
        }
        if str_eq(text, "demand-control") {
            return Some(WeeklyScheduleLevel::DemandControl);
        }
        None
    }

    /// A variant's register word stands for the variant, and its published name names it.
    pub proof fn lemma_round_trip(self)
        ensures
            WeeklyScheduleLevel::of_word(self.word()) == Some(self),
            WeeklyScheduleLevel::named(self.name_text()) == Some(self),
    {
        match self {
            WeeklyScheduleLevel::Off => {
                reveal_strlit("off");
            },
            WeeklyScheduleLevel::Minimum => {
                reveal_strlit("minimum");
                reveal_strlit("off");
                assert("off"@.len() != "minimum"@.len());
            },
            WeeklyScheduleLevel::Low => {
                reveal_strlit("low");
                reveal_strlit("off");
                assert("off"@[0] != "low"@[0]);
                reveal_strlit("minimum");
                assert("minimum"@.len() != "low"@.len());
            },
            WeeklyScheduleLevel::Normal => {
                reveal_strlit("normal");
                reveal_strlit("off");
                assert("off"@.len() != "normal"@.len());
                reveal_strlit("minimum");
                assert("minimum"@.len() != "normal"@.len());
                reveal_strlit("low");
                assert("low"@.len() != "normal"@.len());
            },
            WeeklyScheduleLevel::High => {
                reveal_strlit("high");
                reveal_strlit("off");
                assert("off"@.len() != "high"@.len());
                reveal_strlit("minimum");
                assert("minimum"@.len() != "high"@.len());
                reveal_strlit("low");
                assert("low"@.len() != "high"@.len());
                reveal_strlit("normal");
                assert("normal"@.len() != "high"@.len());
            },
            WeeklyScheduleLevel::DemandControl => {
                reveal_strlit("demand-control");
                reveal_strlit("off");
                assert("off"@.len() != "demand-control"@.len());
                reveal_strlit("minimum");
                assert("minimum"@.len() != "demand-control"@.len());
                reveal_strlit("low");
                assert("low"@.len() != "demand-control"@.len());
                reveal_strlit("normal");
                assert("normal"@.len() != "demand-control"@.len());
                reveal_strlit("high");
                assert("high"@.len() != "demand-control"@.len());
            },
        }
    }

    /// The published name and the register word of every variant, in declaration order.
    pub fn name_word_pairs() -> (r: Vec<(&'static str, u16)>)
        ensures
            r@.len() == WeeklyScheduleLevel::all().len(),
            forall|k: int|
                0 <= k < r@.len() ==> (#[trigger] r@[k]).0@ == WeeklyScheduleLevel::all()[k].name_text() && r@[k].1
                    == WeeklyScheduleLevel::all()[k].word(),
    {
        let variants = WeeklyScheduleLevel::variants();
        let mut r: Vec<(&'static str, u16)> = Vec::new();
        let mut i: usize = 0;
        while i < variants.len()
            invariant
                variants@ == WeeklyScheduleLevel::all(),
                i <= variants@.len(),
                r@.len() == i,
                forall|k: int|
                    0 <= k < i ==> (#[trigger] r@[k]).0@ == WeeklyScheduleLevel::all()[k].name_text() && r@[k].1
                        == WeeklyScheduleLevel::all()[k].word(),
            decreases variants@.len() - i,
        {
            let v = variants[i];
            r.push((v.name(), v.to_modbus()));
            i = i + 1;
        }
        r
    }

    /// Every variant, in declaration order.
    pub open spec fn all() -> Seq<WeeklyScheduleLevel> {
        seq![WeeklyScheduleLevel::Off, WeeklyScheduleLevel::Minimum, WeeklyScheduleLevel::Low, WeeklyScheduleLevel::Normal, WeeklyScheduleLevel::High, WeeklyScheduleLevel::DemandControl]
    }

    /// Every variant, in declaration order.
    pub fn variants() -> (r: Vec<WeeklyScheduleLevel>)
        ensures
            r@ == WeeklyScheduleLevel::all(),
    {
        let mut r: Vec<WeeklyScheduleLevel> = Vec::new();
        r.push(WeeklyScheduleLevel::Off);
        r.push(WeeklyScheduleLevel::Minimum);
        r.push(WeeklyScheduleLevel::Low);
        r.push(WeeklyScheduleLevel::Normal);
        r.push(WeeklyScheduleLevel::High);
        r.push(WeeklyScheduleLevel::DemandControl);
        r
    }
}

/// How the fans are regulated.
#[derive(Clone, Copy, PartialEq, Eq, Debug, Structural)]
pub enum RegulationType {
    Manual,
    RPM,
    ConstantPressure,
    ConstantFlow,
    External,
}

impl RegulationType {
    /// The register word that stands for the variant.
    pub open spec fn word(self) -> u16 {
        match self {
            RegulationType::Manual => 0,
            RegulationType::RPM => 1,
            RegulationType::ConstantPressure => 2,
            RegulationType::ConstantFlow => 3,
            RegulationType::External => 4,
        }
    }

    /// The variant that a register word stands for, if any.
    pub open spec fn of_word(word: u16) -> Option<RegulationType> {
        if word == 0 {
            Some(RegulationType::Manual)
        } else if word == 1 {
            Some(RegulationType::RPM)
        } else if word == 2 {
            Some(RegulationType::ConstantPressure)
        } else if word == 3 {
            Some(RegulationType::ConstantFlow)
        } else if word == 4 {
            Some(RegulationType::External)
        } else {
            None
        }
    }

    /// The variant's published name.
    pub open spec fn name_text(self) -> Seq<char> {
        match self {
            RegulationType::Manual => "manual"@,
            RegulationType::RPM => "rpm"@,
            RegulationType::ConstantPressure => "constant-pressure"@,
            RegulationType::ConstantFlow => "constant-flow"@,
            RegulationType::External => "external"@,
        }
    }

    /// The variant whose published name is `text`, if any.
    pub open spec fn named(text: Seq<char>) -> Option<RegulationType> {
        if text == "manual"@ {
            Some(RegulationType::Manual)
        } else if text == "rpm"@ {
            Some(RegulationType::RPM)
        } else if text == "constant-pressure"@ {
            Some(RegulationType::ConstantPressure)
        } else if text == "constant-flow"@ {
            Some(RegulationType::ConstantFlow)
        } else if text == "external"@ {
            Some(RegulationType::External)
        } else {
            None
        }
    }

    /// The variant that a register word stands for, if any.
    pub fn from_repr(word: u16) -> (r: Option<RegulationType>)
        ensures
            r == RegulationType::of_word(word),
    {
        match word {
            0 => Some(RegulationType::Manual),
            1 => Some(RegulationType::RPM),
            2 => Some(RegulationType::ConstantPressure),
            3 => Some(RegulationType::ConstantFlow),
            4 => Some(RegulationType::External),
            _ => None,
        }
    }

    /// The variant that a register value stands for, if any.
    pub fn from_value(value: Value) -> (r: Option<RegulationType>)
        ensures
            r == RegulationType::of_word(word_of_value(value)),
    {
        RegulationType::from_repr(value.into_inner())
    }

    /// The register word that stands for the variant.
    pub fn to_modbus(&self) -> (r: u16)
        ensures
            r == self.word(),
    {
        match self {
            RegulationType::Manual => 0,
            RegulationType::RPM => 1,
            RegulationType::ConstantPressure => 2,
            RegulationType::ConstantFlow => 3,
            RegulationType::External => 4,
        }
    }

    /// The variant's published name.
    pub fn name(&self) -> (r: &'static str)
        ensures
            r@ == self.name_text(),
    {
        match self {
            RegulationType::Manual => "manual",
            RegulationType::RPM => "rpm",
            RegulationType::ConstantPressure => "constant-pressure",
            RegulationType::ConstantFlow => "constant-flow",
            RegulationType::External => "external",
        }
    }

    /// The variant whose published name is `text`, if any.
    pub fn from_name(text: &str) -> (r: Option<RegulationType>)
        ensures
            r == RegulationType::named(text@),
    {
        if str_eq(text, "manual") {
            return Some(RegulationType::Manual);
        }
        if str_eq(text, "rpm") {
            return Some(RegulationType::RPM);
        }
        if str_eq(text, "constant-pressure") {
            return Some(RegulationType::ConstantPressure);
        }
        if str_eq(text, "constant-flow") {
            return Some(RegulationType::ConstantFlow);
        }
        if str_eq(text, "external") {
            return Some(RegulationType::External);
        }
        None
    }

    /// A variant's register word stands for the variant, and its published name names it.
    pub proof fn lemma_round_trip(self)
        ensures
            RegulationType::of_word(self.word()) == Some(self),
            RegulationType::named(self.name_text()) == Some(self),
    {
        match self {
            RegulationType::Manual => {
                reveal_strlit("manual");
            },
            RegulationType::RPM => {
                reveal_strlit("rpm");
                reveal_strlit("manual");
                assert("manual"@.len() != "rpm"@.len());
            },
            RegulationType::ConstantPressure => {
                reveal_strlit("constant-pressure");
                reveal_strlit("manual");
                assert("manual"@.len() != "constant-pressure"@.len());
                reveal_strlit("rpm");
                assert("rpm"@.len() != "constant-pressure"@.len());
            },
            RegulationType::ConstantFlow => {
                reveal_strlit("constant-flow");
                reveal_strlit("manual");
                assert("manual"@.len() != "constant-flow"@.len());
                reveal_strlit("rpm");
                assert("rpm"@.len() != "constant-flow"@.len());
                reveal_strlit("constant-pressure");
                assert("constant-pressure"@.len() != "constant-flow"@.len());
            },
            RegulationType::External => {
                reveal_strlit("external");
                reveal_strlit("manual");
                assert("manual"@.len() != "external"@.len());
                reveal_strlit("rpm");
                assert("rpm"@.len() != "external"@.len());
                reveal_strlit("constant-pressure");
                assert("constant-pressure"@.len() != "external"@.len());
                reveal_strlit("constant-flow");
                assert("constant-flow"@.len() != "external"@.len());
            },
        }
    }

    /// The published name and the register word of every variant, in declaration order.
    pub fn name_word_pairs() -> (r: Vec<(&'static str, u16)>)
        ensures
            r@.len() == RegulationType::all().len(),
            forall|k: int|
                0 <= k < r@.len() ==> (#[trigger] r@[k]).0@ == RegulationType::all()[k].name_text() && r@[k].1
                    == RegulationType::all()[k].word(),
    {
        let variants = RegulationType::variants();
        let mut r: Vec<(&'static str, u16)> = Vec::new();
        let mut i: usize = 0;
        while i < variants.len()
            invariant
                variants@ == RegulationType::all(),
                i <= variants@.len(),
                r@.len() == i,
                forall|k: int|
                    0 <= k < i ==> (#[trigger] r@[k]).0@ == RegulationType::all()[k].name_text() && r@[k].1
                        == RegulationType::all()[k].word(),
            decreases variants@.len() - i,
        {
            let v = variants[i];
            r.push((v.name(), v.to_modbus()));
            i = i + 1;
        }
        r
    }

    /// Every variant, in declaration order.
    pub open spec fn all() -> Seq<RegulationType> {
        seq![RegulationType::Manual, RegulationType::RPM, RegulationType::ConstantPressure, RegulationType::ConstantFlow, RegulationType::External]
    }

    /// Every variant, in declaration order.
    pub fn variants() -> (r: Vec<RegulationType>)
        ensures
            r@ == RegulationType::all(),
    {
        let mut r: Vec<RegulationType> = Vec::new();
        r.push(RegulationType::Manual);
        r.push(RegulationType::RPM);
        r.push(RegulationType::ConstantPressure);
        r.push(RegulationType::ConstantFlow);
        r.push(RegulationType::External);
        r
    }
}

/// The season the device works for.
#[derive(Clone, Copy, PartialEq, Eq, Debug, Structural)]
pub enum Season {
    Summer,
    Winter,
}

impl Season {
    /// The register word that stands for the variant.
    pub open spec fn word(self) -> u16 {
        match self {
            Season::Summer => 0,
            Season::Winter => 1,
        }
    }

    /// The variant that a register word stands for, if any.
    pub open spec fn of_word(word: u16) -> Option<Season> {
        if word == 0 {
            Some(Season::Summer)
        } else if word == 1 {
            Some(Season::Winter)
        } else {
            None
        }
    }

    /// The variant's published name.
    pub open spec fn name_text(self) -> Seq<char> {
        match self {
            Season::Summer => "summer"@,
            Season::Winter => "winter"@,
        }
    }

    /// The variant whose published name is `text`, if any.
    pub open spec fn named(text: Seq<char>) -> Option<Season> {
        if text == "summer"@ {
            Some(Season::Summer)
        } else if text == "winter"@ {
            Some(Season::Winter)
        } else {
            None
        }
    }

    /// The variant that a register word stands for, if any.
    pub fn from_repr(word: u16) -> (r: Option<Season>)
        ensures
            r == Season::of_word(word),
    {
        match word {
            0 => Some(Season::Summer),
            1 => Some(Season::Winter),
            _ => None,
        }
    }

    /// The variant that a register value stands for, if any.
    pub fn from_value(value: Value) -> (r: Option<Season>)
        ensures
            r == Season::of_word(word_of_value(value)),
    {
        Season::from_repr(value.into_inner())
    }

    /// The register word that stands for the variant.
    pub fn to_modbus(&self) -> (r: u16)
        ensures
            r == self.word(),
    {
        match self {
            Season::Summer => 0,
            Season::Winter => 1,
        }
    }

    /// The variant's published name.
    pub fn name(&self) -> (r: &'static str)
        ensures
            r@ == self.name_text(),
    {
        match self {
            Season::Summer => "summer",
            Season::Winter => "winter",
        }
    }

    /// The variant whose published name is `text`, if any.
    pub fn from_name(text: &str) -> (r: Option<Season>)
        ensures
            r == Season::named(text@),
    {
        if str_eq(text, "summer") {
            return Some(Season::Summer);
        }
        if str_eq(text, "winter") {
            return Some(Season::Winter);
        }
        None
    }

    /// A variant's register word stands for the variant, and its published name names it.
    pub proof fn lemma_round_trip(self)
        ensures
            Season::of_word(self.word()) == Some(self),
            Season::named(self.name_text()) == Some(self),
    {
        match self {
            Season::Summer => {
                reveal_strlit("summer");
            },
            Season::Winter => {
                reveal_strlit("winter");
                reveal_strlit("summer");
                assert("summer"@[0] != "winter"@[0]);
            },
        }
    }

    /// The published name and the register word of every variant, in declaration order.
    pub fn name_word_pairs() -> (r: Vec<(&'static str, u16)>)
        ensures
            r@.len() == Season::all().len(),
            forall|k: int|
                0 <= k < r@.len() ==> (#[trigger] r@[k]).0@ == Season::all()[k].name_text() && r@[k].1
                    == Season::all()[k].word(),
    {
        let variants = Season::variants();
        let mut r: Vec<(&'static str, u16)> = Vec::new();
        let mut i: usize = 0;
        while i < variants.len()
            invariant
                variants@ == Season::all(),
                i <= variants@.len(),
                r@.len() == i,
                forall|k: int|
                    0 <= k < i ==> (#[trigger] r@[k]).0@ == Season::all()[k].name_text() && r@[k].1
                        == Season::all()[k].word(),
            decreases variants@.len() - i,
        {
            let v = variants[i];
            r.push((v.name(), v.to_modbus()));
            i = i + 1;
        }
        r
    }

    /// Every variant, in declaration order.
    pub open spec fn all() -> Seq<Season> {
        seq![Season::Summer, Season::Winter]
    }

    /// Every variant, in declaration order.
    pub fn variants() -> (r: Vec<Season>)
        ensures
            r@ == Season::all(),
    {
        let mut r: Vec<Season> = Vec::new();
        r.push(Season::Summer);
        r.push(Season::Winter);
        r
    }
}

/// The indoor air quality level.
#[derive(Clone, Copy, PartialEq, Eq, Debug, Structural)]
pub enum IaqLevel {
    Economic,
    Good,
    Improving,
}

impl IaqLevel {
    /// The register word that stands for the variant.
    pub open spec fn word(self) -> u16 {
        match self {
            IaqLevel::Economic => 0,
            IaqLevel::Good => 1,
            IaqLevel::Improving => 2,
        }
    }

    /// The variant that a register word stands for, if any.
    pub open spec fn of_word(word: u16) -> Option<IaqLevel> {
        if word == 0 {
            Some(IaqLevel::Economic)
        } else if word == 1 {
            Some(IaqLevel::Good)
        } else if word == 2 {
            Some(IaqLevel::Improving)
        } else {
            None
        }
    }

    /// The variant's published name.
    pub open spec fn name_text(self) -> Seq<char> {
        match self {
            IaqLevel::Economic => "economic"@,
            IaqLevel::Good => "good"@,
            IaqLevel::Improving => "improving"@,
        }
    }

    /// The variant whose published name is `text`, if any.
    pub open spec fn named(text: Seq<char>) -> Option<IaqLevel> {
        if text == "economic"@ {
            Some(IaqLevel::Economic)
        } else if text == "good"@ {
            Some(IaqLevel::Good)
        } else if text == "improving"@ {
            Some(IaqLevel::Improving)
        } else {
            None
        }
    }

    /// The variant that a register word stands for, if any.
    pub fn from_repr(word: u16) -> (r: Option<IaqLevel>)
        ensures
            r == IaqLevel::of_word(word),
    {
        match word {
            0 => Some(IaqLevel::Economic),
            1 => Some(IaqLevel::Good),
            2 => Some(IaqLevel::Improving),
            _ => None,
        }
    }

    /// The variant that a register value stands for, if any.
    pub fn from_value(value: Value) -> (r: Option<IaqLevel>)
        ensures
            r == IaqLevel::of_word(word_of_value(value)),
    {
        IaqLevel::from_repr(value.into_inner())
    }

    /// The register word that stands for the variant.
    pub fn to_modbus(&self) -> (r: u16)
        ensures
            r == self.word(),
    {
        match self {
            IaqLevel::Economic => 0,
            IaqLevel::Good => 1,
            IaqLevel::Improving => 2,
        }
    }

    /// The variant's published name.
    pub fn name(&self) -> (r: &'static str)
        ensures
            r@ == self.name_text(),
    {
        match self {
            IaqLevel::Economic => "economic",
            IaqLevel::Good => "good",
            IaqLevel::Improving => "improving",
        }
    }

    /// The variant whose published name is `text`, if any.
    pub fn from_name(text: &str) -> (r: Option<IaqLevel>)
        ensures
            r == IaqLevel::named(text@),
    {
        if str_eq(text, "economic") {
            return Some(IaqLevel::Economic);
        }
        if str_eq(text, "good") {
            return Some(IaqLevel::Good);
        }
        if str_eq(text, "improving") {
            return Some(IaqLevel::Improving);
        }
        None
    }

    /// A variant's register word stands for the variant, and its published name names it.
    pub proof fn lemma_round_trip(self)
        ensures
            IaqLevel::of_word(self.word()) == Some(self),
            IaqLevel::named(self.name_text()) == Some(self),
    {
        match self {
            IaqLevel::Economic => {
                reveal_strlit("economic");
            },
            IaqLevel::Good => {
                reveal_strlit("good");
                reveal_strlit("economic");
                assert("economic"@.len() != "good"@.len());
            },
            IaqLevel::Improving => {
                reveal_strlit("improving");
                reveal_strlit("economic");
                assert("economic"@.len() != "improving"@.len());
                reveal_strlit("good");
                assert("good"@.len() != "improving"@.len());
            },
        }
    }

    /// The published name and the register word of every variant, in declaration order.
    pub fn name_word_pairs() -> (r: Vec<(&'static str, u16)>)
        ensures
            r@.len() == IaqLevel::all().len(),
            forall|k: int|
                0 <= k < r@.len() ==> (#[trigger] r@[k]).0@ == IaqLevel::all()[k].name_text() && r@[k].1
                    == IaqLevel::all()[k].word(),
    {
        let variants = IaqLevel::variants();
        let mut r: Vec<(&'static str, u16)> = Vec::new();
        let mut i: usize = 0;
        while i < variants.len()
            invariant
                variants@ == IaqLevel::all(),
                i <= variants@.len(),
                r@.len() == i,
                forall|k: int|
                    0 <= k < i ==> (#[trigger] r@[k]).0@ == IaqLevel::all()[k].name_text() && r@[k].1
                        == IaqLevel::all()[k].word(),
            decreases variants@.len() - i,
        {
            let v = variants[i];
            r.push((v.name(), v.to_modbus()));
            i = i + 1;
        }
        r
    }

    /// Every variant, in declaration order.
    pub open spec fn all() -> Seq<IaqLevel> {
        seq![IaqLevel::Economic, IaqLevel::Good, IaqLevel::Improving]
    }

    /// Every variant, in declaration order.
    pub fn variants() -> (r: Vec<IaqLevel>)
        ensures
            r@ == IaqLevel::all(),
    {
        let mut r: Vec<IaqLevel> = Vec::new();
        r.push(IaqLevel::Economic);
        r.push(IaqLevel::Good);
        r.push(IaqLevel::Improving);
        r
    }
}

} // verus!
