//! What a Homie property is made of: the kind of value it publishes and the registers it is
//! read from.
use crate::register_table::{table_name, REGISTER_COUNT};
use crate::registers::RegisterIndex;
use vstd::prelude::*;

verus! {

/// The kind of value a property publishes.
#[derive(Clone, Copy, PartialEq, Eq, Debug, Structural)]
pub enum ValueKind {
    Boolean,
    Uint,
    UintPercent,
    Celsius,
    SpecificHumidity,
    StopDelay,
    ReplacementPeriod,
    CooldownDuration,
    RemainingTime,
    Clock,
    Uptime,
    Time,
    Alarm,
    AlarmOutput,
    Weekday,
    CompensationType,
    DigitalInputConnection,
    DigitalInputPolarity,
    ControlMode,
    CurrentMode,
    AirflowLevel,
    WeeklyScheduleLevel,
    RegulationType,
    Season,
    IaqLevel,
    SynchronizeClock,
    Replace,
}

/// Where a property's value comes from: one register that it mirrors, a few registers whose
/// values it combines, or nothing, for an action.
#[derive(Clone, Copy)]
pub enum PropertySource {
    Register(&'static str),
    Aggregate1(&'static str),
    Aggregate2(&'static str, &'static str),
    Aggregate4(&'static str, &'static str, &'static str, &'static str),
    Aggregate6(
        &'static str,
        &'static str,
        &'static str,
        &'static str,
        &'static str,
        &'static str,
    ),
    Action,
}

/// A property of a node: its Homie id, the kind of value, and its source.
#[derive(Clone, Copy)]
pub struct PropertyEntry {
    pub prop_id: &'static str,
    pub value: ValueKind,
    pub source: PropertySource,
}

/// `i` is the first register of the table called `name`.
pub open spec fn first_named(name: Seq<char>, i: RegisterIndex) -> bool {
    &&& 0 <= i.index() < REGISTER_COUNT
    &&& table_name(i.index())@ == name
    &&& forall|j: int| 0 <= j < i.index() ==> table_name(j)@ != name
}

/// No register of the table is called `name`.
pub open spec fn unknown_name(name: Seq<char>) -> bool {
    forall|j: int| 0 <= j < REGISTER_COUNT ==> table_name(j)@ != name
}

impl PropertySource {
    /// The names of the registers, in order.
    pub open spec fn names_spec(self) -> Seq<&'static str> {
        match self {
            PropertySource::Register(a) => seq![a],
            PropertySource::Aggregate1(a) => seq![a],
            PropertySource::Aggregate2(a, b) => seq![a, b],
            PropertySource::Aggregate4(a, b, c, d) => seq![a, b, c, d],
            PropertySource::Aggregate6(a, b, c, d, e, f) => seq![a, b, c, d, e, f],
            PropertySource::Action => seq![],
        }
    }

    /// The names of the registers, in order.
    pub fn names(&self) -> (r: Vec<&'static str>)
        ensures
            r@ == self.names_spec(),
    {
        let mut r: Vec<&'static str> = Vec::new();
        match *self {
            PropertySource::Register(a) => {
                r.push(a);
            },
            PropertySource::Aggregate1(a) => {
                r.push(a);
            },
            PropertySource::Aggregate2(a, b) => {
                r.push(a);
                r.push(b);
            },
            PropertySource::Aggregate4(a, b, c, d) => {
                r.push(a);
                r.push(b);
                r.push(c);
                r.push(d);
            },
            PropertySource::Aggregate6(a, b, c, d, e, f) => {
                r.push(a);
                r.push(b);
                r.push(c);
                r.push(d);
                r.push(e);
                r.push(f);
            },
            PropertySource::Action => {},
        }
        assert(r@ =~= self.names_spec());
        r
    }

    /// The registers, each the first one of the table with its name; `None` when a name is not
    /// in the table.
    pub fn registers(&self) -> (r: Option<Vec<RegisterIndex>>)
        ensures
            r matches Some(v) ==> v@.len() == self.names_spec().len() && forall|k: int|
                0 <= k < v@.len() ==> first_named(self.names_spec()[k]@, #[trigger] v@[k]),
            r is None ==> exists|k: int|
                0 <= k < self.names_spec().len() && unknown_name(#[trigger] self.names_spec()[k]@),
    {
        let names = self.names();
        let mut r: Vec<RegisterIndex> = Vec::new();
        let mut k: usize = 0;
        while k < names.len()
            invariant
                names@ == self.names_spec(),
                k <= names@.len(),
                r@.len() == k,
                forall|m: int| 0 <= m < k ==> first_named(names@[m]@, #[trigger] r@[m]),
            decreases names@.len() - k,
        {
            match RegisterIndex::from_name(names[k]) {
                Some(i) => {
                    r.push(i);
                },
                None => {
                    assert(unknown_name(names@[k as int]@));
                    return None;
                },
            }
            k = k + 1;
        }
        Some(r)
    }
}

} // verus!
