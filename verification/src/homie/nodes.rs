//! The Homie nodes of the device and the properties each of them publishes.
use crate::homie::property::{PropertyEntry, PropertySource, ValueKind};
use vstd::prelude::*;

verus! {

/// The `alarm` node: device alarm management.
pub struct AlarmNode {}

impl AlarmNode {
    /// The number of properties of the node.
    pub const PROPERTY_COUNT: usize = 33;

    /// The node.
    pub fn new() -> (r: Self)
        ensures
            r == (AlarmNode {}),
    {
        AlarmNode {}
    }

    /// The node's Homie id.
    pub fn node_id(&self) -> (r: &'static str)
        ensures
            r@ == "alarm"@,
    {
        "alarm"
    }

    /// The node's human-readable name.
    pub fn name(&self) -> (r: &'static str)
        ensures
            r@ == "device alarm management"@,
    {
        "device alarm management"
    }

    /// Property `i` of the node.
    pub open spec fn property_spec(i: int) -> PropertyEntry {
        if i == 0 {
            PropertyEntry { prop_id: "any", value: ValueKind::AlarmOutput, source: PropertySource::Register("OUTPUT_ALARM") }
        } else if i == 1 {
            PropertyEntry { prop_id: "supply-air-fan-control", value: ValueKind::Alarm, source: PropertySource::Aggregate1("ALARM_SAF_CTRL_ALARM") }
        } else if i == 2 {
            PropertyEntry { prop_id: "extract-air-fan-control", value: ValueKind::Alarm, source: PropertySource::Aggregate1("ALARM_EAF_CTRL_ALARM") }
        } else if i == 3 {
            PropertyEntry { prop_id: "frost-protection", value: ValueKind::Alarm, source: PropertySource::Aggregate1("ALARM_FROST_PROT_ALARM") }
        } else if i == 4 {
            PropertyEntry { prop_id: "defrosting", value: ValueKind::Alarm, source: PropertySource::Aggregate1("ALARM_DEFROSTING_ALARM") }
        } else if i == 5 {
            PropertyEntry { prop_id: "supply-air-fan-rpm", value: ValueKind::Alarm, source: PropertySource::Aggregate1("ALARM_SAF_RPM_ALARM") }
        } else if i == 6 {
            PropertyEntry { prop_id: "extract-air-fan-rpm", value: ValueKind::Alarm, source: PropertySource::Aggregate1("ALARM_EAF_RPM_ALARM") }
        } else if i == 7 {
            PropertyEntry { prop_id: "frost-protection-sensor", value: ValueKind::Alarm, source: PropertySource::Aggregate1("ALARM_FPT_ALARM") }
        } else if i == 8 {
            PropertyEntry { prop_id: "outdoor-air-temperature", value: ValueKind::Alarm, source: PropertySource::Aggregate1("ALARM_OAT_ALARM") }
        } else if i == 9 {
            PropertyEntry { prop_id: "supply-air-temperature", value: ValueKind::Alarm, source: PropertySource::Aggregate1("ALARM_SAT_ALARM") }
        } else if i == 10 {
            PropertyEntry { prop_id: "room-air-temperature", value: ValueKind::Alarm, source: PropertySource::Aggregate1("ALARM_RAT_ALARM") }
        } else if i == 11 {
            PropertyEntry { prop_id: "extract-air-temperature", value: ValueKind::Alarm, source: PropertySource::Aggregate1("ALARM_EAT_ALARM") }
        } else if i == 12 {
            PropertyEntry { prop_id: "extra-controller-temperature", value: ValueKind::Alarm, source: PropertySource::Aggregate1("ALARM_ECT_ALARM") }
        } else if i == 13 {
            PropertyEntry { prop_id: "eft", value: ValueKind::Alarm, source: PropertySource::Aggregate1("ALARM_EFT_ALARM") }
        } else if i == 14 {
            PropertyEntry { prop_id: "overheat-protection-sensor", value: ValueKind::Alarm, source: PropertySource::Aggregate1("ALARM_OHT_ALARM") }
        } else if i == 15 {
            PropertyEntry { prop_id: "emergency-thermostat", value: ValueKind::Alarm, source: PropertySource::Aggregate1("ALARM_EMT_ALARM") }
        } else if i == 16 {
            PropertyEntry { prop_id: "rotor-guard", value: ValueKind::Alarm, source: PropertySource::Aggregate1("ALARM_RGS_ALARM") }
        } else if i == 17 {
            PropertyEntry { prop_id: "bypass-damper-position-sensor", value: ValueKind::Alarm, source: PropertySource::Aggregate1("ALARM_BYS_ALARM") }
        } else if i == 18 {
            PropertyEntry { prop_id: "secondary-air", value: ValueKind::Alarm, source: PropertySource::Aggregate1("ALARM_SECONDARY_AIR_ALARM") }
        } else if i == 19 {
            PropertyEntry { prop_id: "filter", value: ValueKind::Alarm, source: PropertySource::Aggregate1("ALARM_FILTER_ALARM") }
        } else if i == 20 {
            PropertyEntry { prop_id: "extra-controller", value: ValueKind::Alarm, source: PropertySource::Aggregate1("ALARM_EXTRA_CONTROLLER_ALARM") }
        } else if i == 21 {
            PropertyEntry { prop_id: "external-stop", value: ValueKind::Alarm, source: PropertySource::Aggregate1("ALARM_EXTERNAL_STOP_ALARM") }
        } else if i == 22 {
            PropertyEntry { prop_id: "relative-humidity", value: ValueKind::Alarm, source: PropertySource::Aggregate1("ALARM_RH_ALARM") }
        } else if i == 23 {
            PropertyEntry { prop_id: "co2", value: ValueKind::Alarm, source: PropertySource::Aggregate1("ALARM_CO2_ALARM") }
        } else if i == 24 {
            PropertyEntry { prop_id: "low-supply-air-temperature", value: ValueKind::Alarm, source: PropertySource::Aggregate1("ALARM_LOW_SAT_ALARM") }
        } else if i == 25 {
            PropertyEntry { prop_id: "bypass-damper-feedback", value: ValueKind::Alarm, source: PropertySource::Aggregate1("ALARM_BYF_ALARM") }
        } else if i == 26 {
            PropertyEntry { prop_id: "manual-override-outputs", value: ValueKind::Alarm, source: PropertySource::Aggregate1("ALARM_MANUAL_OVERRIDE_OUTPUTS_ALARM") }
        } else if i == 27 {
            PropertyEntry { prop_id: "pdm-room-humidity-sensor", value: ValueKind::Alarm, source: PropertySource::Aggregate1("ALARM_PDM_RHS_ALARM") }
        } else if i == 28 {
            PropertyEntry { prop_id: "pdm-extract-room-temperature", value: ValueKind::Alarm, source: PropertySource::Aggregate1("ALARM_PDM_EAT_ALARM") }
        } else if i == 29 {
            PropertyEntry { prop_id: "manual-fan-stop", value: ValueKind::Alarm, source: PropertySource::Aggregate1("ALARM_MANUAL_FAN_STOP_ALARM") }
        } else if i == 30 {
            PropertyEntry { prop_id: "overheat-temperature", value: ValueKind::Alarm, source: PropertySource::Aggregate1("ALARM_OVERHEAT_TEMPERATURE_ALARM") }
        } else if i == 31 {
            PropertyEntry { prop_id: "fire", value: ValueKind::Alarm, source: PropertySource::Aggregate1("ALARM_FIRE_ALARM_ALARM") }
        } else {
            PropertyEntry { prop_id: "filter-warning", value: ValueKind::Alarm, source: PropertySource::Aggregate1("ALARM_FILTER_WARNING_ALARM") }
        }
    }

    /// Property `i` of the node.
    pub fn property(&self, i: usize) -> (r: PropertyEntry)
        requires
            i < 33,
        ensures
            r == AlarmNode::property_spec(i as int),
    {
        match i {
            0 => PropertyEntry { prop_id: "any", value: ValueKind::AlarmOutput, source: PropertySource::Register("OUTPUT_ALARM") },
            1 => PropertyEntry { prop_id: "supply-air-fan-control", value: ValueKind::Alarm, source: PropertySource::Aggregate1("ALARM_SAF_CTRL_ALARM") },
            2 => PropertyEntry { prop_id: "extract-air-fan-control", value: ValueKind::Alarm, source: PropertySource::Aggregate1("ALARM_EAF_CTRL_ALARM") },
            3 => PropertyEntry { prop_id: "frost-protection", value: ValueKind::Alarm, source: PropertySource::Aggregate1("ALARM_FROST_PROT_ALARM") },
            4 => PropertyEntry { prop_id: "defrosting", value: ValueKind::Alarm, source: PropertySource::Aggregate1("ALARM_DEFROSTING_ALARM") },
            5 => PropertyEntry { prop_id: "supply-air-fan-rpm", value: ValueKind::Alarm, source: PropertySource::Aggregate1("ALARM_SAF_RPM_ALARM") },
            6 => PropertyEntry { prop_id: "extract-air-fan-rpm", value: ValueKind::Alarm, source: PropertySource::Aggregate1("ALARM_EAF_RPM_ALARM") },
            7 => PropertyEntry { prop_id: "frost-protection-sensor", value: ValueKind::Alarm, source: PropertySource::Aggregate1("ALARM_FPT_ALARM") },
            8 => PropertyEntry { prop_id: "outdoor-air-temperature", value: ValueKind::Alarm, source: PropertySource::Aggregate1("ALARM_OAT_ALARM") },
            9 => PropertyEntry { prop_id: "supply-air-temperature", value: ValueKind::Alarm, source: PropertySource::Aggregate1("ALARM_SAT_ALARM") },
            10 => PropertyEntry { prop_id: "room-air-temperature", value: ValueKind::Alarm, source: PropertySource::Aggregate1("ALARM_RAT_ALARM") },
            11 => PropertyEntry { prop_id: "extract-air-temperature", value: ValueKind::Alarm, source: PropertySource::Aggregate1("ALARM_EAT_ALARM") },
            12 => PropertyEntry { prop_id: "extra-controller-temperature", value: ValueKind::Alarm, source: PropertySource::Aggregate1("ALARM_ECT_ALARM") },
            13 => PropertyEntry { prop_id: "eft", value: ValueKind::Alarm, source: PropertySource::Aggregate1("ALARM_EFT_ALARM") },
            14 => PropertyEntry { prop_id: "overheat-protection-sensor", value: ValueKind::Alarm, source: PropertySource::Aggregate1("ALARM_OHT_ALARM") },
            15 => PropertyEntry { prop_id: "emergency-thermostat", value: ValueKind::Alarm, source: PropertySource::Aggregate1("ALARM_EMT_ALARM") },
            16 => PropertyEntry { prop_id: "rotor-guard", value: ValueKind::Alarm, source: PropertySource::Aggregate1("ALARM_RGS_ALARM") },
            17 => PropertyEntry { prop_id: "bypass-damper-position-sensor", value: ValueKind::Alarm, source: PropertySource::Aggregate1("ALARM_BYS_ALARM") },
            18 => PropertyEntry { prop_id: "secondary-air", value: ValueKind::Alarm, source: PropertySource::Aggregate1("ALARM_SECONDARY_AIR_ALARM") },
            19 => PropertyEntry { prop_id: "filter", value: ValueKind::Alarm, source: PropertySource::Aggregate1("ALARM_FILTER_ALARM") },
            20 => PropertyEntry { prop_id: "extra-controller", value: ValueKind::Alarm, source: PropertySource::Aggregate1("ALARM_EXTRA_CONTROLLER_ALARM") },
            21 => PropertyEntry { prop_id: "external-stop", value: ValueKind::Alarm, source: PropertySource::Aggregate1("ALARM_EXTERNAL_STOP_ALARM") },
            22 => PropertyEntry { prop_id: "relative-humidity", value: ValueKind::Alarm, source: PropertySource::Aggregate1("ALARM_RH_ALARM") },
            23 => PropertyEntry { prop_id: "co2", value: ValueKind::Alarm, source: PropertySource::Aggregate1("ALARM_CO2_ALARM") },
            24 => PropertyEntry { prop_id: "low-supply-air-temperature", value: ValueKind::Alarm, source: PropertySource::Aggregate1("ALARM_LOW_SAT_ALARM") },
            25 => PropertyEntry { prop_id: "bypass-damper-feedback", value: ValueKind::Alarm, source: PropertySource::Aggregate1("ALARM_BYF_ALARM") },
            26 => PropertyEntry { prop_id: "manual-override-outputs", value: ValueKind::Alarm, source: PropertySource::Aggregate1("ALARM_MANUAL_OVERRIDE_OUTPUTS_ALARM") },
            27 => PropertyEntry { prop_id: "pdm-room-humidity-sensor", value: ValueKind::Alarm, source: PropertySource::Aggregate1("ALARM_PDM_RHS_ALARM") },
            28 => PropertyEntry { prop_id: "pdm-extract-room-temperature", value: ValueKind::Alarm, source: PropertySource::Aggregate1("ALARM_PDM_EAT_ALARM") },
            29 => PropertyEntry { prop_id: "manual-fan-stop", value: ValueKind::Alarm, source: PropertySource::Aggregate1("ALARM_MANUAL_FAN_STOP_ALARM") },
            30 => PropertyEntry { prop_id: "overheat-temperature", value: ValueKind::Alarm, source: PropertySource::Aggregate1("ALARM_OVERHEAT_TEMPERATURE_ALARM") },
            31 => PropertyEntry { prop_id: "fire", value: ValueKind::Alarm, source: PropertySource::Aggregate1("ALARM_FIRE_ALARM_ALARM") },
            _ => PropertyEntry { prop_id: "filter-warning", value: ValueKind::Alarm, source: PropertySource::Aggregate1("ALARM_FILTER_WARNING_ALARM") },
        }
    }

    /// The node's properties, in publishing order.
    pub fn properties(&self) -> (r: Vec<PropertyEntry>)
        ensures
            r@.len() == 33,
            forall|i: int| 0 <= i < 33 ==> #[trigger] r@[i] == AlarmNode::property_spec(i),
    {
        let mut r: Vec<PropertyEntry> = Vec::new();
        let mut i: usize = 0;
        while i < 33
            invariant
                i <= 33,
                r@.len() == i,
                forall|k: int| 0 <= k < i ==> #[trigger] r@[k] == AlarmNode::property_spec(k),
            decreases 33 - i,
        {
            r.push(self.property(i));
            i = i + 1;
        }
        r
    }
}

/// The `clock` node: time and date.
pub struct ClockNode {}

impl ClockNode {
    /// The number of properties of the node.
    pub const PROPERTY_COUNT: usize = 7;

    /// The node.
    pub fn new() -> (r: Self)
        ensures
            r == (ClockNode {}),
    {
        ClockNode {}
    }

    /// The node's Homie id.
    pub fn node_id(&self) -> (r: &'static str)
        ensures
            r@ == "clock"@,
    {
        "clock"
    }

    /// The node's human-readable name.
    pub fn name(&self) -> (r: &'static str)
        ensures
            r@ == "time and date"@,
    {
        "time and date"
    }

    /// Property `i` of the node.
    pub open spec fn property_spec(i: int) -> PropertyEntry {
        if i == 0 {
            PropertyEntry { prop_id: "clock", value: ValueKind::Clock, source: PropertySource::Aggregate6("TIME_YEAR", "TIME_MONTH", "TIME_DAY", "TIME_HOUR", "TIME_MINUTE", "TIME_SECOND") }
        } else if i == 1 {
            PropertyEntry { prop_id: "dst-enabled", value: ValueKind::Boolean, source: PropertySource::Register("TIME_AUTO_SUM_WIN") }
        } else if i == 2 {
            PropertyEntry { prop_id: "use-24-hour-format", value: ValueKind::Boolean, source: PropertySource::Register("HOUR_FORMAT") }
        } else if i == 3 {
            PropertyEntry { prop_id: "weekday", value: ValueKind::Weekday, source: PropertySource::Register("DAY_OF_THE_WEEK") }
        } else if i == 4 {
            PropertyEntry { prop_id: "dst-active", value: ValueKind::Boolean, source: PropertySource::Register("DST_PERIOD_ACTIVE") }
        } else if i == 5 {
            PropertyEntry { prop_id: "uptime", value: ValueKind::Uptime, source: PropertySource::Aggregate4("TIME_RTC_SECONDS_L", "TIME_RTC_SECONDS_H", "SYSTEM_START_UP_TIME_L", "SYSTEM_START_UP_TIME_H") }
        } else {
            PropertyEntry { prop_id: "synchronize", value: ValueKind::SynchronizeClock, source: PropertySource::Action }
        }
    }

    /// Property `i` of the node.
    pub fn property(&self, i: usize) -> (r: PropertyEntry)
        requires
            i < 7,
        ensures
            r == ClockNode::property_spec(i as int),
    {
        match i {
            0 => PropertyEntry { prop_id: "clock", value: ValueKind::Clock, source: PropertySource::Aggregate6("TIME_YEAR", "TIME_MONTH", "TIME_DAY", "TIME_HOUR", "TIME_MINUTE", "TIME_SECOND") },
            1 => PropertyEntry { prop_id: "dst-enabled", value: ValueKind::Boolean, source: PropertySource::Register("TIME_AUTO_SUM_WIN") },
            2 => PropertyEntry { prop_id: "use-24-hour-format", value: ValueKind::Boolean, source: PropertySource::Register("HOUR_FORMAT") },
            3 => PropertyEntry { prop_id: "weekday", value: ValueKind::Weekday, source: PropertySource::Register("DAY_OF_THE_WEEK") },
            4 => PropertyEntry { prop_id: "dst-active", value: ValueKind::Boolean, source: PropertySource::Register("DST_PERIOD_ACTIVE") },
            5 => PropertyEntry { prop_id: "uptime", value: ValueKind::Uptime, source: PropertySource::Aggregate4("TIME_RTC_SECONDS_L", "TIME_RTC_SECONDS_H", "SYSTEM_START_UP_TIME_L", "SYSTEM_START_UP_TIME_H") },
            _ => PropertyEntry { prop_id: "synchronize", value: ValueKind::SynchronizeClock, source: PropertySource::Action },
        }
    }

    /// The node's properties, in publishing order.
    pub fn properties(&self) -> (r: Vec<PropertyEntry>)
        ensures
            r@.len() == 7,
            forall|i: int| 0 <= i < 7 ==> #[trigger] r@[i] == ClockNode::property_spec(i),
    {
        let mut r: Vec<PropertyEntry> = Vec::new();
        let mut i: usize = 0;
        while i < 7
            invariant
                i <= 7,
                r@.len() == i,
                forall|k: int| 0 <= k < i ==> #[trigger] r@[k] == ClockNode::property_spec(k),
            decreases 7 - i,
        {
            r.push(self.property(i));
            i = i + 1;
        }
        r
    }
}

/// The `compensation` node: outdoor temperature driven airflow speed compensation.
pub struct CompensationNode {}

impl CompensationNode {
    /// The number of properties of the node.
    pub const PROPERTY_COUNT: usize = 8;

    /// The node.
    pub fn new() -> (r: Self)
        ensures
            r == (CompensationNode {}),
    {
        CompensationNode {}
    }

    /// The node's Homie id.
    pub fn node_id(&self) -> (r: &'static str)
        ensures
            r@ == "compensation"@,
    {
        "compensation"
    }

    /// The node's human-readable name.
    pub fn name(&self) -> (r: &'static str)
        ensures
            r@ == "outdoor temperature driven airflow speed compensation"@,
    {
        "outdoor temperature driven airflow speed compensation"
    }

    /// Property `i` of the node.
    pub open spec fn property_spec(i: int) -> PropertyEntry {
        if i == 0 {
            PropertyEntry { prop_id: "type", value: ValueKind::CompensationType, source: PropertySource::Register("FAN_OUTDOOR_COMP_TYPE") }
        } else if i == 1 {
            PropertyEntry { prop_id: "max-when-winter", value: ValueKind::UintPercent, source: PropertySource::Register("FAN_OUTDOOR_COMP_MAX_VALUE") }
        } else if i == 2 {
            PropertyEntry { prop_id: "max-when-winter-outdoor-temperature", value: ValueKind::Celsius, source: PropertySource::Register("FAN_OUTDOOR_COMP_MAX_TEMP") }
        } else if i == 3 {
            PropertyEntry { prop_id: "current", value: ValueKind::UintPercent, source: PropertySource::Register("FAN_OUTDOOR_COMP_RESULT") }
        } else if i == 4 {
            PropertyEntry { prop_id: "start-when-winter-outdoor-temperature", value: ValueKind::Celsius, source: PropertySource::Register("FAN_OUTDOOR_COMP_START_T_WINTER") }
        } else if i == 5 {
            PropertyEntry { prop_id: "start-when-summer-outdoor-temperature", value: ValueKind::Celsius, source: PropertySource::Register("FAN_OUTDOOR_COMP_START_T_SUMMER") }
        } else if i == 6 {
            PropertyEntry { prop_id: "max-when-summer-outdoor-temperature", value: ValueKind::Celsius, source: PropertySource::Register("FAN_OUTDOOR_COMP_STOP_T_SUMMER") }
        } else {
            PropertyEntry { prop_id: "max-when-summer", value: ValueKind::UintPercent, source: PropertySource::Register("FAN_OUTDOOR_COMP_VALUE_SUMMER") }
        }
    }

    /// Property `i` of the node.
    pub fn property(&self, i: usize) -> (r: PropertyEntry)
        requires
            i < 8,
        ensures
            r == CompensationNode::property_spec(i as int),
    {
        match i {
            0 => PropertyEntry { prop_id: "type", value: ValueKind::CompensationType, source: PropertySource::Register("FAN_OUTDOOR_COMP_TYPE") },
            1 => PropertyEntry { prop_id: "max-when-winter", value: ValueKind::UintPercent, source: PropertySource::Register("FAN_OUTDOOR_COMP_MAX_VALUE") },
            2 => PropertyEntry { prop_id: "max-when-winter-outdoor-temperature", value: ValueKind::Celsius, source: PropertySource::Register("FAN_OUTDOOR_COMP_MAX_TEMP") },
            3 => PropertyEntry { prop_id: "current", value: ValueKind::UintPercent, source: PropertySource::Register("FAN_OUTDOOR_COMP_RESULT") },
            4 => PropertyEntry { prop_id: "start-when-winter-outdoor-temperature", value: ValueKind::Celsius, source: PropertySource::Register("FAN_OUTDOOR_COMP_START_T_WINTER") },
            5 => PropertyEntry { prop_id: "start-when-summer-outdoor-temperature", value: ValueKind::Celsius, source: PropertySource::Register("FAN_OUTDOOR_COMP_START_T_SUMMER") },
            6 => PropertyEntry { prop_id: "max-when-summer-outdoor-temperature", value: ValueKind::Celsius, source: PropertySource::Register("FAN_OUTDOOR_COMP_STOP_T_SUMMER") },
            _ => PropertyEntry { prop_id: "max-when-summer", value: ValueKind::UintPercent, source: PropertySource::Register("FAN_OUTDOOR_COMP_VALUE_SUMMER") },
        }
    }

    /// The node's properties, in publishing order.
    pub fn properties(&self) -> (r: Vec<PropertyEntry>)
        ensures
            r@.len() == 8,
            forall|i: int| 0 <= i < 8 ==> #[trigger] r@[i] == CompensationNode::property_spec(i),
    {
        let mut r: Vec<PropertyEntry> = Vec::new();
        let mut i: usize = 0;
        while i < 8
            invariant
                i <= 8,
                r@.len() == i,
                forall|k: int| 0 <= k < i ==> #[trigger] r@[k] == CompensationNode::property_spec(k),
            decreases 8 - i,
        {
            r.push(self.property(i));
            i = i + 1;
        }
        r
    }
}

/// The `cooler` node: the cooler, its status and configuration.
pub struct CoolerNode {}

impl CoolerNode {
    /// The number of properties of the node.
    pub const PROPERTY_COUNT: usize = 6;

    /// The node.
    pub fn new() -> (r: Self)
        ensures
            r == (CoolerNode {}),
    {
        CoolerNode {}
    }

    /// The node's Homie id.
    pub fn node_id(&self) -> (r: &'static str)
        ensures
            r@ == "cooler"@,
    {
        "cooler"
    }

    /// The node's human-readable name.
    pub fn name(&self) -> (r: &'static str)
        ensures
            r@ == "the cooler, its status and configuration"@,
    {
        "the cooler, its status and configuration"
    }

    /// Property `i` of the node.
    pub open spec fn property_spec(i: int) -> PropertyEntry {
        if i == 0 {
            PropertyEntry { prop_id: "active", value: ValueKind::Boolean, source: PropertySource::Register("FUNCTION_ACTIVE_COOLING") }
        } else if i == 1 {
            PropertyEntry { prop_id: "demand", value: ValueKind::Uint, source: PropertySource::Register("COOLER_FROM_SATC") }
        } else if i == 2 {
            PropertyEntry { prop_id: "current-speed", value: ValueKind::Uint, source: PropertySource::Register("OUTPUT_Y3_ANALOG") }
        } else if i == 3 {
            PropertyEntry { prop_id: "circulation-pump-start-temperature", value: ValueKind::Celsius, source: PropertySource::Register("COOLER_CIRC_PUMP_START_T") }
        } else if i == 4 {
            PropertyEntry { prop_id: "outdoor-air-temperature-interlock", value: ValueKind::Celsius, source: PropertySource::Register("COOLER_OAT_INTERLOCK_T") }
        } else {
            PropertyEntry { prop_id: "circulation-pump-stop-delay", value: ValueKind::StopDelay, source: PropertySource::Register("COOLER_CIRC_PUMP_STOP_DELAY") }
        }
    }

    /// Property `i` of the node.
    pub fn property(&self, i: usize) -> (r: PropertyEntry)
        requires
            i < 6,
        ensures
            r == CoolerNode::property_spec(i as int),
    {
        match i {
            0 => PropertyEntry { prop_id: "active", value: ValueKind::Boolean, source: PropertySource::Register("FUNCTION_ACTIVE_COOLING") },
            1 => PropertyEntry { prop_id: "demand", value: ValueKind::Uint, source: PropertySource::Register("COOLER_FROM_SATC") },
            2 => PropertyEntry { prop_id: "current-speed", value: ValueKind::Uint, source: PropertySource::Register("OUTPUT_Y3_ANALOG") },
            3 => PropertyEntry { prop_id: "circulation-pump-start-temperature", value: ValueKind::Celsius, source: PropertySource::Register("COOLER_CIRC_PUMP_START_T") },
            4 => PropertyEntry { prop_id: "outdoor-air-temperature-interlock", value: ValueKind::Celsius, source: PropertySource::Register("COOLER_OAT_INTERLOCK_T") },
            _ => PropertyEntry { prop_id: "circulation-pump-stop-delay", value: ValueKind::StopDelay, source: PropertySource::Register("COOLER_CIRC_PUMP_STOP_DELAY") },
        }
    }

    /// The node's properties, in publishing order.
    pub fn properties(&self) -> (r: Vec<PropertyEntry>)
        ensures
            r@.len() == 6,
            forall|i: int| 0 <= i < 6 ==> #[trigger] r@[i] == CoolerNode::property_spec(i),
    {
        let mut r: Vec<PropertyEntry> = Vec::new();
        let mut i: usize = 0;
        while i < 6
            invariant
                i <= 6,
                r@.len() == i,
                forall|k: int| 0 <= k < i ==> #[trigger] r@[k] == CoolerNode::property_spec(k),
            decreases 6 - i,
        {
            r.push(self.property(i));
            i = i + 1;
        }
        r
    }
}

/// The `demand-control` node: demand control settings and status.
pub struct DemandControlNode {}

impl DemandControlNode {
    /// The number of properties of the node.
    pub const PROPERTY_COUNT: usize = 17;

    /// The node.
    pub fn new() -> (r: Self)
        ensures
            r == (DemandControlNode {}),
    {
        DemandControlNode {}
    }

    /// The node's Homie id.
    pub fn node_id(&self) -> (r: &'static str)
        ensures
            r@ == "demand-control"@,
    {
        "demand-control"
    }

    /// The node's human-readable name.
    pub fn name(&self) -> (r: &'static str)
        ensures
            r@ == "demand control settings and status"@,
    {
        "demand control settings and status"
    }

    /// Property `i` of the node.
    pub open spec fn property_spec(i: int) -> PropertyEntry {
        if i == 0 {
            PropertyEntry { prop_id: "highest-rh-sensor", value: ValueKind::Uint, source: PropertySource::Register("DEMC_RH_HIGHEST") }
        } else if i == 1 {
            PropertyEntry { prop_id: "highest-co2-sensor", value: ValueKind::Uint, source: PropertySource::Register("DEMC_CO2_HIGHEST") }
        } else if i == 2 {
            PropertyEntry { prop_id: "current-rh-setpoint", value: ValueKind::Uint, source: PropertySource::Register("DEMC_RH_PI_SP") }
        } else if i == 3 {
            PropertyEntry { prop_id: "current-rh", value: ValueKind::Uint, source: PropertySource::Register("DEMC_RH_PI_FEEDBACK") }
        } else if i == 4 {
            PropertyEntry { prop_id: "current-rh-airflow-demand", value: ValueKind::Uint, source: PropertySource::Register("DEMC_RH_PI_OUTPUT") }
        } else if i == 5 {
            PropertyEntry { prop_id: "current-co2-setpoint", value: ValueKind::Uint, source: PropertySource::Register("DEMC_CO2_PI_SP") }
        } else if i == 6 {
            PropertyEntry { prop_id: "current-co2", value: ValueKind::Uint, source: PropertySource::Register("DEMC_CO2_PI_FEEDBACK") }
        } else if i == 7 {
            PropertyEntry { prop_id: "current-co2-airflow-demand", value: ValueKind::Uint, source: PropertySource::Register("DEMC_CO2_PI_OUTPUT") }
        } else if i == 8 {
            PropertyEntry { prop_id: "rh-pband", value: ValueKind::Uint, source: PropertySource::Register("DEMC_RH_SETTINGS_PBAND") }
        } else if i == 9 {
            PropertyEntry { prop_id: "rh-summer-setpoint", value: ValueKind::Uint, source: PropertySource::Register("DEMC_RH_SETTINGS_SP_SUMMER") }
        } else if i == 10 {
            PropertyEntry { prop_id: "rh-winter-setpoint", value: ValueKind::Uint, source: PropertySource::Register("DEMC_RH_SETTINGS_SP_WINTER") }
        } else if i == 11 {
            PropertyEntry { prop_id: "rh-enabled", value: ValueKind::Boolean, source: PropertySource::Register("DEMC_RH_SETTINGS_ON_OFF") }
        } else if i == 12 {
            PropertyEntry { prop_id: "season", value: ValueKind::Season, source: PropertySource::Register("SUMMER_WINTER") }
        } else if i == 13 {
            PropertyEntry { prop_id: "co2-pband", value: ValueKind::Uint, source: PropertySource::Register("DEMC_CO2_SETTINGS_PBAND") }
        } else if i == 14 {
            PropertyEntry { prop_id: "co2-setpoint", value: ValueKind::Uint, source: PropertySource::Register("DEMC_CO2_SETTINGS_SP") }
        } else if i == 15 {
            PropertyEntry { prop_id: "co2-enabled", value: ValueKind::Boolean, source: PropertySource::Register("DEMC_CO2_SETTINGS_ON_OFF") }
        } else {
            PropertyEntry { prop_id: "current-indoor-air-quality-level", value: ValueKind::IaqLevel, source: PropertySource::Register("IAQ_LEVEL") }
        }
    }

    /// Property `i` of the node.
    pub fn property(&self, i: usize) -> (r: PropertyEntry)
        requires
            i < 17,
        ensures
            r == DemandControlNode::property_spec(i as int),
    {
        match i {
            0 => PropertyEntry { prop_id: "highest-rh-sensor", value: ValueKind::Uint, source: PropertySource::Register("DEMC_RH_HIGHEST") },
            1 => PropertyEntry { prop_id: "highest-co2-sensor", value: ValueKind::Uint, source: PropertySource::Register("DEMC_CO2_HIGHEST") },
            2 => PropertyEntry { prop_id: "current-rh-setpoint", value: ValueKind::Uint, source: PropertySource::Register("DEMC_RH_PI_SP") },
            3 => PropertyEntry { prop_id: "current-rh", value: ValueKind::Uint, source: PropertySource::Register("DEMC_RH_PI_FEEDBACK") },
            4 => PropertyEntry { prop_id: "current-rh-airflow-demand", value: ValueKind::Uint, source: PropertySource::Register("DEMC_RH_PI_OUTPUT") },
            5 => PropertyEntry { prop_id: "current-co2-setpoint", value: ValueKind::Uint, source: PropertySource::Register("DEMC_CO2_PI_SP") },
            6 => PropertyEntry { prop_id: "current-co2", value: ValueKind::Uint, source: PropertySource::Register("DEMC_CO2_PI_FEEDBACK") },
            7 => PropertyEntry { prop_id: "current-co2-airflow-demand", value: ValueKind::Uint, source: PropertySource::Register("DEMC_CO2_PI_OUTPUT") },
            8 => PropertyEntry { prop_id: "rh-pband", value: ValueKind::Uint, source: PropertySource::Register("DEMC_RH_SETTINGS_PBAND") },
            9 => PropertyEntry { prop_id: "rh-summer-setpoint", value: ValueKind::Uint, source: PropertySource::Register("DEMC_RH_SETTINGS_SP_SUMMER") },
            10 => PropertyEntry { prop_id: "rh-winter-setpoint", value: ValueKind::Uint, source: PropertySource::Register("DEMC_RH_SETTINGS_SP_WINTER") },
            11 => PropertyEntry { prop_id: "rh-enabled", value: ValueKind::Boolean, source: PropertySource::Register("DEMC_RH_SETTINGS_ON_OFF") },
            12 => PropertyEntry { prop_id: "season", value: ValueKind::Season, source: PropertySource::Register("SUMMER_WINTER") },
            13 => PropertyEntry { prop_id: "co2-pband", value: ValueKind::Uint, source: PropertySource::Register("DEMC_CO2_SETTINGS_PBAND") },
            14 => PropertyEntry { prop_id: "co2-setpoint", value: ValueKind::Uint, source: PropertySource::Register("DEMC_CO2_SETTINGS_SP") },
            15 => PropertyEntry { prop_id: "co2-enabled", value: ValueKind::Boolean, source: PropertySource::Register("DEMC_CO2_SETTINGS_ON_OFF") },
            _ => PropertyEntry { prop_id: "current-indoor-air-quality-level", value: ValueKind::IaqLevel, source: PropertySource::Register("IAQ_LEVEL") },
        }
    }

    /// The node's properties, in publishing order.
    pub fn properties(&self) -> (r: Vec<PropertyEntry>)
        ensures
            r@.len() == 17,
            forall|i: int| 0 <= i < 17 ==> #[trigger] r@[i] == DemandControlNode::property_spec(i),
    {
        let mut r: Vec<PropertyEntry> = Vec::new();
        let mut i: usize = 0;
        while i < 17
            invariant
                i <= 17,
                r@.len() == i,
                forall|k: int| 0 <= k < i ==> #[trigger] r@[k] == DemandControlNode::property_spec(k),
            decreases 17 - i,
        {
            r.push(self.property(i));
            i = i + 1;
        }
        r
    }
}

/// The `fan-speed` node: fan speed settings and status.
pub struct FanSpeedSettingsNode {}

impl FanSpeedSettingsNode {
    /// The number of properties of the node.
    pub const PROPERTY_COUNT: usize = 73;

    /// The node.
    pub fn new() -> (r: Self)
        ensures
            r == (FanSpeedSettingsNode {}),
    {
        FanSpeedSettingsNode {}
    }

    /// The node's Homie id.
    pub fn node_id(&self) -> (r: &'static str)
        ensures
            r@ == "fan-speed"@,
    {
        "fan-speed"
    }

    /// The node's human-readable name.
    pub fn name(&self) -> (r: &'static str)
        ensures
            r@ == "fan speed settings and status"@,
    {
        "fan speed settings and status"
    }

    /// Property `i` of the node.
    pub open spec fn property_spec(i: int) -> PropertyEntry {
        if i == 0 {
            PropertyEntry { prop_id: "min-demand-control", value: ValueKind::AirflowLevel, source: PropertySource::Register("IAQ_SPEED_LEVEL_MIN") }
        } else if i == 1 {
            PropertyEntry { prop_id: "max-demand-control", value: ValueKind::AirflowLevel, source: PropertySource::Register("IAQ_SPEED_LEVEL_MAX") }
        } else if i == 2 {
            PropertyEntry { prop_id: "usermode-manual", value: ValueKind::AirflowLevel, source: PropertySource::Register("USERMODE_MANUAL_AIRFLOW_LEVEL_SAF") }
        } else if i == 3 {
            PropertyEntry { prop_id: "usermode-crowded-supply", value: ValueKind::AirflowLevel, source: PropertySource::Register("USERMODE_CROWDED_AIRFLOW_LEVEL_SAF") }
        } else if i == 4 {
            PropertyEntry { prop_id: "usermode-crowded-extract", value: ValueKind::AirflowLevel, source: PropertySource::Register("USERMODE_CROWDED_AIRFLOW_LEVEL_EAF") }
        } else if i == 5 {
            PropertyEntry { prop_id: "usermode-refresh-supply", value: ValueKind::AirflowLevel, source: PropertySource::Register("USERMODE_REFRESH_AIRFLOW_LEVEL_SAF") }
        } else if i == 6 {
            PropertyEntry { prop_id: "usermode-refresh-extract", value: ValueKind::AirflowLevel, source: PropertySource::Register("USERMODE_REFRESH_AIRFLOW_LEVEL_EAF") }
        } else if i == 7 {
            PropertyEntry { prop_id: "usermode-fireplace-supply", value: ValueKind::AirflowLevel, source: PropertySource::Register("USERMODE_FIREPLACE_AIRFLOW_LEVEL_SAF") }
        } else if i == 8 {
            PropertyEntry { prop_id: "usermode-fireplace-extract", value: ValueKind::AirflowLevel, source: PropertySource::Register("USERMODE_FIREPLACE_AIRFLOW_LEVEL_EAF") }
        } else if i == 9 {
            PropertyEntry { prop_id: "usermode-away-supply", value: ValueKind::AirflowLevel, source: PropertySource::Register("USERMODE_AWAY_AIRFLOW_LEVEL_SAF") }
        } else if i == 10 {
            PropertyEntry { prop_id: "usermode-away-extract", value: ValueKind::AirflowLevel, source: PropertySource::Register("USERMODE_AWAY_AIRFLOW_LEVEL_EAF") }
        } else if i == 11 {
            PropertyEntry { prop_id: "usermode-holiday-supply", value: ValueKind::AirflowLevel, source: PropertySource::Register("USERMODE_HOLIDAY_AIRFLOW_LEVEL_SAF") }
        } else if i == 12 {
            PropertyEntry { prop_id: "usermode-holiday-extract", value: ValueKind::AirflowLevel, source: PropertySource::Register("USERMODE_HOLIDAY_AIRFLOW_LEVEL_EAF") }
        } else if i == 13 {
            PropertyEntry { prop_id: "usermode-cooker-hood-supply", value: ValueKind::AirflowLevel, source: PropertySource::Register("USERMODE_COOKERHOOD_AIRFLOW_LEVEL_SAF") }
        } else if i == 14 {
            PropertyEntry { prop_id: "usermode-cooker-hood-extract", value: ValueKind::AirflowLevel, source: PropertySource::Register("USERMODE_COOKERHOOD_AIRFLOW_LEVEL_EAF") }
        } else if i == 15 {
            PropertyEntry { prop_id: "usermode-vacuum-cleaner-supply", value: ValueKind::AirflowLevel, source: PropertySource::Register("USERMODE_VACUUMCLEANER_AIRFLOW_LEVEL_SAF") }
        } else if i == 16 {
            PropertyEntry { prop_id: "usermode-vacuum-cleaner-extract", value: ValueKind::AirflowLevel, source: PropertySource::Register("USERMODE_VACUUMCLEANER_AIRFLOW_LEVEL_EAF") }
        } else if i == 17 {
            PropertyEntry { prop_id: "digital-input-1-supply", value: ValueKind::AirflowLevel, source: PropertySource::Register("CDI_1_AIRFLOW_LEVEL_SAF") }
        } else if i == 18 {
            PropertyEntry { prop_id: "digital-input-1-extract", value: ValueKind::AirflowLevel, source: PropertySource::Register("CDI_1_AIRFLOW_LEVEL_EAF") }
        } else if i == 19 {
            PropertyEntry { prop_id: "digital-input-2-supply", value: ValueKind::AirflowLevel, source: PropertySource::Register("CDI_2_AIRFLOW_LEVEL_SAF") }
        } else if i == 20 {
            PropertyEntry { prop_id: "digital-input-2-extract", value: ValueKind::AirflowLevel, source: PropertySource::Register("CDI_2_AIRFLOW_LEVEL_EAF") }
        } else if i == 21 {
            PropertyEntry { prop_id: "digital-input-3-supply", value: ValueKind::AirflowLevel, source: PropertySource::Register("CDI_3_AIRFLOW_LEVEL_SAF") }
        } else if i == 22 {
            PropertyEntry { prop_id: "digital-input-3-extract", value: ValueKind::AirflowLevel, source: PropertySource::Register("CDI_3_AIRFLOW_LEVEL_EAF") }
        } else if i == 23 {
            PropertyEntry { prop_id: "pressure-guard-supply", value: ValueKind::AirflowLevel, source: PropertySource::Register("PRESSURE_GUARD_AIRFLOW_LEVEL_SAF") }
        } else if i == 24 {
            PropertyEntry { prop_id: "pressure-guard-extract", value: ValueKind::AirflowLevel, source: PropertySource::Register("PRESSURE_GUARD_AIRFLOW_LEVEL_EAF") }
        } else if i == 25 {
            PropertyEntry { prop_id: "min-demand-control-speed", value: ValueKind::AirflowLevel, source: PropertySource::Register("IAQ_SPEED_LEVEL_MIN") }
        } else if i == 26 {
            PropertyEntry { prop_id: "max-demand-control-speed", value: ValueKind::AirflowLevel, source: PropertySource::Register("IAQ_SPEED_LEVEL_MAX") }
        } else if i == 27 {
            PropertyEntry { prop_id: "regulation-type", value: ValueKind::RegulationType, source: PropertySource::Register("FAN_REGULATION_UNIT") }
        } else if i == 28 {
            PropertyEntry { prop_id: "allow-manual-stop", value: ValueKind::Boolean, source: PropertySource::Register("FAN_MANUAL_STOP_ALLOWED") }
        } else if i == 29 {
            PropertyEntry { prop_id: "supply-percentage-for-minimum", value: ValueKind::Uint, source: PropertySource::Register("FAN_LEVEL_SAF_MIN_PERCENTAGE") }
        } else if i == 30 {
            PropertyEntry { prop_id: "extract-percentage-for-minimum", value: ValueKind::Uint, source: PropertySource::Register("FAN_LEVEL_EAF_MIN_PERCENTAGE") }
        } else if i == 31 {
            PropertyEntry { prop_id: "supply-percentage-for-low", value: ValueKind::Uint, source: PropertySource::Register("FAN_LEVEL_SAF_LOW_PERCENTAGE") }
        } else if i == 32 {
            PropertyEntry { prop_id: "extract-percentage-for-low", value: ValueKind::Uint, source: PropertySource::Register("FAN_LEVEL_EAF_LOW_PERCENTAGE") }
        } else if i == 33 {
            PropertyEntry { prop_id: "supply-percentage-for-normal", value: ValueKind::Uint, source: PropertySource::Register("FAN_LEVEL_SAF_NORMAL_PERCENTAGE") }
        } else if i == 34 {
            PropertyEntry { prop_id: "extract-percentage-for-normal", value: ValueKind::Uint, source: PropertySource::Register("FAN_LEVEL_EAF_NORMAL_PERCENTAGE") }
        } else if i == 35 {
            PropertyEntry { prop_id: "supply-percentage-for-high", value: ValueKind::Uint, source: PropertySource::Register("FAN_LEVEL_SAF_HIGH_PERCENTAGE") }
        } else if i == 36 {
            PropertyEntry { prop_id: "extract-percentage-for-high", value: ValueKind::Uint, source: PropertySource::Register("FAN_LEVEL_EAF_HIGH_PERCENTAGE") }
        } else if i == 37 {
            PropertyEntry { prop_id: "supply-percentage-for-maximum", value: ValueKind::Uint, source: PropertySource::Register("FAN_LEVEL_SAF_MAX_PERCENTAGE") }
        } else if i == 38 {
            PropertyEntry { prop_id: "extract-percentage-for-maximum", value: ValueKind::Uint, source: PropertySource::Register("FAN_LEVEL_EAF_MAX_PERCENTAGE") }
        } else if i == 39 {
            PropertyEntry { prop_id: "supply-rpm-for-minimum", value: ValueKind::Uint, source: PropertySource::Register("FAN_LEVEL_SAF_MIN_RPM") }
        } else if i == 40 {
            PropertyEntry { prop_id: "extract-rpm-for-minimum", value: ValueKind::Uint, source: PropertySource::Register("FAN_LEVEL_EAF_MIN_RPM") }
        } else if i == 41 {
            PropertyEntry { prop_id: "supply-rpm-for-low", value: ValueKind::Uint, source: PropertySource::Register("FAN_LEVEL_SAF_LOW_RPM") }
        } else if i == 42 {
            PropertyEntry { prop_id: "extract-rpm-for-low", value: ValueKind::Uint, source: PropertySource::Register("FAN_LEVEL_EAF_LOW_RPM") }
        } else if i == 43 {
            PropertyEntry { prop_id: "supply-rpm-for-normal", value: ValueKind::Uint, source: PropertySource::Register("FAN_LEVEL_SAF_NORMAL_RPM") }
        } else if i == 44 {
            PropertyEntry { prop_id: "extract-rpm-for-normal", value: ValueKind::Uint, source: PropertySource::Register("FAN_LEVEL_EAF_NORMAL_RPM") }
        } else if i == 45 {
            PropertyEntry { prop_id: "supply-rpm-for-high", value: ValueKind::Uint, source: PropertySource::Register("FAN_LEVEL_SAF_HIGH_RPM") }
        } else if i == 46 {
            PropertyEntry { prop_id: "extract-rpm-for-high", value: ValueKind::Uint, source: PropertySource::Register("FAN_LEVEL_EAF_HIGH_RPM") }
        } else if i == 47 {
            PropertyEntry { prop_id: "supply-rpm-for-maximum", value: ValueKind::Uint, source: PropertySource::Register("FAN_LEVEL_SAF_MAX_RPM") }
        } else if i == 48 {
            PropertyEntry { prop_id: "extract-rpm-for-maximum", value: ValueKind::Uint, source: PropertySource::Register("FAN_LEVEL_EAF_MAX_RPM") }
        } else if i == 49 {
            PropertyEntry { prop_id: "supply-pressure-for-minimum", value: ValueKind::Uint, source: PropertySource::Register("FAN_LEVEL_SAF_MIN_PRESSURE") }
        } else if i == 50 {
            PropertyEntry { prop_id: "extract-pressure-for-minimum", value: ValueKind::Uint, source: PropertySource::Register("FAN_LEVEL_EAF_MIN_PRESSURE") }
        } else if i == 51 {
            PropertyEntry { prop_id: "supply-pressure-for-low", value: ValueKind::Uint, source: PropertySource::Register("FAN_LEVEL_SAF_LOW_PRESSURE") }
        } else if i == 52 {
            PropertyEntry { prop_id: "extract-pressure-for-low", value: ValueKind::Uint, source: PropertySource::Register("FAN_LEVEL_EAF_LOW_PRESSURE") }
        } else if i == 53 {
            PropertyEntry { prop_id: "supply-pressure-for-normal", value: ValueKind::Uint, source: PropertySource::Register("FAN_LEVEL_SAF_NORMAL_PRESSURE") }
        } else if i == 54 {
            PropertyEntry { prop_id: "extract-pressure-for-normal", value: ValueKind::Uint, source: PropertySource::Register("FAN_LEVEL_EAF_NORMAL_PRESSURE") }
        } else if i == 55 {
            PropertyEntry { prop_id: "supply-pressure-for-high", value: ValueKind::Uint, source: PropertySource::Register("FAN_LEVEL_SAF_HIGH_PRESSURE") }
        } else if i == 56 {
            PropertyEntry { prop_id: "extract-pressure-for-high", value: ValueKind::Uint, source: PropertySource::Register("FAN_LEVEL_EAF_HIGH_PRESSURE") }
        } else if i == 57 {
            PropertyEntry { prop_id: "supply-pressure-for-maximum", value: ValueKind::Uint, source: PropertySource::Register("FAN_LEVEL_SAF_MAX_PRESSURE") }
        } else if i == 58 {
            PropertyEntry { prop_id: "extract-pressure-for-maximum", value: ValueKind::Uint, source: PropertySource::Register("FAN_LEVEL_EAF_MAX_PRESSURE") }
        } else if i == 59 {
            PropertyEntry { prop_id: "supply-flow-for-minimum", value: ValueKind::Uint, source: PropertySource::Register("FAN_LEVEL_SAF_MIN_FLOW") }
        } else if i == 60 {
            PropertyEntry { prop_id: "extract-flow-for-minimum", value: ValueKind::Uint, source: PropertySource::Register("FAN_LEVEL_EAF_MIN_FLOW") }
        } else if i == 61 {
            PropertyEntry { prop_id: "supply-flow-for-low", value: ValueKind::Uint, source: PropertySource::Register("FAN_LEVEL_SAF_LOW_FLOW") }
        } else if i == 62 {
            PropertyEntry { prop_id: "extract-flow-for-low", value: ValueKind::Uint, source: PropertySource::Register("FAN_LEVEL_EAF_LOW_FLOW") }
        } else if i == 63 {
            PropertyEntry { prop_id: "supply-flow-for-normal", value: ValueKind::Uint, source: PropertySource::Register("FAN_LEVEL_SAF_NORMAL_FLOW") }
        } else if i == 64 {
            PropertyEntry { prop_id: "extract-flow-for-normal", value: ValueKind::Uint, source: PropertySource::Register("FAN_LEVEL_EAF_NORMAL_FLOW") }
        } else if i == 65 {
            PropertyEntry { prop_id: "supply-flow-for-high", value: ValueKind::Uint, source: PropertySource::Register("FAN_LEVEL_SAF_HIGH_FLOW") }
        } else if i == 66 {
            PropertyEntry { prop_id: "extract-flow-for-high", value: ValueKind::Uint, source: PropertySource::Register("FAN_LEVEL_EAF_HIGH_FLOW") }
        } else if i == 67 {
            PropertyEntry { prop_id: "supply-flow-for-maximum", value: ValueKind::Uint, source: PropertySource::Register("FAN_LEVEL_SAF_MAX_FLOW") }
        } else if i == 68 {
            PropertyEntry { prop_id: "extract-flow-for-maximum", value: ValueKind::Uint, source: PropertySource::Register("FAN_LEVEL_EAF_MAX_FLOW") }
        } else if i == 69 {
            PropertyEntry { prop_id: "min-free-cooling-supply", value: ValueKind::AirflowLevel, source: PropertySource::Register("FREE_COOLING_MIN_SPEED_LEVEL_SAF") }
        } else if i == 70 {
            PropertyEntry { prop_id: "min-free-cooling-extract", value: ValueKind::AirflowLevel, source: PropertySource::Register("FREE_COOLING_MIN_SPEED_LEVEL_EAF") }
        } else if i == 71 {
            PropertyEntry { prop_id: "during-active-week-schedule", value: ValueKind::WeeklyScheduleLevel, source: PropertySource::Register("WS_FAN_LEVEL_SCHEDULED") }
        } else {
            PropertyEntry { prop_id: "during-inactive-week-schedule", value: ValueKind::WeeklyScheduleLevel, source: PropertySource::Register("WS_FAN_LEVEL_UNSCHEDULED") }
        }
    }

    /// Property `i` of the node.
    pub fn property(&self, i: usize) -> (r: PropertyEntry)
        requires
            i < 73,
        ensures
            r == FanSpeedSettingsNode::property_spec(i as int),
    {
        match i {
            0 => PropertyEntry { prop_id: "min-demand-control", value: ValueKind::AirflowLevel, source: PropertySource::Register("IAQ_SPEED_LEVEL_MIN") },
            1 => PropertyEntry { prop_id: "max-demand-control", value: ValueKind::AirflowLevel, source: PropertySource::Register("IAQ_SPEED_LEVEL_MAX") },
            2 => PropertyEntry { prop_id: "usermode-manual", value: ValueKind::AirflowLevel, source: PropertySource::Register("USERMODE_MANUAL_AIRFLOW_LEVEL_SAF") },
            3 => PropertyEntry { prop_id: "usermode-crowded-supply", value: ValueKind::AirflowLevel, source: PropertySource::Register("USERMODE_CROWDED_AIRFLOW_LEVEL_SAF") },
            4 => PropertyEntry { prop_id: "usermode-crowded-extract", value: ValueKind::AirflowLevel, source: PropertySource::Register("USERMODE_CROWDED_AIRFLOW_LEVEL_EAF") },
            5 => PropertyEntry { prop_id: "usermode-refresh-supply", value: ValueKind::AirflowLevel, source: PropertySource::Register("USERMODE_REFRESH_AIRFLOW_LEVEL_SAF") },
            6 => PropertyEntry { prop_id: "usermode-refresh-extract", value: ValueKind::AirflowLevel, source: PropertySource::Register("USERMODE_REFRESH_AIRFLOW_LEVEL_EAF") },
            7 => PropertyEntry { prop_id: "usermode-fireplace-supply", value: ValueKind::AirflowLevel, source: PropertySource::Register("USERMODE_FIREPLACE_AIRFLOW_LEVEL_SAF") },
            8 => PropertyEntry { prop_id: "usermode-fireplace-extract", value: ValueKind::AirflowLevel, source: PropertySource::Register("USERMODE_FIREPLACE_AIRFLOW_LEVEL_EAF") },
            9 => PropertyEntry { prop_id: "usermode-away-supply", value: ValueKind::AirflowLevel, source: PropertySource::Register("USERMODE_AWAY_AIRFLOW_LEVEL_SAF") },
            10 => PropertyEntry { prop_id: "usermode-away-extract", value: ValueKind::AirflowLevel, source: PropertySource::Register("USERMODE_AWAY_AIRFLOW_LEVEL_EAF") },
            11 => PropertyEntry { prop_id: "usermode-holiday-supply", value: ValueKind::AirflowLevel, source: PropertySource::Register("USERMODE_HOLIDAY_AIRFLOW_LEVEL_SAF") },
            12 => PropertyEntry { prop_id: "usermode-holiday-extract", value: ValueKind::AirflowLevel, source: PropertySource::Register("USERMODE_HOLIDAY_AIRFLOW_LEVEL_EAF") },
            13 => PropertyEntry { prop_id: "usermode-cooker-hood-supply", value: ValueKind::AirflowLevel, source: PropertySource::Register("USERMODE_COOKERHOOD_AIRFLOW_LEVEL_SAF") },
            14 => PropertyEntry { prop_id: "usermode-cooker-hood-extract", value: ValueKind::AirflowLevel, source: PropertySource::Register("USERMODE_COOKERHOOD_AIRFLOW_LEVEL_EAF") },
            15 => PropertyEntry { prop_id: "usermode-vacuum-cleaner-supply", value: ValueKind::AirflowLevel, source: PropertySource::Register("USERMODE_VACUUMCLEANER_AIRFLOW_LEVEL_SAF") },
            16 => PropertyEntry { prop_id: "usermode-vacuum-cleaner-extract", value: ValueKind::AirflowLevel, source: PropertySource::Register("USERMODE_VACUUMCLEANER_AIRFLOW_LEVEL_EAF") },
            17 => PropertyEntry { prop_id: "digital-input-1-supply", value: ValueKind::AirflowLevel, source: PropertySource::Register("CDI_1_AIRFLOW_LEVEL_SAF") },
            18 => PropertyEntry { prop_id: "digital-input-1-extract", value: ValueKind::AirflowLevel, source: PropertySource::Register("CDI_1_AIRFLOW_LEVEL_EAF") },
            19 => PropertyEntry { prop_id: "digital-input-2-supply", value: ValueKind::AirflowLevel, source: PropertySource::Register("CDI_2_AIRFLOW_LEVEL_SAF") },
            20 => PropertyEntry { prop_id: "digital-input-2-extract", value: ValueKind::AirflowLevel, source: PropertySource::Register("CDI_2_AIRFLOW_LEVEL_EAF") },
            21 => PropertyEntry { prop_id: "digital-input-3-supply", value: ValueKind::AirflowLevel, source: PropertySource::Register("CDI_3_AIRFLOW_LEVEL_SAF") },
            22 => PropertyEntry { prop_id: "digital-input-3-extract", value: ValueKind::AirflowLevel, source: PropertySource::Register("CDI_3_AIRFLOW_LEVEL_EAF") },
            23 => PropertyEntry { prop_id: "pressure-guard-supply", value: ValueKind::AirflowLevel, source: PropertySource::Register("PRESSURE_GUARD_AIRFLOW_LEVEL_SAF") },
            24 => PropertyEntry { prop_id: "pressure-guard-extract", value: ValueKind::AirflowLevel, source: PropertySource::Register("PRESSURE_GUARD_AIRFLOW_LEVEL_EAF") },
            25 => PropertyEntry { prop_id: "min-demand-control-speed", value: ValueKind::AirflowLevel, source: PropertySource::Register("IAQ_SPEED_LEVEL_MIN") },
            26 => PropertyEntry { prop_id: "max-demand-control-speed", value: ValueKind::AirflowLevel, source: PropertySource::Register("IAQ_SPEED_LEVEL_MAX") },
            27 => PropertyEntry { prop_id: "regulation-type", value: ValueKind::RegulationType, source: PropertySource::Register("FAN_REGULATION_UNIT") },
            28 => PropertyEntry { prop_id: "allow-manual-stop", value: ValueKind::Boolean, source: PropertySource::Register("FAN_MANUAL_STOP_ALLOWED") },
            29 => PropertyEntry { prop_id: "supply-percentage-for-minimum", value: ValueKind::Uint, source: PropertySource::Register("FAN_LEVEL_SAF_MIN_PERCENTAGE") },
            30 => PropertyEntry { prop_id: "extract-percentage-for-minimum", value: ValueKind::Uint, source: PropertySource::Register("FAN_LEVEL_EAF_MIN_PERCENTAGE") },
            31 => PropertyEntry { prop_id: "supply-percentage-for-low", value: ValueKind::Uint, source: PropertySource::Register("FAN_LEVEL_SAF_LOW_PERCENTAGE") },
            32 => PropertyEntry { prop_id: "extract-percentage-for-low", value: ValueKind::Uint, source: PropertySource::Register("FAN_LEVEL_EAF_LOW_PERCENTAGE") },
            33 => PropertyEntry { prop_id: "supply-percentage-for-normal", value: ValueKind::Uint, source: PropertySource::Register("FAN_LEVEL_SAF_NORMAL_PERCENTAGE") },
            34 => PropertyEntry { prop_id: "extract-percentage-for-normal", value: ValueKind::Uint, source: PropertySource::Register("FAN_LEVEL_EAF_NORMAL_PERCENTAGE") },
            35 => PropertyEntry { prop_id: "supply-percentage-for-high", value: ValueKind::Uint, source: PropertySource::Register("FAN_LEVEL_SAF_HIGH_PERCENTAGE") },
            36 => PropertyEntry { prop_id: "extract-percentage-for-high", value: ValueKind::Uint, source: PropertySource::Register("FAN_LEVEL_EAF_HIGH_PERCENTAGE") },
            37 => PropertyEntry { prop_id: "supply-percentage-for-maximum", value: ValueKind::Uint, source: PropertySource::Register("FAN_LEVEL_SAF_MAX_PERCENTAGE") },
            38 => PropertyEntry { prop_id: "extract-percentage-for-maximum", value: ValueKind::Uint, source: PropertySource::Register("FAN_LEVEL_EAF_MAX_PERCENTAGE") },
            39 => PropertyEntry { prop_id: "supply-rpm-for-minimum", value: ValueKind::Uint, source: PropertySource::Register("FAN_LEVEL_SAF_MIN_RPM") },
            40 => PropertyEntry { prop_id: "extract-rpm-for-minimum", value: ValueKind::Uint, source: PropertySource::Register("FAN_LEVEL_EAF_MIN_RPM") },
            41 => PropertyEntry { prop_id: "supply-rpm-for-low", value: ValueKind::Uint, source: PropertySource::Register("FAN_LEVEL_SAF_LOW_RPM") },
            42 => PropertyEntry { prop_id: "extract-rpm-for-low", value: ValueKind::Uint, source: PropertySource::Register("FAN_LEVEL_EAF_LOW_RPM") },
            43 => PropertyEntry { prop_id: "supply-rpm-for-normal", value: ValueKind::Uint, source: PropertySource::Register("FAN_LEVEL_SAF_NORMAL_RPM") },
            44 => PropertyEntry { prop_id: "extract-rpm-for-normal", value: ValueKind::Uint, source: PropertySource::Register("FAN_LEVEL_EAF_NORMAL_RPM") },
            45 => PropertyEntry { prop_id: "supply-rpm-for-high", value: ValueKind::Uint, source: PropertySource::Register("FAN_LEVEL_SAF_HIGH_RPM") },
            46 => PropertyEntry { prop_id: "extract-rpm-for-high", value: ValueKind::Uint, source: PropertySource::Register("FAN_LEVEL_EAF_HIGH_RPM") },
            47 => PropertyEntry { prop_id: "supply-rpm-for-maximum", value: ValueKind::Uint, source: PropertySource::Register("FAN_LEVEL_SAF_MAX_RPM") },
            48 => PropertyEntry { prop_id: "extract-rpm-for-maximum", value: ValueKind::Uint, source: PropertySource::Register("FAN_LEVEL_EAF_MAX_RPM") },
            49 => PropertyEntry { prop_id: "supply-pressure-for-minimum", value: ValueKind::Uint, source: PropertySource::Register("FAN_LEVEL_SAF_MIN_PRESSURE") },
            50 => PropertyEntry { prop_id: "extract-pressure-for-minimum", value: ValueKind::Uint, source: PropertySource::Register("FAN_LEVEL_EAF_MIN_PRESSURE") },
            51 => PropertyEntry { prop_id: "supply-pressure-for-low", value: ValueKind::Uint, source: PropertySource::Register("FAN_LEVEL_SAF_LOW_PRESSURE") },
            52 => PropertyEntry { prop_id: "extract-pressure-for-low", value: ValueKind::Uint, source: PropertySource::Register("FAN_LEVEL_EAF_LOW_PRESSURE") },
            53 => PropertyEntry { prop_id: "supply-pressure-for-normal", value: ValueKind::Uint, source: PropertySource::Register("FAN_LEVEL_SAF_NORMAL_PRESSURE") },
            54 => PropertyEntry { prop_id: "extract-pressure-for-normal", value: ValueKind::Uint, source: PropertySource::Register("FAN_LEVEL_EAF_NORMAL_PRESSURE") },
            55 => PropertyEntry { prop_id: "supply-pressure-for-high", value: ValueKind::Uint, source: PropertySource::Register("FAN_LEVEL_SAF_HIGH_PRESSURE") },
            56 => PropertyEntry { prop_id: "extract-pressure-for-high", value: ValueKind::Uint, source: PropertySource::Register("FAN_LEVEL_EAF_HIGH_PRESSURE") },
            57 => PropertyEntry { prop_id: "supply-pressure-for-maximum", value: ValueKind::Uint, source: PropertySource::Register("FAN_LEVEL_SAF_MAX_PRESSURE") },
            58 => PropertyEntry { prop_id: "extract-pressure-for-maximum", value: ValueKind::Uint, source: PropertySource::Register("FAN_LEVEL_EAF_MAX_PRESSURE") },
            59 => PropertyEntry { prop_id: "supply-flow-for-minimum", value: ValueKind::Uint, source: PropertySource::Register("FAN_LEVEL_SAF_MIN_FLOW") },
            60 => PropertyEntry { prop_id: "extract-flow-for-minimum", value: ValueKind::Uint, source: PropertySource::Register("FAN_LEVEL_EAF_MIN_FLOW") },
            61 => PropertyEntry { prop_id: "supply-flow-for-low", value: ValueKind::Uint, source: PropertySource::Register("FAN_LEVEL_SAF_LOW_FLOW") },
            62 => PropertyEntry { prop_id: "extract-flow-for-low", value: ValueKind::Uint, source: PropertySource::Register("FAN_LEVEL_EAF_LOW_FLOW") },
            63 => PropertyEntry { prop_id: "supply-flow-for-normal", value: ValueKind::Uint, source: PropertySource::Register("FAN_LEVEL_SAF_NORMAL_FLOW") },
            64 => PropertyEntry { prop_id: "extract-flow-for-normal", value: ValueKind::Uint, source: PropertySource::Register("FAN_LEVEL_EAF_NORMAL_FLOW") },
            65 => PropertyEntry { prop_id: "supply-flow-for-high", value: ValueKind::Uint, source: PropertySource::Register("FAN_LEVEL_SAF_HIGH_FLOW") },
            66 => PropertyEntry { prop_id: "extract-flow-for-high", value: ValueKind::Uint, source: PropertySource::Register("FAN_LEVEL_EAF_HIGH_FLOW") },
            67 => PropertyEntry { prop_id: "supply-flow-for-maximum", value: ValueKind::Uint, source: PropertySource::Register("FAN_LEVEL_SAF_MAX_FLOW") },
            68 => PropertyEntry { prop_id: "extract-flow-for-maximum", value: ValueKind::Uint, source: PropertySource::Register("FAN_LEVEL_EAF_MAX_FLOW") },
            69 => PropertyEntry { prop_id: "min-free-cooling-supply", value: ValueKind::AirflowLevel, source: PropertySource::Register("FREE_COOLING_MIN_SPEED_LEVEL_SAF") },
            70 => PropertyEntry { prop_id: "min-free-cooling-extract", value: ValueKind::AirflowLevel, source: PropertySource::Register("FREE_COOLING_MIN_SPEED_LEVEL_EAF") },
            71 => PropertyEntry { prop_id: "during-active-week-schedule", value: ValueKind::WeeklyScheduleLevel, source: PropertySource::Register("WS_FAN_LEVEL_SCHEDULED") },
            _ => PropertyEntry { prop_id: "during-inactive-week-schedule", value: ValueKind::WeeklyScheduleLevel, source: PropertySource::Register("WS_FAN_LEVEL_UNSCHEDULED") },
        }
    }

    /// The node's properties, in publishing order.
    pub fn properties(&self) -> (r: Vec<PropertyEntry>)
        ensures
            r@.len() == 73,
            forall|i: int| 0 <= i < 73 ==> #[trigger] r@[i] == FanSpeedSettingsNode::property_spec(i),
    {
        let mut r: Vec<PropertyEntry> = Vec::new();
        let mut i: usize = 0;
        while i < 73
            invariant
                i <= 73,
                r@.len() == i,
                forall|k: int| 0 <= k < i ==> #[trigger] r@[k] == FanSpeedSettingsNode::property_spec(k),
            decreases 73 - i,
        {
            r.push(self.property(i));
            i = i + 1;
        }
        r
    }
}

/// The `filter` node: filter state and replacement.
pub struct FilterNode {}

impl FilterNode {
    /// The number of properties of the node.
    pub const PROPERTY_COUNT: usize = 4;

    /// The node.
    pub fn new() -> (r: Self)
        ensures
            r == (FilterNode {}),
    {
        FilterNode {}
    }

    /// The node's Homie id.
    pub fn node_id(&self) -> (r: &'static str)
        ensures
            r@ == "filter"@,
    {
        "filter"
    }

    /// The node's human-readable name.
    pub fn name(&self) -> (r: &'static str)
        ensures
            r@ == "filter state and replacement"@,
    {
        "filter state and replacement"
    }

    /// Property `i` of the node.
    pub open spec fn property_spec(i: int) -> PropertyEntry {
        if i == 0 {
            PropertyEntry { prop_id: "replacement-period", value: ValueKind::ReplacementPeriod, source: PropertySource::Register("FILTER_PERIOD") }
        } else if i == 1 {
            PropertyEntry { prop_id: "remaining-time", value: ValueKind::RemainingTime, source: PropertySource::Aggregate2("FILTER_REMAINING_TIME_L", "FILTER_REMAINING_TIME_H") }
        } else if i == 2 {
            PropertyEntry { prop_id: "should-replace", value: ValueKind::Boolean, source: PropertySource::Register("FILTER_ALARM_WAS_DETECTED") }
        } else {
            PropertyEntry { prop_id: "replace", value: ValueKind::Replace, source: PropertySource::Action }
        }
    }

    /// Property `i` of the node.
    pub fn property(&self, i: usize) -> (r: PropertyEntry)
        requires
            i < 4,
        ensures
            r == FilterNode::property_spec(i as int),
    {
        match i {
            0 => PropertyEntry { prop_id: "replacement-period", value: ValueKind::ReplacementPeriod, source: PropertySource::Register("FILTER_PERIOD") },
            1 => PropertyEntry { prop_id: "remaining-time", value: ValueKind::RemainingTime, source: PropertySource::Aggregate2("FILTER_REMAINING_TIME_L", "FILTER_REMAINING_TIME_H") },
            2 => PropertyEntry { prop_id: "should-replace", value: ValueKind::Boolean, source: PropertySource::Register("FILTER_ALARM_WAS_DETECTED") },
            _ => PropertyEntry { prop_id: "replace", value: ValueKind::Replace, source: PropertySource::Action },
        }
    }

    /// The node's properties, in publishing order.
    pub fn properties(&self) -> (r: Vec<PropertyEntry>)
        ensures
            r@.len() == 4,
            forall|i: int| 0 <= i < 4 ==> #[trigger] r@[i] == FilterNode::property_spec(i),
    {
        let mut r: Vec<PropertyEntry> = Vec::new();
        let mut i: usize = 0;
        while i < 4
            invariant
                i <= 4,
                r@.len() == i,
                forall|k: int| 0 <= k < i ==> #[trigger] r@[k] == FilterNode::property_spec(k),
            decreases 4 - i,
        {
            r.push(self.property(i));
            i = i + 1;
        }
        r
    }
}

/// The `free-cooling` node: indoor cooling using cool night air.
pub struct FreeCoolingNode {}

impl FreeCoolingNode {
    /// The number of properties of the node.
    pub const PROPERTY_COUNT: usize = 8;

    /// The node.
    pub fn new() -> (r: Self)
        ensures
            r == (FreeCoolingNode {}),
    {
        FreeCoolingNode {}
    }

    /// The node's Homie id.
    pub fn node_id(&self) -> (r: &'static str)
        ensures
            r@ == "free-cooling"@,
    {
        "free-cooling"
    }

    /// The node's human-readable name.
    pub fn name(&self) -> (r: &'static str)
        ensures
            r@ == "indoor cooling using cool night air"@,
    {
        "indoor cooling using cool night air"
    }

    /// Property `i` of the node.
    pub open spec fn property_spec(i: int) -> PropertyEntry {
        if i == 0 {
            PropertyEntry { prop_id: "enabled", value: ValueKind::Boolean, source: PropertySource::Register("FREE_COOLING_ON_OFF") }
        } else if i == 1 {
            PropertyEntry { prop_id: "trigger-above-daytime-temperature", value: ValueKind::Celsius, source: PropertySource::Register("FREE_COOLING_OUTDOOR_DAYTIME_T") }
        } else if i == 2 {
            PropertyEntry { prop_id: "stop-above-nighttime-temperature", value: ValueKind::Celsius, source: PropertySource::Register("FREE_COOLING_OUTDOOR_NIGHTTIME_DEACTIVATION_HIGH_T_LIMIT") }
        } else if i == 3 {
            PropertyEntry { prop_id: "stop-below-nighttime-temperature", value: ValueKind::Celsius, source: PropertySource::Register("FREE_COOLING_OUTDOOR_NIGHTTIME_DEACTIVATION_LOW_T_LIMIT") }
        } else if i == 4 {
            PropertyEntry { prop_id: "stop-below-room-temperature", value: ValueKind::Celsius, source: PropertySource::Register("FREE_COOLING_ROOM_CANCEL_T") }
        } else if i == 5 {
            PropertyEntry { prop_id: "start-time", value: ValueKind::Time, source: PropertySource::Aggregate2("FREE_COOLING_START_TIME_H", "FREE_COOLING_START_TIME_M") }
        } else if i == 6 {
            PropertyEntry { prop_id: "end-time", value: ValueKind::Time, source: PropertySource::Aggregate2("FREE_COOLING_END_TIME_H", "FREE_COOLING_END_TIME_M") }
        } else {
            PropertyEntry { prop_id: "active", value: ValueKind::Boolean, source: PropertySource::Register("FREE_COOLING_ACTIVE") }
        }
    }

    /// Property `i` of the node.
    pub fn property(&self, i: usize) -> (r: PropertyEntry)
        requires
            i < 8,
        ensures
            r == FreeCoolingNode::property_spec(i as int),
    {
        match i {
            0 => PropertyEntry { prop_id: "enabled", value: ValueKind::Boolean, source: PropertySource::Register("FREE_COOLING_ON_OFF") },
            1 => PropertyEntry { prop_id: "trigger-above-daytime-temperature", value: ValueKind::Celsius, source: PropertySource::Register("FREE_COOLING_OUTDOOR_DAYTIME_T") },
            2 => PropertyEntry { prop_id: "stop-above-nighttime-temperature", value: ValueKind::Celsius, source: PropertySource::Register("FREE_COOLING_OUTDOOR_NIGHTTIME_DEACTIVATION_HIGH_T_LIMIT") },
            3 => PropertyEntry { prop_id: "stop-below-nighttime-temperature", value: ValueKind::Celsius, source: PropertySource::Register("FREE_COOLING_OUTDOOR_NIGHTTIME_DEACTIVATION_LOW_T_LIMIT") },
            4 => PropertyEntry { prop_id: "stop-below-room-temperature", value: ValueKind::Celsius, source: PropertySource::Register("FREE_COOLING_ROOM_CANCEL_T") },
            5 => PropertyEntry { prop_id: "start-time", value: ValueKind::Time, source: PropertySource::Aggregate2("FREE_COOLING_START_TIME_H", "FREE_COOLING_START_TIME_M") },
            6 => PropertyEntry { prop_id: "end-time", value: ValueKind::Time, source: PropertySource::Aggregate2("FREE_COOLING_END_TIME_H", "FREE_COOLING_END_TIME_M") },
            _ => PropertyEntry { prop_id: "active", value: ValueKind::Boolean, source: PropertySource::Register("FREE_COOLING_ACTIVE") },
        }
    }

    /// The node's properties, in publishing order.
    pub fn properties(&self) -> (r: Vec<PropertyEntry>)
        ensures
            r@.len() == 8,
            forall|i: int| 0 <= i < 8 ==> #[trigger] r@[i] == FreeCoolingNode::property_spec(i),
    {
        let mut r: Vec<PropertyEntry> = Vec::new();
        let mut i: usize = 0;
        while i < 8
            invariant
                i <= 8,
                r@.len() == i,
                forall|k: int| 0 <= k < i ==> #[trigger] r@[k] == FreeCoolingNode::property_spec(k),
            decreases 8 - i,
        {
            r.push(self.property(i));
            i = i + 1;
        }
        r
    }
}

/// The `heat-exchanger` node: the heat exchanger, its status and configuration.
pub struct HeatExchangerNode {}

impl HeatExchangerNode {
    /// The number of properties of the node.
    pub const PROPERTY_COUNT: usize = 15;

    /// The node.
    pub fn new() -> (r: Self)
        ensures
            r == (HeatExchangerNode {}),
    {
        HeatExchangerNode {}
    }

    /// The node's Homie id.
    pub fn node_id(&self) -> (r: &'static str)
        ensures
            r@ == "heat-exchanger"@,
    {
        "heat-exchanger"
    }

    /// The node's human-readable name.
    pub fn name(&self) -> (r: &'static str)
        ensures
            r@ == "the heat exchanger, its status and configuration"@,
    {
        "the heat exchanger, its status and configuration"
    }

    /// Property `i` of the node.
    pub open spec fn property_spec(i: int) -> PropertyEntry {
        if i == 0 {
            PropertyEntry { prop_id: "active", value: ValueKind::Boolean, source: PropertySource::Register("FUNCTION_ACTIVE_HEAT_RECOVERY") }
        } else if i == 1 {
            PropertyEntry { prop_id: "current-speed", value: ValueKind::Uint, source: PropertySource::Register("OUTPUT_Y2_ANALOG") }
        } else if i == 2 {
            PropertyEntry { prop_id: "defrosting-active", value: ValueKind::Boolean, source: PropertySource::Register("FUNCTION_ACTIVE_DEFROSTING") }
        } else if i == 3 {
            PropertyEntry { prop_id: "enable-cooling-recovery", value: ValueKind::Boolean, source: PropertySource::Register("HEAT_EXCHANGER_COOLING_RECOVERY_ON_OFF") }
        } else if i == 4 {
            PropertyEntry { prop_id: "cooling-recovery-active", value: ValueKind::Boolean, source: PropertySource::Register("FUNCTION_ACTIVE_COOLING_RECOVERY") }
        } else if i == 5 {
            PropertyEntry { prop_id: "enable-humidity-transfer", value: ValueKind::Boolean, source: PropertySource::Register("ROTOR_RH_TRANSFER_CTRL_ON_OFF") }
        } else if i == 6 {
            PropertyEntry { prop_id: "humidity-transfer-active", value: ValueKind::Boolean, source: PropertySource::Register("FUNCTION_ACTIVE_MOISTURE_TRANSFER") }
        } else if i == 7 {
            PropertyEntry { prop_id: "humidity-transfer-setpoint", value: ValueKind::Celsius, source: PropertySource::Register("ROTOR_RH_TRANSFER_CTRL_SETPOINT") }
        } else if i == 8 {
            PropertyEntry { prop_id: "humidity-transfer-pband", value: ValueKind::Uint, source: PropertySource::Register("ROTOR_RH_TRANSFER_CTRL_PBAND") }
        } else if i == 9 {
            PropertyEntry { prop_id: "humidity-transfer-itime", value: ValueKind::Uint, source: PropertySource::Register("ROTOR_RH_TRANSFER_CTRL_ITIME") }
        } else if i == 10 {
            PropertyEntry { prop_id: "speed-limit-for-humidity-transfer", value: ValueKind::Uint, source: PropertySource::Register("HEAT_EXCHANGER_SPEED_LIMIT_RH_TRANSFER") }
        } else if i == 11 {
            PropertyEntry { prop_id: "current-extract-air-humidity", value: ValueKind::SpecificHumidity, source: PropertySource::Register("ROTOR_EA_SPEC_HUMIDITY") }
        } else if i == 12 {
            PropertyEntry { prop_id: "current-outdoor-air-humidity", value: ValueKind::SpecificHumidity, source: PropertySource::Register("ROTOR_OA_SPEC_HUMIDITY") }
        } else if i == 13 {
            PropertyEntry { prop_id: "current-extract-air-humidity-setpoint", value: ValueKind::SpecificHumidity, source: PropertySource::Register("ROTOR_EA_SPEC_HUMIDITY_SETPOINT") }
        } else {
            PropertyEntry { prop_id: "current-frost-protection-sensor-temperature", value: ValueKind::Celsius, source: PropertySource::Register("SENSOR_FPT") }
        }
    }

    /// Property `i` of the node.
    pub fn property(&self, i: usize) -> (r: PropertyEntry)
        requires
            i < 15,
        ensures
            r == HeatExchangerNode::property_spec(i as int),
    {
        match i {
            0 => PropertyEntry { prop_id: "active", value: ValueKind::Boolean, source: PropertySource::Register("FUNCTION_ACTIVE_HEAT_RECOVERY") },
            1 => PropertyEntry { prop_id: "current-speed", value: ValueKind::Uint, source: PropertySource::Register("OUTPUT_Y2_ANALOG") },
            2 => PropertyEntry { prop_id: "defrosting-active", value: ValueKind::Boolean, source: PropertySource::Register("FUNCTION_ACTIVE_DEFROSTING") },
            3 => PropertyEntry { prop_id: "enable-cooling-recovery", value: ValueKind::Boolean, source: PropertySource::Register("HEAT_EXCHANGER_COOLING_RECOVERY_ON_OFF") },
            4 => PropertyEntry { prop_id: "cooling-recovery-active", value: ValueKind::Boolean, source: PropertySource::Register("FUNCTION_ACTIVE_COOLING_RECOVERY") },
            5 => PropertyEntry { prop_id: "enable-humidity-transfer", value: ValueKind::Boolean, source: PropertySource::Register("ROTOR_RH_TRANSFER_CTRL_ON_OFF") },
            6 => PropertyEntry { prop_id: "humidity-transfer-active", value: ValueKind::Boolean, source: PropertySource::Register("FUNCTION_ACTIVE_MOISTURE_TRANSFER") },
            7 => PropertyEntry { prop_id: "humidity-transfer-setpoint", value: ValueKind::Celsius, source: PropertySource::Register("ROTOR_RH_TRANSFER_CTRL_SETPOINT") },
            8 => PropertyEntry { prop_id: "humidity-transfer-pband", value: ValueKind::Uint, source: PropertySource::Register("ROTOR_RH_TRANSFER_CTRL_PBAND") },
            9 => PropertyEntry { prop_id: "humidity-transfer-itime", value: ValueKind::Uint, source: PropertySource::Register("ROTOR_RH_TRANSFER_CTRL_ITIME") },
            10 => PropertyEntry { prop_id: "speed-limit-for-humidity-transfer", value: ValueKind::Uint, source: PropertySource::Register("HEAT_EXCHANGER_SPEED_LIMIT_RH_TRANSFER") },
            11 => PropertyEntry { prop_id: "current-extract-air-humidity", value: ValueKind::SpecificHumidity, source: PropertySource::Register("ROTOR_EA_SPEC_HUMIDITY") },
            12 => PropertyEntry { prop_id: "current-outdoor-air-humidity", value: ValueKind::SpecificHumidity, source: PropertySource::Register("ROTOR_OA_SPEC_HUMIDITY") },
            13 => PropertyEntry { prop_id: "current-extract-air-humidity-setpoint", value: ValueKind::SpecificHumidity, source: PropertySource::Register("ROTOR_EA_SPEC_HUMIDITY_SETPOINT") },
            _ => PropertyEntry { prop_id: "current-frost-protection-sensor-temperature", value: ValueKind::Celsius, source: PropertySource::Register("SENSOR_FPT") },
        }
    }

    /// The node's properties, in publishing order.
    pub fn properties(&self) -> (r: Vec<PropertyEntry>)
        ensures
            r@.len() == 15,
            forall|i: int| 0 <= i < 15 ==> #[trigger] r@[i] == HeatExchangerNode::property_spec(i),
    {
        let mut r: Vec<PropertyEntry> = Vec::new();
        let mut i: usize = 0;
        while i < 15
            invariant
                i <= 15,
                r@.len() == i,
                forall|k: int| 0 <= k < i ==> #[trigger] r@[k] == HeatExchangerNode::property_spec(k),
            decreases 15 - i,
        {
            r.push(self.property(i));
            i = i + 1;
        }
        r
    }
}

/// The `heater` node: resistive heater for supply air temperature control.
pub struct HeaterNode {}

impl HeaterNode {
    /// The number of properties of the node.
    pub const PROPERTY_COUNT: usize = 10;

    /// The node.
    pub fn new() -> (r: Self)
        ensures
            r == (HeaterNode {}),
    {
        HeaterNode {}
    }

    /// The node's Homie id.
    pub fn node_id(&self) -> (r: &'static str)
        ensures
            r@ == "heater"@,
    {
        "heater"
    }

    /// The node's human-readable name.
    pub fn name(&self) -> (r: &'static str)
        ensures
            r@ == "resistive heater for supply air temperature control"@,
    {
        "resistive heater for supply air temperature control"
    }

    /// Property `i` of the node.
    pub open spec fn property_spec(i: int) -> PropertyEntry {
        if i == 0 {
            PropertyEntry { prop_id: "cooldown-active", value: ValueKind::Boolean, source: PropertySource::Register("FUNCTION_ACTIVE_HEATER_COOL_DOWN") }
        } else if i == 1 {
            PropertyEntry { prop_id: "remaining-cooldown-time", value: ValueKind::CooldownDuration, source: PropertySource::Register("SPEED_ELECTRICAL_HEATER_HOT_COUNTER") }
        } else if i == 2 {
            PropertyEntry { prop_id: "demand", value: ValueKind::Uint, source: PropertySource::Register("SATC_HEAT_DEMAND") }
        } else if i == 3 {
            PropertyEntry { prop_id: "active", value: ValueKind::Boolean, source: PropertySource::Register("FUNCTION_ACTIVE_HEATING") }
        } else if i == 4 {
            PropertyEntry { prop_id: "current", value: ValueKind::Uint, source: PropertySource::Register("PWM_TRIAC_OUTPUT") }
        } else if i == 5 {
            PropertyEntry { prop_id: "enable-eco", value: ValueKind::Boolean, source: PropertySource::Register("ECO_MODE_ON_OFF") }
        } else if i == 6 {
            PropertyEntry { prop_id: "eco-active", value: ValueKind::Boolean, source: PropertySource::Register("ECO_FUNCTION_ACTIVE") }
        } else if i == 7 {
            PropertyEntry { prop_id: "eco-temperature-offset", value: ValueKind::Celsius, source: PropertySource::Register("ECO_T_Y1_OFFSET") }
        } else if i == 8 {
            PropertyEntry { prop_id: "circulation-pump-start-temperature", value: ValueKind::Celsius, source: PropertySource::Register("HEATER_CIRC_PUMP_START_T") }
        } else {
            PropertyEntry { prop_id: "circulation-pump-stop-delay", value: ValueKind::StopDelay, source: PropertySource::Register("HEATER_CIRC_PUMP_START_T") }
        }
    }

    /// Property `i` of the node.
    pub fn property(&self, i: usize) -> (r: PropertyEntry)
        requires
            i < 10,
        ensures
            r == HeaterNode::property_spec(i as int),
    {
        match i {
            0 => PropertyEntry { prop_id: "cooldown-active", value: ValueKind::Boolean, source: PropertySource::Register("FUNCTION_ACTIVE_HEATER_COOL_DOWN") },
            1 => PropertyEntry { prop_id: "remaining-cooldown-time", value: ValueKind::CooldownDuration, source: PropertySource::Register("SPEED_ELECTRICAL_HEATER_HOT_COUNTER") },
            2 => PropertyEntry { prop_id: "demand", value: ValueKind::Uint, source: PropertySource::Register("SATC_HEAT_DEMAND") },
            3 => PropertyEntry { prop_id: "active", value: ValueKind::Boolean, source: PropertySource::Register("FUNCTION_ACTIVE_HEATING") },
            4 => PropertyEntry { prop_id: "current", value: ValueKind::Uint, source: PropertySource::Register("PWM_TRIAC_OUTPUT") },
            5 => PropertyEntry { prop_id: "enable-eco", value: ValueKind::Boolean, source: PropertySource::Register("ECO_MODE_ON_OFF") },
            6 => PropertyEntry { prop_id: "eco-active", value: ValueKind::Boolean, source: PropertySource::Register("ECO_FUNCTION_ACTIVE") },
            7 => PropertyEntry { prop_id: "eco-temperature-offset", value: ValueKind::Celsius, source: PropertySource::Register("ECO_T_Y1_OFFSET") },
            8 => PropertyEntry { prop_id: "circulation-pump-start-temperature", value: ValueKind::Celsius, source: PropertySource::Register("HEATER_CIRC_PUMP_START_T") },
            _ => PropertyEntry { prop_id: "circulation-pump-stop-delay", value: ValueKind::StopDelay, source: PropertySource::Register("HEATER_CIRC_PUMP_START_T") },
        }
    }

    /// The node's properties, in publishing order.
    pub fn properties(&self) -> (r: Vec<PropertyEntry>)
        ensures
            r@.len() == 10,
            forall|i: int| 0 <= i < 10 ==> #[trigger] r@[i] == HeaterNode::property_spec(i),
    {
        let mut r: Vec<PropertyEntry> = Vec::new();
        let mut i: usize = 0;
        while i < 10
            invariant
                i <= 10,
                r@.len() == i,
                forall|k: int| 0 <= k < i ==> #[trigger] r@[k] == HeaterNode::property_spec(k),
            decreases 10 - i,
        {
            r.push(self.property(i));
            i = i + 1;
        }
        r
    }
}

/// The `inputs` node: inputs and their configuration.
pub struct InputNode {}

impl InputNode {
    /// The number of properties of the node.
    pub const PROPERTY_COUNT: usize = 4;

    /// The node.
    pub fn new() -> (r: Self)
        ensures
            r == (InputNode {}),
    {
        InputNode {}
    }

    /// The node's Homie id.
    pub fn node_id(&self) -> (r: &'static str)
        ensures
            r@ == "inputs"@,
    {
        "inputs"
    }

    /// The node's human-readable name.
    pub fn name(&self) -> (r: &'static str)
        ensures
            r@ == "inputs and their configuration"@,
    {
        "inputs and their configuration"
    }

    /// Property `i` of the node.
    pub open spec fn property_spec(i: int) -> PropertyEntry {
        if i == 0 {
            PropertyEntry { prop_id: "digital-input-1-connection", value: ValueKind::DigitalInputConnection, source: PropertySource::Register("DI_CONNECTION_1") }
        } else if i == 1 {
            PropertyEntry { prop_id: "digital-input-2-connection", value: ValueKind::DigitalInputConnection, source: PropertySource::Register("DI_CONNECTION_2") }
        } else if i == 2 {
            PropertyEntry { prop_id: "digital-input-1-polarity", value: ValueKind::DigitalInputPolarity, source: PropertySource::Register("DI_CFG_POLARITY_1") }
        } else {
            PropertyEntry { prop_id: "digital-input-2-polarity", value: ValueKind::DigitalInputPolarity, source: PropertySource::Register("DI_CFG_POLARITY_2") }
        }
    }

    /// Property `i` of the node.
    pub fn property(&self, i: usize) -> (r: PropertyEntry)
        requires
            i < 4,
        ensures
            r == InputNode::property_spec(i as int),
    {
        match i {
            0 => PropertyEntry { prop_id: "digital-input-1-connection", value: ValueKind::DigitalInputConnection, source: PropertySource::Register("DI_CONNECTION_1") },
            1 => PropertyEntry { prop_id: "digital-input-2-connection", value: ValueKind::DigitalInputConnection, source: PropertySource::Register("DI_CONNECTION_2") },
            2 => PropertyEntry { prop_id: "digital-input-1-polarity", value: ValueKind::DigitalInputPolarity, source: PropertySource::Register("DI_CFG_POLARITY_1") },
            _ => PropertyEntry { prop_id: "digital-input-2-polarity", value: ValueKind::DigitalInputPolarity, source: PropertySource::Register("DI_CFG_POLARITY_2") },
        }
    }

    /// The node's properties, in publishing order.
    pub fn properties(&self) -> (r: Vec<PropertyEntry>)
        ensures
            r@.len() == 4,
            forall|i: int| 0 <= i < 4 ==> #[trigger] r@[i] == InputNode::property_spec(i),
    {
        let mut r: Vec<PropertyEntry> = Vec::new();
        let mut i: usize = 0;
        while i < 4
            invariant
                i <= 4,
                r@.len() == i,
                forall|k: int| 0 <= k < i ==> #[trigger] r@[k] == InputNode::property_spec(k),
            decreases 4 - i,
        {
            r.push(self.property(i));
            i = i + 1;
        }
        r
    }
}

/// The `mode` node: settings for device operating modes.
pub struct ModeNode {}

impl ModeNode {
    /// The number of properties of the node.
    pub const PROPERTY_COUNT: usize = 26;

    /// The node.
    pub fn new() -> (r: Self)
        ensures
            r == (ModeNode {}),
    {
        ModeNode {}
    }

    /// The node's Homie id.
    pub fn node_id(&self) -> (r: &'static str)
        ensures
            r@ == "mode"@,
    {
        "mode"
    }

    /// The node's human-readable name.
    pub fn name(&self) -> (r: &'static str)
        ensures
            r@ == "settings for device operating modes"@,
    {
        "settings for device operating modes"
    }

    /// Property `i` of the node.
    pub open spec fn property_spec(i: int) -> PropertyEntry {
        if i == 0 {
            PropertyEntry { prop_id: "holiday-duration", value: ValueKind::Uint, source: PropertySource::Register("USERMODE_HOLIDAY_TIME") }
        } else if i == 1 {
            PropertyEntry { prop_id: "holiday-digital-input-off-delay", value: ValueKind::Uint, source: PropertySource::Register("USERMODE_HOLIDAY_DI_OFF_DELAY") }
        } else if i == 2 {
            PropertyEntry { prop_id: "away-duration", value: ValueKind::Uint, source: PropertySource::Register("USERMODE_AWAY_TIME") }
        } else if i == 3 {
            PropertyEntry { prop_id: "away-digital-input-off-delay", value: ValueKind::Uint, source: PropertySource::Register("USERMODE_AWAY_DI_OFF_DELAY") }
        } else if i == 4 {
            PropertyEntry { prop_id: "fireplace-duration", value: ValueKind::Uint, source: PropertySource::Register("USERMODE_FIREPLACE_TIME") }
        } else if i == 5 {
            PropertyEntry { prop_id: "fireplace-digital-input-off-delay", value: ValueKind::Uint, source: PropertySource::Register("USERMODE_FIRPLACE_DI_OFF_DELAY") }
        } else if i == 6 {
            PropertyEntry { prop_id: "refresh-duration", value: ValueKind::Uint, source: PropertySource::Register("USERMODE_REFRESH_TIME") }
        } else if i == 7 {
            PropertyEntry { prop_id: "refresh-digital-input-off-delay", value: ValueKind::Uint, source: PropertySource::Register("USERMODE_REFRESH_DI_OFF_DELAY") }
        } else if i == 8 {
            PropertyEntry { prop_id: "crowded-duration", value: ValueKind::Uint, source: PropertySource::Register("USERMODE_CROWDED_TIME") }
        } else if i == 9 {
            PropertyEntry { prop_id: "crowded-digital-input-off-delay", value: ValueKind::Uint, source: PropertySource::Register("USERMODE_CROWDED_DI_OFF_DELAY") }
        } else if i == 10 {
            PropertyEntry { prop_id: "digital-input-1-off-delay", value: ValueKind::Uint, source: PropertySource::Register("CDI1_OFF_DELAY") }
        } else if i == 11 {
            PropertyEntry { prop_id: "digital-input-2-off-delay", value: ValueKind::Uint, source: PropertySource::Register("CDI2_OFF_DELAY") }
        } else if i == 12 {
            PropertyEntry { prop_id: "digital-input-3-off-delay", value: ValueKind::Uint, source: PropertySource::Register("CDI3_OFF_DELAY") }
        } else if i == 13 {
            PropertyEntry { prop_id: "remaining-duration", value: ValueKind::RemainingTime, source: PropertySource::Aggregate2("USERMODE_REMAINING_TIME_L", "USERMODE_REMAINING_TIME_H") }
        } else if i == 14 {
            PropertyEntry { prop_id: "ditigal-input-1-remaining-duration", value: ValueKind::RemainingTime, source: PropertySource::Aggregate2("USERMODE_REMAINING_TIME_CDI1_L", "USERMODE_REMAINING_TIME_CDI1_H") }
        } else if i == 15 {
            PropertyEntry { prop_id: "ditigal-input-2-remaining-duration", value: ValueKind::RemainingTime, source: PropertySource::Aggregate2("USERMODE_REMAINING_TIME_CDI2_L", "USERMODE_REMAINING_TIME_CDI2_H") }
        } else if i == 16 {
            PropertyEntry { prop_id: "ditigal-input-3-remaining-duration", value: ValueKind::RemainingTime, source: PropertySource::Aggregate2("USERMODE_REMAINING_TIME_CDI3_L", "USERMODE_REMAINING_TIME_CDI3_H") }
        } else if i == 17 {
            PropertyEntry { prop_id: "digital-input-1-active", value: ValueKind::Boolean, source: PropertySource::Register("FUNCTION_ACTIVE_CDI_1") }
        } else if i == 18 {
            PropertyEntry { prop_id: "digital-input-2-active", value: ValueKind::Boolean, source: PropertySource::Register("FUNCTION_ACTIVE_CDI_2") }
        } else if i == 19 {
            PropertyEntry { prop_id: "digital-input-3-active", value: ValueKind::Boolean, source: PropertySource::Register("FUNCTION_ACTIVE_CDI_3") }
        } else if i == 20 {
            PropertyEntry { prop_id: "pressure-guard-active", value: ValueKind::Boolean, source: PropertySource::Register("FUNCTION_ACTIVE_PRESSURE_GUARD") }
        } else if i == 21 {
            PropertyEntry { prop_id: "cooker-hood-active", value: ValueKind::Boolean, source: PropertySource::Register("FUNCTION_ACTIVE_COOKER_HOOD") }
        } else if i == 22 {
            PropertyEntry { prop_id: "vacuum-cleaner-active", value: ValueKind::Boolean, source: PropertySource::Register("FUNCTION_ACTIVE_VACUUM_CLEANER") }
        } else if i == 23 {
            PropertyEntry { prop_id: "secondary-air-active", value: ValueKind::Boolean, source: PropertySource::Register("FUNCTION_ACTIVE_SECONDARY_AIR") }
        } else if i == 24 {
            PropertyEntry { prop_id: "crowded-temperature-setpoint-offset", value: ValueKind::Celsius, source: PropertySource::Register("USERMODE_CROWDED_T_OFFSET") }
        } else {
            PropertyEntry { prop_id: "current", value: ValueKind::CurrentMode, source: PropertySource::Aggregate1("USERMODE_MODE") }
        }
    }

    /// Property `i` of the node.
    pub fn property(&self, i: usize) -> (r: PropertyEntry)
        requires
            i < 26,
        ensures
            r == ModeNode::property_spec(i as int),
    {
        match i {
            0 => PropertyEntry { prop_id: "holiday-duration", value: ValueKind::Uint, source: PropertySource::Register("USERMODE_HOLIDAY_TIME") },
            1 => PropertyEntry { prop_id: "holiday-digital-input-off-delay", value: ValueKind::Uint, source: PropertySource::Register("USERMODE_HOLIDAY_DI_OFF_DELAY") },
            2 => PropertyEntry { prop_id: "away-duration", value: ValueKind::Uint, source: PropertySource::Register("USERMODE_AWAY_TIME") },
            3 => PropertyEntry { prop_id: "away-digital-input-off-delay", value: ValueKind::Uint, source: PropertySource::Register("USERMODE_AWAY_DI_OFF_DELAY") },
            4 => PropertyEntry { prop_id: "fireplace-duration", value: ValueKind::Uint, source: PropertySource::Register("USERMODE_FIREPLACE_TIME") },
            5 => PropertyEntry { prop_id: "fireplace-digital-input-off-delay", value: ValueKind::Uint, source: PropertySource::Register("USERMODE_FIRPLACE_DI_OFF_DELAY") },
            6 => PropertyEntry { prop_id: "refresh-duration", value: ValueKind::Uint, source: PropertySource::Register("USERMODE_REFRESH_TIME") },
            7 => PropertyEntry { prop_id: "refresh-digital-input-off-delay", value: ValueKind::Uint, source: PropertySource::Register("USERMODE_REFRESH_DI_OFF_DELAY") },
            8 => PropertyEntry { prop_id: "crowded-duration", value: ValueKind::Uint, source: PropertySource::Register("USERMODE_CROWDED_TIME") },
            9 => PropertyEntry { prop_id: "crowded-digital-input-off-delay", value: ValueKind::Uint, source: PropertySource::Register("USERMODE_CROWDED_DI_OFF_DELAY") },
            10 => PropertyEntry { prop_id: "digital-input-1-off-delay", value: ValueKind::Uint, source: PropertySource::Register("CDI1_OFF_DELAY") },
            11 => PropertyEntry { prop_id: "digital-input-2-off-delay", value: ValueKind::Uint, source: PropertySource::Register("CDI2_OFF_DELAY") },
            12 => PropertyEntry { prop_id: "digital-input-3-off-delay", value: ValueKind::Uint, source: PropertySource::Register("CDI3_OFF_DELAY") },
            13 => PropertyEntry { prop_id: "remaining-duration", value: ValueKind::RemainingTime, source: PropertySource::Aggregate2("USERMODE_REMAINING_TIME_L", "USERMODE_REMAINING_TIME_H") },
            14 => PropertyEntry { prop_id: "ditigal-input-1-remaining-duration", value: ValueKind::RemainingTime, source: PropertySource::Aggregate2("USERMODE_REMAINING_TIME_CDI1_L", "USERMODE_REMAINING_TIME_CDI1_H") },
            15 => PropertyEntry { prop_id: "ditigal-input-2-remaining-duration", value: ValueKind::RemainingTime, source: PropertySource::Aggregate2("USERMODE_REMAINING_TIME_CDI2_L", "USERMODE_REMAINING_TIME_CDI2_H") },
            16 => PropertyEntry { prop_id: "ditigal-input-3-remaining-duration", value: ValueKind::RemainingTime, source: PropertySource::Aggregate2("USERMODE_REMAINING_TIME_CDI3_L", "USERMODE_REMAINING_TIME_CDI3_H") },
            17 => PropertyEntry { prop_id: "digital-input-1-active", value: ValueKind::Boolean, source: PropertySource::Register("FUNCTION_ACTIVE_CDI_1") },
            18 => PropertyEntry { prop_id: "digital-input-2-active", value: ValueKind::Boolean, source: PropertySource::Register("FUNCTION_ACTIVE_CDI_2") },
            19 => PropertyEntry { prop_id: "digital-input-3-active", value: ValueKind::Boolean, source: PropertySource::Register("FUNCTION_ACTIVE_CDI_3") },
            20 => PropertyEntry { prop_id: "pressure-guard-active", value: ValueKind::Boolean, source: PropertySource::Register("FUNCTION_ACTIVE_PRESSURE_GUARD") },
            21 => PropertyEntry { prop_id: "cooker-hood-active", value: ValueKind::Boolean, source: PropertySource::Register("FUNCTION_ACTIVE_COOKER_HOOD") },
            22 => PropertyEntry { prop_id: "vacuum-cleaner-active", value: ValueKind::Boolean, source: PropertySource::Register("FUNCTION_ACTIVE_VACUUM_CLEANER") },
            23 => PropertyEntry { prop_id: "secondary-air-active", value: ValueKind::Boolean, source: PropertySource::Register("FUNCTION_ACTIVE_SECONDARY_AIR") },
            24 => PropertyEntry { prop_id: "crowded-temperature-setpoint-offset", value: ValueKind::Celsius, source: PropertySource::Register("USERMODE_CROWDED_T_OFFSET") },
            _ => PropertyEntry { prop_id: "current", value: ValueKind::CurrentMode, source: PropertySource::Aggregate1("USERMODE_MODE") },
        }
    }

    /// The node's properties, in publishing order.
    pub fn properties(&self) -> (r: Vec<PropertyEntry>)
        ensures
            r@.len() == 26,
            forall|i: int| 0 <= i < 26 ==> #[trigger] r@[i] == ModeNode::property_spec(i),
    {
        let mut r: Vec<PropertyEntry> = Vec::new();
        let mut i: usize = 0;
        while i < 26
            invariant
                i <= 26,
                r@.len() == i,
                forall|k: int| 0 <= k < i ==> #[trigger] r@[k] == ModeNode::property_spec(k),
            decreases 26 - i,
        {
            r.push(self.property(i));
            i = i + 1;
        }
        r
    }
}

/// The `temperature-controller` node: temperature controller and its settings.
pub struct TemperatureControllerNode {}

impl TemperatureControllerNode {
    /// The number of properties of the node.
    pub const PROPERTY_COUNT: usize = 13;

    /// The node.
    pub fn new() -> (r: Self)
        ensures
            r == (TemperatureControllerNode {}),
    {
        TemperatureControllerNode {}
    }

    /// The node's Homie id.
    pub fn node_id(&self) -> (r: &'static str)
        ensures
            r@ == "temperature-controller"@,
    {
        "temperature-controller"
    }

    /// The node's human-readable name.
    pub fn name(&self) -> (r: &'static str)
        ensures
            r@ == "temperature controller and its settings"@,
    {
        "temperature controller and its settings"
    }

    /// Property `i` of the node.
    pub open spec fn property_spec(i: int) -> PropertyEntry {
        if i == 0 {
            PropertyEntry { prop_id: "setpoint", value: ValueKind::Celsius, source: PropertySource::Register("TC_SP") }
        } else if i == 1 {
            PropertyEntry { prop_id: "cascade-room-setpoint", value: ValueKind::Celsius, source: PropertySource::Register("TC_CASCADE_SP") }
        } else if i == 2 {
            PropertyEntry { prop_id: "cascade-min-supply-air-setpoint", value: ValueKind::Celsius, source: PropertySource::Register("TC_CASCADE_SP_MIN") }
        } else if i == 3 {
            PropertyEntry { prop_id: "cascade-max-supply-air-setpoint", value: ValueKind::Celsius, source: PropertySource::Register("TC_CASCADE_SP_MAX") }
        } else if i == 4 {
            PropertyEntry { prop_id: "mode", value: ValueKind::ControlMode, source: PropertySource::Register("TC_CONTROL_MODE") }
        } else if i == 5 {
            PropertyEntry { prop_id: "current-extract-air-setpoint", value: ValueKind::Celsius, source: PropertySource::Register("TC_EAT_RAT_SP") }
        } else if i == 6 {
            PropertyEntry { prop_id: "current-room-setpoint", value: ValueKind::Celsius, source: PropertySource::Register("TC_EAT_RAT_SP") }
        } else if i == 7 {
            PropertyEntry { prop_id: "current-supply-air-setpoint", value: ValueKind::Celsius, source: PropertySource::Register("TC_SP_SATC") }
        } else if i == 8 {
            PropertyEntry { prop_id: "current-room-control-supply-air-setpoint", value: ValueKind::Celsius, source: PropertySource::Register("TC_ROOM_CTRL_SP_SATC") }
        } else if i == 9 {
            PropertyEntry { prop_id: "current-outdoor-air-temperature", value: ValueKind::Celsius, source: PropertySource::Register("SENSOR_OAT") }
        } else if i == 10 {
            PropertyEntry { prop_id: "current-supply-air-temperature", value: ValueKind::Celsius, source: PropertySource::Register("SENSOR_SAT") }
        } else if i == 11 {
            PropertyEntry { prop_id: "current-room-temperature", value: ValueKind::Celsius, source: PropertySource::Register("SENSOR_RAT") }
        } else {
            PropertyEntry { prop_id: "current-extract-air-temperature", value: ValueKind::Celsius, source: PropertySource::Register("SENSOR_PDM_EAT_VALUE") }
        }
    }

    /// Property `i` of the node.
    pub fn property(&self, i: usize) -> (r: PropertyEntry)
        requires
            i < 13,
        ensures
            r == TemperatureControllerNode::property_spec(i as int),
    {
        match i {
            0 => PropertyEntry { prop_id: "setpoint", value: ValueKind::Celsius, source: PropertySource::Register("TC_SP") },
            1 => PropertyEntry { prop_id: "cascade-room-setpoint", value: ValueKind::Celsius, source: PropertySource::Register("TC_CASCADE_SP") },
            2 => PropertyEntry { prop_id: "cascade-min-supply-air-setpoint", value: ValueKind::Celsius, source: PropertySource::Register("TC_CASCADE_SP_MIN") },
            3 => PropertyEntry { prop_id: "cascade-max-supply-air-setpoint", value: ValueKind::Celsius, source: PropertySource::Register("TC_CASCADE_SP_MAX") },
            4 => PropertyEntry { prop_id: "mode", value: ValueKind::ControlMode, source: PropertySource::Register("TC_CONTROL_MODE") },
            5 => PropertyEntry { prop_id: "current-extract-air-setpoint", value: ValueKind::Celsius, source: PropertySource::Register("TC_EAT_RAT_SP") },
            6 => PropertyEntry { prop_id: "current-room-setpoint", value: ValueKind::Celsius, source: PropertySource::Register("TC_EAT_RAT_SP") },
            7 => PropertyEntry { prop_id: "current-supply-air-setpoint", value: ValueKind::Celsius, source: PropertySource::Register("TC_SP_SATC") },
            8 => PropertyEntry { prop_id: "current-room-control-supply-air-setpoint", value: ValueKind::Celsius, source: PropertySource::Register("TC_ROOM_CTRL_SP_SATC") },
            9 => PropertyEntry { prop_id: "current-outdoor-air-temperature", value: ValueKind::Celsius, source: PropertySource::Register("SENSOR_OAT") },
            10 => PropertyEntry { prop_id: "current-supply-air-temperature", value: ValueKind::Celsius, source: PropertySource::Register("SENSOR_SAT") },
            11 => PropertyEntry { prop_id: "current-room-temperature", value: ValueKind::Celsius, source: PropertySource::Register("SENSOR_RAT") },
            _ => PropertyEntry { prop_id: "current-extract-air-temperature", value: ValueKind::Celsius, source: PropertySource::Register("SENSOR_PDM_EAT_VALUE") },
        }
    }

    /// The node's properties, in publishing order.
    pub fn properties(&self) -> (r: Vec<PropertyEntry>)
        ensures
            r@.len() == 13,
            forall|i: int| 0 <= i < 13 ==> #[trigger] r@[i] == TemperatureControllerNode::property_spec(i),
    {
        let mut r: Vec<PropertyEntry> = Vec::new();
        let mut i: usize = 0;
        while i < 13
            invariant
                i <= 13,
                r@.len() == i,
                forall|k: int| 0 <= k < i ==> #[trigger] r@[k] == TemperatureControllerNode::property_spec(k),
            decreases 13 - i,
        {
            r.push(self.property(i));
            i = i + 1;
        }
        r
    }
}

} // verus!
