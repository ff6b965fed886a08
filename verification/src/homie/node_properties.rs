//! What each property of the device's Homie nodes publishes and reads, listed by the
//! property's id, and the laws that tie each node's property table to these listings.
use crate::homie::nodes::{
    AlarmNode, ClockNode, CompensationNode, CoolerNode, DemandControlNode, FanSpeedSettingsNode, FilterNode, FreeCoolingNode, HeatExchangerNode, HeaterNode, InputNode, ModeNode, TemperatureControllerNode,
};
use crate::homie::property::{PropertyEntry, PropertySource, ValueKind};
use vstd::prelude::*;

verus! {

/// A property entry publishes under `id` a value of kind `value` read from `source`.
pub open spec fn publishes(entry: PropertyEntry, id: Seq<char>, value: ValueKind, source: PropertySource) -> bool {
    entry.prop_id@ == id && entry.value == value && entry.source == source
}

/// The properties of the `alarm` node: the `k`-th property's id, the kind of value it publishes
/// and the registers it reads.
pub open spec fn alarm_node_listing(k: int) -> (Seq<char>, ValueKind, PropertySource) {
    if k == 0 {
        ("any"@, ValueKind::AlarmOutput, PropertySource::Register("OUTPUT_ALARM"))
    } else if k == 1 {
        ("supply-air-fan-control"@, ValueKind::Alarm, PropertySource::Aggregate1("ALARM_SAF_CTRL_ALARM"))
    } else if k == 2 {
        ("extract-air-fan-control"@, ValueKind::Alarm, PropertySource::Aggregate1("ALARM_EAF_CTRL_ALARM"))
    } else if k == 3 {
        ("frost-protection"@, ValueKind::Alarm, PropertySource::Aggregate1("ALARM_FROST_PROT_ALARM"))
    } else if k == 4 {
        ("defrosting"@, ValueKind::Alarm, PropertySource::Aggregate1("ALARM_DEFROSTING_ALARM"))
    } else if k == 5 {
        ("supply-air-fan-rpm"@, ValueKind::Alarm, PropertySource::Aggregate1("ALARM_SAF_RPM_ALARM"))
    } else if k == 6 {
        ("extract-air-fan-rpm"@, ValueKind::Alarm, PropertySource::Aggregate1("ALARM_EAF_RPM_ALARM"))
    } else if k == 7 {
        ("frost-protection-sensor"@, ValueKind::Alarm, PropertySource::Aggregate1("ALARM_FPT_ALARM"))
    } else if k == 8 {
        ("outdoor-air-temperature"@, ValueKind::Alarm, PropertySource::Aggregate1("ALARM_OAT_ALARM"))
    } else if k == 9 {
        ("supply-air-temperature"@, ValueKind::Alarm, PropertySource::Aggregate1("ALARM_SAT_ALARM"))
    } else if k == 10 {
        ("room-air-temperature"@, ValueKind::Alarm, PropertySource::Aggregate1("ALARM_RAT_ALARM"))
    } else if k == 11 {
        ("extract-air-temperature"@, ValueKind::Alarm, PropertySource::Aggregate1("ALARM_EAT_ALARM"))
    } else if k == 12 {
        ("extra-controller-temperature"@, ValueKind::Alarm, PropertySource::Aggregate1("ALARM_ECT_ALARM"))
    } else if k == 13 {
        ("eft"@, ValueKind::Alarm, PropertySource::Aggregate1("ALARM_EFT_ALARM"))
    } else if k == 14 {
        ("overheat-protection-sensor"@, ValueKind::Alarm, PropertySource::Aggregate1("ALARM_OHT_ALARM"))
    } else if k == 15 {
        ("emergency-thermostat"@, ValueKind::Alarm, PropertySource::Aggregate1("ALARM_EMT_ALARM"))
    } else if k == 16 {
        ("rotor-guard"@, ValueKind::Alarm, PropertySource::Aggregate1("ALARM_RGS_ALARM"))
    } else if k == 17 {
        ("bypass-damper-position-sensor"@, ValueKind::Alarm, PropertySource::Aggregate1("ALARM_BYS_ALARM"))
    } else if k == 18 {
        ("secondary-air"@, ValueKind::Alarm, PropertySource::Aggregate1("ALARM_SECONDARY_AIR_ALARM"))
    } else if k == 19 {
        ("filter"@, ValueKind::Alarm, PropertySource::Aggregate1("ALARM_FILTER_ALARM"))
    } else if k == 20 {
        ("extra-controller"@, ValueKind::Alarm, PropertySource::Aggregate1("ALARM_EXTRA_CONTROLLER_ALARM"))
    } else if k == 21 {
        ("external-stop"@, ValueKind::Alarm, PropertySource::Aggregate1("ALARM_EXTERNAL_STOP_ALARM"))
    } else if k == 22 {
        ("relative-humidity"@, ValueKind::Alarm, PropertySource::Aggregate1("ALARM_RH_ALARM"))
    } else if k == 23 {
        ("co2"@, ValueKind::Alarm, PropertySource::Aggregate1("ALARM_CO2_ALARM"))
    } else if k == 24 {
        ("low-supply-air-temperature"@, ValueKind::Alarm, PropertySource::Aggregate1("ALARM_LOW_SAT_ALARM"))
    } else if k == 25 {
        ("bypass-damper-feedback"@, ValueKind::Alarm, PropertySource::Aggregate1("ALARM_BYF_ALARM"))
    } else if k == 26 {
        ("manual-override-outputs"@, ValueKind::Alarm, PropertySource::Aggregate1("ALARM_MANUAL_OVERRIDE_OUTPUTS_ALARM"))
    } else if k == 27 {
        ("pdm-room-humidity-sensor"@, ValueKind::Alarm, PropertySource::Aggregate1("ALARM_PDM_RHS_ALARM"))
    } else if k == 28 {
        ("pdm-extract-room-temperature"@, ValueKind::Alarm, PropertySource::Aggregate1("ALARM_PDM_EAT_ALARM"))
    } else if k == 29 {
        ("manual-fan-stop"@, ValueKind::Alarm, PropertySource::Aggregate1("ALARM_MANUAL_FAN_STOP_ALARM"))
    } else if k == 30 {
        ("overheat-temperature"@, ValueKind::Alarm, PropertySource::Aggregate1("ALARM_OVERHEAT_TEMPERATURE_ALARM"))
    } else if k == 31 {
        ("fire"@, ValueKind::Alarm, PropertySource::Aggregate1("ALARM_FIRE_ALARM_ALARM"))
    } else {
        ("filter-warning"@, ValueKind::Alarm, PropertySource::Aggregate1("ALARM_FILTER_WARNING_ALARM"))
    }
}

/// The `alarm` node publishes the listed properties in the listed order: its `k`-th property
/// has the listed id, publishes the listed kind of value and reads the listed registers.
pub proof fn lemma_alarm_node_properties()
    ensures
        forall|k: int|
            0 <= k < AlarmNode::PROPERTY_COUNT ==> publishes(
                #[trigger] AlarmNode::property_spec(k),
                alarm_node_listing(k).0,
                alarm_node_listing(k).1,
                alarm_node_listing(k).2,
            ),
{
}

/// The properties of the `clock` node: the `k`-th property's id, the kind of value it publishes
/// and the registers it reads.
pub open spec fn clock_node_listing(k: int) -> (Seq<char>, ValueKind, PropertySource) {
    if k == 0 {
        ("clock"@, ValueKind::Clock, PropertySource::Aggregate6("TIME_YEAR", "TIME_MONTH", "TIME_DAY", "TIME_HOUR", "TIME_MINUTE", "TIME_SECOND"))
    } else if k == 1 {
        ("dst-enabled"@, ValueKind::Boolean, PropertySource::Register("TIME_AUTO_SUM_WIN"))
    } else if k == 2 {
        ("use-24-hour-format"@, ValueKind::Boolean, PropertySource::Register("HOUR_FORMAT"))
    } else if k == 3 {
        ("weekday"@, ValueKind::Weekday, PropertySource::Register("DAY_OF_THE_WEEK"))
    } else if k == 4 {
        ("dst-active"@, ValueKind::Boolean, PropertySource::Register("DST_PERIOD_ACTIVE"))
    } else if k == 5 {
        ("uptime"@, ValueKind::Uptime, PropertySource::Aggregate4("TIME_RTC_SECONDS_L", "TIME_RTC_SECONDS_H", "SYSTEM_START_UP_TIME_L", "SYSTEM_START_UP_TIME_H"))
    } else {
        ("synchronize"@, ValueKind::SynchronizeClock, PropertySource::Action)
    }
}

/// The `clock` node publishes the listed properties in the listed order: its `k`-th property
/// has the listed id, publishes the listed kind of value and reads the listed registers.
pub proof fn lemma_clock_node_properties()
    ensures
        forall|k: int|
            0 <= k < ClockNode::PROPERTY_COUNT ==> publishes(
                #[trigger] ClockNode::property_spec(k),
                clock_node_listing(k).0,
                clock_node_listing(k).1,
                clock_node_listing(k).2,
            ),
{
}

/// The properties of the `compensation` node: the `k`-th property's id, the kind of value it publishes
/// and the registers it reads.
pub open spec fn compensation_node_listing(k: int) -> (Seq<char>, ValueKind, PropertySource) {
    if k == 0 {
        ("type"@, ValueKind::CompensationType, PropertySource::Register("FAN_OUTDOOR_COMP_TYPE"))
    } else if k == 1 {
        ("max-when-winter"@, ValueKind::UintPercent, PropertySource::Register("FAN_OUTDOOR_COMP_MAX_VALUE"))
    } else if k == 2 {
        ("max-when-winter-outdoor-temperature"@, ValueKind::Celsius, PropertySource::Register("FAN_OUTDOOR_COMP_MAX_TEMP"))
    } else if k == 3 {
        ("current"@, ValueKind::UintPercent, PropertySource::Register("FAN_OUTDOOR_COMP_RESULT"))
    } else if k == 4 {
        ("start-when-winter-outdoor-temperature"@, ValueKind::Celsius, PropertySource::Register("FAN_OUTDOOR_COMP_START_T_WINTER"))
    } else if k == 5 {
        ("start-when-summer-outdoor-temperature"@, ValueKind::Celsius, PropertySource::Register("FAN_OUTDOOR_COMP_START_T_SUMMER"))
    } else if k == 6 {
        ("max-when-summer-outdoor-temperature"@, ValueKind::Celsius, PropertySource::Register("FAN_OUTDOOR_COMP_STOP_T_SUMMER"))
    } else {
        ("max-when-summer"@, ValueKind::UintPercent, PropertySource::Register("FAN_OUTDOOR_COMP_VALUE_SUMMER"))
    }
}

/// The `compensation` node publishes the listed properties in the listed order: its `k`-th property
/// has the listed id, publishes the listed kind of value and reads the listed registers.
pub proof fn lemma_compensation_node_properties()
    ensures
        forall|k: int|
            0 <= k < CompensationNode::PROPERTY_COUNT ==> publishes(
                #[trigger] CompensationNode::property_spec(k),
                compensation_node_listing(k).0,
                compensation_node_listing(k).1,
                compensation_node_listing(k).2,
            ),
{
}

/// The properties of the `cooler` node: the `k`-th property's id, the kind of value it publishes
/// and the registers it reads.
pub open spec fn cooler_node_listing(k: int) -> (Seq<char>, ValueKind, PropertySource) {
    if k == 0 {
        ("active"@, ValueKind::Boolean, PropertySource::Register("FUNCTION_ACTIVE_COOLING"))
    } else if k == 1 {
        ("demand"@, ValueKind::Uint, PropertySource::Register("COOLER_FROM_SATC"))
    } else if k == 2 {
        ("current-speed"@, ValueKind::Uint, PropertySource::Register("OUTPUT_Y3_ANALOG"))
    } else if k == 3 {
        ("circulation-pump-start-temperature"@, ValueKind::Celsius, PropertySource::Register("COOLER_CIRC_PUMP_START_T"))
    } else if k == 4 {
        ("outdoor-air-temperature-interlock"@, ValueKind::Celsius, PropertySource::Register("COOLER_OAT_INTERLOCK_T"))
    } else {
        ("circulation-pump-stop-delay"@, ValueKind::StopDelay, PropertySource::Register("COOLER_CIRC_PUMP_STOP_DELAY"))
    }
}

/// The `cooler` node publishes the listed properties in the listed order: its `k`-th property
/// has the listed id, publishes the listed kind of value and reads the listed registers.
pub proof fn lemma_cooler_node_properties()
    ensures
        forall|k: int|
            0 <= k < CoolerNode::PROPERTY_COUNT ==> publishes(
                #[trigger] CoolerNode::property_spec(k),
                cooler_node_listing(k).0,
                cooler_node_listing(k).1,
                cooler_node_listing(k).2,
            ),
{
}

/// The properties of the `demand-control` node: the `k`-th property's id, the kind of value it publishes
/// and the registers it reads.
pub open spec fn demand_control_node_listing(k: int) -> (Seq<char>, ValueKind, PropertySource) {
    if k == 0 {
        ("highest-rh-sensor"@, ValueKind::Uint, PropertySource::Register("DEMC_RH_HIGHEST"))
    } else if k == 1 {
        ("highest-co2-sensor"@, ValueKind::Uint, PropertySource::Register("DEMC_CO2_HIGHEST"))
    } else if k == 2 {
        ("current-rh-setpoint"@, ValueKind::Uint, PropertySource::Register("DEMC_RH_PI_SP"))
    } else if k == 3 {
        ("current-rh"@, ValueKind::Uint, PropertySource::Register("DEMC_RH_PI_FEEDBACK"))
    } else if k == 4 {
        ("current-rh-airflow-demand"@, ValueKind::Uint, PropertySource::Register("DEMC_RH_PI_OUTPUT"))
    } else if k == 5 {
        ("current-co2-setpoint"@, ValueKind::Uint, PropertySource::Register("DEMC_CO2_PI_SP"))
    } else if k == 6 {
        ("current-co2"@, ValueKind::Uint, PropertySource::Register("DEMC_CO2_PI_FEEDBACK"))
    } else if k == 7 {
        ("current-co2-airflow-demand"@, ValueKind::Uint, PropertySource::Register("DEMC_CO2_PI_OUTPUT"))
    } else if k == 8 {
        ("rh-pband"@, ValueKind::Uint, PropertySource::Register("DEMC_RH_SETTINGS_PBAND"))
    } else if k == 9 {
        ("rh-summer-setpoint"@, ValueKind::Uint, PropertySource::Register("DEMC_RH_SETTINGS_SP_SUMMER"))
    } else if k == 10 {
        ("rh-winter-setpoint"@, ValueKind::Uint, PropertySource::Register("DEMC_RH_SETTINGS_SP_WINTER"))
    } else if k == 11 {
        ("rh-enabled"@, ValueKind::Boolean, PropertySource::Register("DEMC_RH_SETTINGS_ON_OFF"))
    } else if k == 12 {
        ("season"@, ValueKind::Season, PropertySource::Register("SUMMER_WINTER"))
    } else if k == 13 {
        ("co2-pband"@, ValueKind::Uint, PropertySource::Register("DEMC_CO2_SETTINGS_PBAND"))
    } else if k == 14 {
        ("co2-setpoint"@, ValueKind::Uint, PropertySource::Register("DEMC_CO2_SETTINGS_SP"))
    } else if k == 15 {
        ("co2-enabled"@, ValueKind::Boolean, PropertySource::Register("DEMC_CO2_SETTINGS_ON_OFF"))
    } else {
        ("current-indoor-air-quality-level"@, ValueKind::IaqLevel, PropertySource::Register("IAQ_LEVEL"))
    }
}

/// The `demand-control` node publishes the listed properties in the listed order: its `k`-th property
/// has the listed id, publishes the listed kind of value and reads the listed registers.
pub proof fn lemma_demand_control_node_properties()
    ensures
        forall|k: int|
            0 <= k < DemandControlNode::PROPERTY_COUNT ==> publishes(
                #[trigger] DemandControlNode::property_spec(k),
                demand_control_node_listing(k).0,
                demand_control_node_listing(k).1,
                demand_control_node_listing(k).2,
            ),
{
}

/// The properties of the `fan-speed` node: the `k`-th property's id, the kind of value it publishes
/// and the registers it reads.
pub open spec fn fan_speed_settings_node_listing(k: int) -> (Seq<char>, ValueKind, PropertySource) {
    if k == 0 {
        ("min-demand-control"@, ValueKind::AirflowLevel, PropertySource::Register("IAQ_SPEED_LEVEL_MIN"))
    } else if k == 1 {
        ("max-demand-control"@, ValueKind::AirflowLevel, PropertySource::Register("IAQ_SPEED_LEVEL_MAX"))
    } else if k == 2 {
        ("usermode-manual"@, ValueKind::AirflowLevel, PropertySource::Register("USERMODE_MANUAL_AIRFLOW_LEVEL_SAF"))
    } else if k == 3 {
        ("usermode-crowded-supply"@, ValueKind::AirflowLevel, PropertySource::Register("USERMODE_CROWDED_AIRFLOW_LEVEL_SAF"))
    } else if k == 4 {
        ("usermode-crowded-extract"@, ValueKind::AirflowLevel, PropertySource::Register("USERMODE_CROWDED_AIRFLOW_LEVEL_EAF"))
    } else if k == 5 {
        ("usermode-refresh-supply"@, ValueKind::AirflowLevel, PropertySource::Register("USERMODE_REFRESH_AIRFLOW_LEVEL_SAF"))
    } else if k == 6 {
        ("usermode-refresh-extract"@, ValueKind::AirflowLevel, PropertySource::Register("USERMODE_REFRESH_AIRFLOW_LEVEL_EAF"))
    } else if k == 7 {
        ("usermode-fireplace-supply"@, ValueKind::AirflowLevel, PropertySource::Register("USERMODE_FIREPLACE_AIRFLOW_LEVEL_SAF"))
    } else if k == 8 {
        ("usermode-fireplace-extract"@, ValueKind::AirflowLevel, PropertySource::Register("USERMODE_FIREPLACE_AIRFLOW_LEVEL_EAF"))
    } else if k == 9 {
        ("usermode-away-supply"@, ValueKind::AirflowLevel, PropertySource::Register("USERMODE_AWAY_AIRFLOW_LEVEL_SAF"))
    } else if k == 10 {
        ("usermode-away-extract"@, ValueKind::AirflowLevel, PropertySource::Register("USERMODE_AWAY_AIRFLOW_LEVEL_EAF"))
    } else if k == 11 {
        ("usermode-holiday-supply"@, ValueKind::AirflowLevel, PropertySource::Register("USERMODE_HOLIDAY_AIRFLOW_LEVEL_SAF"))
    } else if k == 12 {
        ("usermode-holiday-extract"@, ValueKind::AirflowLevel, PropertySource::Register("USERMODE_HOLIDAY_AIRFLOW_LEVEL_EAF"))
    } else if k == 13 {
        ("usermode-cooker-hood-supply"@, ValueKind::AirflowLevel, PropertySource::Register("USERMODE_COOKERHOOD_AIRFLOW_LEVEL_SAF"))
    } else if k == 14 {
        ("usermode-cooker-hood-extract"@, ValueKind::AirflowLevel, PropertySource::Register("USERMODE_COOKERHOOD_AIRFLOW_LEVEL_EAF"))
    } else if k == 15 {
        ("usermode-vacuum-cleaner-supply"@, ValueKind::AirflowLevel, PropertySource::Register("USERMODE_VACUUMCLEANER_AIRFLOW_LEVEL_SAF"))
    } else if k == 16 {
        ("usermode-vacuum-cleaner-extract"@, ValueKind::AirflowLevel, PropertySource::Register("USERMODE_VACUUMCLEANER_AIRFLOW_LEVEL_EAF"))
    } else if k == 17 {
        ("digital-input-1-supply"@, ValueKind::AirflowLevel, PropertySource::Register("CDI_1_AIRFLOW_LEVEL_SAF"))
    } else if k == 18 {
        ("digital-input-1-extract"@, ValueKind::AirflowLevel, PropertySource::Register("CDI_1_AIRFLOW_LEVEL_EAF"))
    } else if k == 19 {
        ("digital-input-2-supply"@, ValueKind::AirflowLevel, PropertySource::Register("CDI_2_AIRFLOW_LEVEL_SAF"))
    } else if k == 20 {
        ("digital-input-2-extract"@, ValueKind::AirflowLevel, PropertySource::Register("CDI_2_AIRFLOW_LEVEL_EAF"))
    } else if k == 21 {
        ("digital-input-3-supply"@, ValueKind::AirflowLevel, PropertySource::Register("CDI_3_AIRFLOW_LEVEL_SAF"))
    } else if k == 22 {
        ("digital-input-3-extract"@, ValueKind::AirflowLevel, PropertySource::Register("CDI_3_AIRFLOW_LEVEL_EAF"))
    } else if k == 23 {
        ("pressure-guard-supply"@, ValueKind::AirflowLevel, PropertySource::Register("PRESSURE_GUARD_AIRFLOW_LEVEL_SAF"))
    } else if k == 24 {
        ("pressure-guard-extract"@, ValueKind::AirflowLevel, PropertySource::Register("PRESSURE_GUARD_AIRFLOW_LEVEL_EAF"))
    } else if k == 25 {
        ("min-demand-control-speed"@, ValueKind::AirflowLevel, PropertySource::Register("IAQ_SPEED_LEVEL_MIN"))
    } else if k == 26 {
        ("max-demand-control-speed"@, ValueKind::AirflowLevel, PropertySource::Register("IAQ_SPEED_LEVEL_MAX"))
    } else if k == 27 {
        ("regulation-type"@, ValueKind::RegulationType, PropertySource::Register("FAN_REGULATION_UNIT"))
    } else if k == 28 {
        ("allow-manual-stop"@, ValueKind::Boolean, PropertySource::Register("FAN_MANUAL_STOP_ALLOWED"))
    } else if k == 29 {
        ("supply-percentage-for-minimum"@, ValueKind::Uint, PropertySource::Register("FAN_LEVEL_SAF_MIN_PERCENTAGE"))
    } else if k == 30 {
        ("extract-percentage-for-minimum"@, ValueKind::Uint, PropertySource::Register("FAN_LEVEL_EAF_MIN_PERCENTAGE"))
    } else if k == 31 {
        ("supply-percentage-for-low"@, ValueKind::Uint, PropertySource::Register("FAN_LEVEL_SAF_LOW_PERCENTAGE"))
    } else if k == 32 {
        ("extract-percentage-for-low"@, ValueKind::Uint, PropertySource::Register("FAN_LEVEL_EAF_LOW_PERCENTAGE"))
    } else if k == 33 {
        ("supply-percentage-for-normal"@, ValueKind::Uint, PropertySource::Register("FAN_LEVEL_SAF_NORMAL_PERCENTAGE"))
    } else if k == 34 {
        ("extract-percentage-for-normal"@, ValueKind::Uint, PropertySource::Register("FAN_LEVEL_EAF_NORMAL_PERCENTAGE"))
    } else if k == 35 {
        ("supply-percentage-for-high"@, ValueKind::Uint, PropertySource::Register("FAN_LEVEL_SAF_HIGH_PERCENTAGE"))
    } else if k == 36 {
        ("extract-percentage-for-high"@, ValueKind::Uint, PropertySource::Register("FAN_LEVEL_EAF_HIGH_PERCENTAGE"))
    } else if k == 37 {
        ("supply-percentage-for-maximum"@, ValueKind::Uint, PropertySource::Register("FAN_LEVEL_SAF_MAX_PERCENTAGE"))
    } else if k == 38 {
        ("extract-percentage-for-maximum"@, ValueKind::Uint, PropertySource::Register("FAN_LEVEL_EAF_MAX_PERCENTAGE"))
    } else if k == 39 {
        ("supply-rpm-for-minimum"@, ValueKind::Uint, PropertySource::Register("FAN_LEVEL_SAF_MIN_RPM"))
    } else if k == 40 {
        ("extract-rpm-for-minimum"@, ValueKind::Uint, PropertySource::Register("FAN_LEVEL_EAF_MIN_RPM"))
    } else if k == 41 {
        ("supply-rpm-for-low"@, ValueKind::Uint, PropertySource::Register("FAN_LEVEL_SAF_LOW_RPM"))
    } else if k == 42 {
        ("extract-rpm-for-low"@, ValueKind::Uint, PropertySource::Register("FAN_LEVEL_EAF_LOW_RPM"))
    } else if k == 43 {
        ("supply-rpm-for-normal"@, ValueKind::Uint, PropertySource::Register("FAN_LEVEL_SAF_NORMAL_RPM"))
    } else if k == 44 {
        ("extract-rpm-for-normal"@, ValueKind::Uint, PropertySource::Register("FAN_LEVEL_EAF_NORMAL_RPM"))
    } else if k == 45 {
        ("supply-rpm-for-high"@, ValueKind::Uint, PropertySource::Register("FAN_LEVEL_SAF_HIGH_RPM"))
    } else if k == 46 {
        ("extract-rpm-for-high"@, ValueKind::Uint, PropertySource::Register("FAN_LEVEL_EAF_HIGH_RPM"))
    } else if k == 47 {
        ("supply-rpm-for-maximum"@, ValueKind::Uint, PropertySource::Register("FAN_LEVEL_SAF_MAX_RPM"))
    } else if k == 48 {
        ("extract-rpm-for-maximum"@, ValueKind::Uint, PropertySource::Register("FAN_LEVEL_EAF_MAX_RPM"))
    } else if k == 49 {
        ("supply-pressure-for-minimum"@, ValueKind::Uint, PropertySource::Register("FAN_LEVEL_SAF_MIN_PRESSURE"))
    } else if k == 50 {
        ("extract-pressure-for-minimum"@, ValueKind::Uint, PropertySource::Register("FAN_LEVEL_EAF_MIN_PRESSURE"))
    } else if k == 51 {
        ("supply-pressure-for-low"@, ValueKind::Uint, PropertySource::Register("FAN_LEVEL_SAF_LOW_PRESSURE"))
    } else if k == 52 {
        ("extract-pressure-for-low"@, ValueKind::Uint, PropertySource::Register("FAN_LEVEL_EAF_LOW_PRESSURE"))
    } else if k == 53 {
        ("supply-pressure-for-normal"@, ValueKind::Uint, PropertySource::Register("FAN_LEVEL_SAF_NORMAL_PRESSURE"))
    } else if k == 54 {
        ("extract-pressure-for-normal"@, ValueKind::Uint, PropertySource::Register("FAN_LEVEL_EAF_NORMAL_PRESSURE"))
    } else if k == 55 {
        ("supply-pressure-for-high"@, ValueKind::Uint, PropertySource::Register("FAN_LEVEL_SAF_HIGH_PRESSURE"))
    } else if k == 56 {
        ("extract-pressure-for-high"@, ValueKind::Uint, PropertySource::Register("FAN_LEVEL_EAF_HIGH_PRESSURE"))
    } else if k == 57 {
        ("supply-pressure-for-maximum"@, ValueKind::Uint, PropertySource::Register("FAN_LEVEL_SAF_MAX_PRESSURE"))
    } else if k == 58 {
        ("extract-pressure-for-maximum"@, ValueKind::Uint, PropertySource::Register("FAN_LEVEL_EAF_MAX_PRESSURE"))
    } else if k == 59 {
        ("supply-flow-for-minimum"@, ValueKind::Uint, PropertySource::Register("FAN_LEVEL_SAF_MIN_FLOW"))
    } else if k == 60 {
        ("extract-flow-for-minimum"@, ValueKind::Uint, PropertySource::Register("FAN_LEVEL_EAF_MIN_FLOW"))
    } else if k == 61 {
        ("supply-flow-for-low"@, ValueKind::Uint, PropertySource::Register("FAN_LEVEL_SAF_LOW_FLOW"))
    } else if k == 62 {
        ("extract-flow-for-low"@, ValueKind::Uint, PropertySource::Register("FAN_LEVEL_EAF_LOW_FLOW"))
    } else if k == 63 {
        ("supply-flow-for-normal"@, ValueKind::Uint, PropertySource::Register("FAN_LEVEL_SAF_NORMAL_FLOW"))
    } else if k == 64 {
        ("extract-flow-for-normal"@, ValueKind::Uint, PropertySource::Register("FAN_LEVEL_EAF_NORMAL_FLOW"))
    } else if k == 65 {
        ("supply-flow-for-high"@, ValueKind::Uint, PropertySource::Register("FAN_LEVEL_SAF_HIGH_FLOW"))
    } else if k == 66 {
        ("extract-flow-for-high"@, ValueKind::Uint, PropertySource::Register("FAN_LEVEL_EAF_HIGH_FLOW"))
    } else if k == 67 {
        ("supply-flow-for-maximum"@, ValueKind::Uint, PropertySource::Register("FAN_LEVEL_SAF_MAX_FLOW"))
    } else if k == 68 {
        ("extract-flow-for-maximum"@, ValueKind::Uint, PropertySource::Register("FAN_LEVEL_EAF_MAX_FLOW"))
    } else if k == 69 {
        ("min-free-cooling-supply"@, ValueKind::AirflowLevel, PropertySource::Register("FREE_COOLING_MIN_SPEED_LEVEL_SAF"))
    } else if k == 70 {
        ("min-free-cooling-extract"@, ValueKind::AirflowLevel, PropertySource::Register("FREE_COOLING_MIN_SPEED_LEVEL_EAF"))
    } else if k == 71 {
        ("during-active-week-schedule"@, ValueKind::WeeklyScheduleLevel, PropertySource::Register("WS_FAN_LEVEL_SCHEDULED"))
    } else {
        ("during-inactive-week-schedule"@, ValueKind::WeeklyScheduleLevel, PropertySource::Register("WS_FAN_LEVEL_UNSCHEDULED"))
    }
}

/// The `fan-speed` node publishes the listed properties in the listed order: its `k`-th property
/// has the listed id, publishes the listed kind of value and reads the listed registers.
pub proof fn lemma_fan_speed_settings_node_properties()
    ensures
        forall|k: int|
            0 <= k < FanSpeedSettingsNode::PROPERTY_COUNT ==> publishes(
                #[trigger] FanSpeedSettingsNode::property_spec(k),
                fan_speed_settings_node_listing(k).0,
                fan_speed_settings_node_listing(k).1,
                fan_speed_settings_node_listing(k).2,
            ),
{
}

/// The properties of the `filter` node: the `k`-th property's id, the kind of value it publishes
/// and the registers it reads.
pub open spec fn filter_node_listing(k: int) -> (Seq<char>, ValueKind, PropertySource) {
    if k == 0 {
        ("replacement-period"@, ValueKind::ReplacementPeriod, PropertySource::Register("FILTER_PERIOD"))
    } else if k == 1 {
        ("remaining-time"@, ValueKind::RemainingTime, PropertySource::Aggregate2("FILTER_REMAINING_TIME_L", "FILTER_REMAINING_TIME_H"))
    } else if k == 2 {
        ("should-replace"@, ValueKind::Boolean, PropertySource::Register("FILTER_ALARM_WAS_DETECTED"))
    } else {
        ("replace"@, ValueKind::Replace, PropertySource::Action)
    }
}

/// The `filter` node publishes the listed properties in the listed order: its `k`-th property
/// has the listed id, publishes the listed kind of value and reads the listed registers.
pub proof fn lemma_filter_node_properties()
    ensures
        forall|k: int|
            0 <= k < FilterNode::PROPERTY_COUNT ==> publishes(
                #[trigger] FilterNode::property_spec(k),
                filter_node_listing(k).0,
                filter_node_listing(k).1,
                filter_node_listing(k).2,
            ),
{
}

/// The properties of the `free-cooling` node: the `k`-th property's id, the kind of value it publishes
/// and the registers it reads.
pub open spec fn free_cooling_node_listing(k: int) -> (Seq<char>, ValueKind, PropertySource) {
    if k == 0 {
        ("enabled"@, ValueKind::Boolean, PropertySource::Register("FREE_COOLING_ON_OFF"))
    } else if k == 1 {
        ("trigger-above-daytime-temperature"@, ValueKind::Celsius, PropertySource::Register("FREE_COOLING_OUTDOOR_DAYTIME_T"))
    } else if k == 2 {
        ("stop-above-nighttime-temperature"@, ValueKind::Celsius, PropertySource::Register("FREE_COOLING_OUTDOOR_NIGHTTIME_DEACTIVATION_HIGH_T_LIMIT"))
    } else if k == 3 {
        ("stop-below-nighttime-temperature"@, ValueKind::Celsius, PropertySource::Register("FREE_COOLING_OUTDOOR_NIGHTTIME_DEACTIVATION_LOW_T_LIMIT"))
    } else if k == 4 {
        ("stop-below-room-temperature"@, ValueKind::Celsius, PropertySource::Register("FREE_COOLING_ROOM_CANCEL_T"))
    } else if k == 5 {
        ("start-time"@, ValueKind::Time, PropertySource::Aggregate2("FREE_COOLING_START_TIME_H", "FREE_COOLING_START_TIME_M"))
    } else if k == 6 {
        ("end-time"@, ValueKind::Time, PropertySource::Aggregate2("FREE_COOLING_END_TIME_H", "FREE_COOLING_END_TIME_M"))
    } else {
        ("active"@, ValueKind::Boolean, PropertySource::Register("FREE_COOLING_ACTIVE"))
    }
}

/// The `free-cooling` node publishes the listed properties in the listed order: its `k`-th property
/// has the listed id, publishes the listed kind of value and reads the listed registers.
pub proof fn lemma_free_cooling_node_properties()
    ensures
        forall|k: int|
            0 <= k < FreeCoolingNode::PROPERTY_COUNT ==> publishes(
                #[trigger] FreeCoolingNode::property_spec(k),
                free_cooling_node_listing(k).0,
                free_cooling_node_listing(k).1,
                free_cooling_node_listing(k).2,
            ),
{
}

/// The properties of the `heat-exchanger` node: the `k`-th property's id, the kind of value it publishes
/// and the registers it reads.
pub open spec fn heat_exchanger_node_listing(k: int) -> (Seq<char>, ValueKind, PropertySource) {
    if k == 0 {
        ("active"@, ValueKind::Boolean, PropertySource::Register("FUNCTION_ACTIVE_HEAT_RECOVERY"))
    } else if k == 1 {
        ("current-speed"@, ValueKind::Uint, PropertySource::Register("OUTPUT_Y2_ANALOG"))
    } else if k == 2 {
        ("defrosting-active"@, ValueKind::Boolean, PropertySource::Register("FUNCTION_ACTIVE_DEFROSTING"))
    } else if k == 3 {
        ("enable-cooling-recovery"@, ValueKind::Boolean, PropertySource::Register("HEAT_EXCHANGER_COOLING_RECOVERY_ON_OFF"))
    } else if k == 4 {
        ("cooling-recovery-active"@, ValueKind::Boolean, PropertySource::Register("FUNCTION_ACTIVE_COOLING_RECOVERY"))
    } else if k == 5 {
        ("enable-humidity-transfer"@, ValueKind::Boolean, PropertySource::Register("ROTOR_RH_TRANSFER_CTRL_ON_OFF"))
    } else if k == 6 {
        ("humidity-transfer-active"@, ValueKind::Boolean, PropertySource::Register("FUNCTION_ACTIVE_MOISTURE_TRANSFER"))
    } else if k == 7 {
        ("humidity-transfer-setpoint"@, ValueKind::Celsius, PropertySource::Register("ROTOR_RH_TRANSFER_CTRL_SETPOINT"))
    } else if k == 8 {
        ("humidity-transfer-pband"@, ValueKind::Uint, PropertySource::Register("ROTOR_RH_TRANSFER_CTRL_PBAND"))
    } else if k == 9 {
        ("humidity-transfer-itime"@, ValueKind::Uint, PropertySource::Register("ROTOR_RH_TRANSFER_CTRL_ITIME"))
    } else if k == 10 {
        ("speed-limit-for-humidity-transfer"@, ValueKind::Uint, PropertySource::Register("HEAT_EXCHANGER_SPEED_LIMIT_RH_TRANSFER"))
    } else if k == 11 {
        ("current-extract-air-humidity"@, ValueKind::SpecificHumidity, PropertySource::Register("ROTOR_EA_SPEC_HUMIDITY"))
    } else if k == 12 {
        ("current-outdoor-air-humidity"@, ValueKind::SpecificHumidity, PropertySource::Register("ROTOR_OA_SPEC_HUMIDITY"))
    } else if k == 13 {
        ("current-extract-air-humidity-setpoint"@, ValueKind::SpecificHumidity, PropertySource::Register("ROTOR_EA_SPEC_HUMIDITY_SETPOINT"))
    } else {
        ("current-frost-protection-sensor-temperature"@, ValueKind::Celsius, PropertySource::Register("SENSOR_FPT"))
    }
}

/// The `heat-exchanger` node publishes the listed properties in the listed order: its `k`-th property
/// has the listed id, publishes the listed kind of value and reads the listed registers.
pub proof fn lemma_heat_exchanger_node_properties()
    ensures
        forall|k: int|
            0 <= k < HeatExchangerNode::PROPERTY_COUNT ==> publishes(
                #[trigger] HeatExchangerNode::property_spec(k),
                heat_exchanger_node_listing(k).0,
                heat_exchanger_node_listing(k).1,
                heat_exchanger_node_listing(k).2,
            ),
{
}

/// The properties of the `heater` node: the `k`-th property's id, the kind of value it publishes
/// and the registers it reads.
pub open spec fn heater_node_listing(k: int) -> (Seq<char>, ValueKind, PropertySource) {
    if k == 0 {
        ("cooldown-active"@, ValueKind::Boolean, PropertySource::Register("FUNCTION_ACTIVE_HEATER_COOL_DOWN"))
    } else if k == 1 {
        ("remaining-cooldown-time"@, ValueKind::CooldownDuration, PropertySource::Register("SPEED_ELECTRICAL_HEATER_HOT_COUNTER"))
    } else if k == 2 {
        ("demand"@, ValueKind::Uint, PropertySource::Register("SATC_HEAT_DEMAND"))
    } else if k == 3 {
        ("active"@, ValueKind::Boolean, PropertySource::Register("FUNCTION_ACTIVE_HEATING"))
    } else if k == 4 {
        ("current"@, ValueKind::Uint, PropertySource::Register("PWM_TRIAC_OUTPUT"))
    } else if k == 5 {
        ("enable-eco"@, ValueKind::Boolean, PropertySource::Register("ECO_MODE_ON_OFF"))
    } else if k == 6 {
        ("eco-active"@, ValueKind::Boolean, PropertySource::Register("ECO_FUNCTION_ACTIVE"))
    } else if k == 7 {
        ("eco-temperature-offset"@, ValueKind::Celsius, PropertySource::Register("ECO_T_Y1_OFFSET"))
    } else if k == 8 {
        ("circulation-pump-start-temperature"@, ValueKind::Celsius, PropertySource::Register("HEATER_CIRC_PUMP_START_T"))
    } else {
        ("circulation-pump-stop-delay"@, ValueKind::StopDelay, PropertySource::Register("HEATER_CIRC_PUMP_START_T"))
    }
}

/// The `heater` node publishes the listed properties in the listed order: its `k`-th property
/// has the listed id, publishes the listed kind of value and reads the listed registers.
pub proof fn lemma_heater_node_properties()
    ensures
        forall|k: int|
            0 <= k < HeaterNode::PROPERTY_COUNT ==> publishes(
                #[trigger] HeaterNode::property_spec(k),
                heater_node_listing(k).0,
                heater_node_listing(k).1,
                heater_node_listing(k).2,
            ),
{
}

/// The properties of the `inputs` node: the `k`-th property's id, the kind of value it publishes
/// and the registers it reads.
pub open spec fn input_node_listing(k: int) -> (Seq<char>, ValueKind, PropertySource) {
    if k == 0 {
        ("digital-input-1-connection"@, ValueKind::DigitalInputConnection, PropertySource::Register("DI_CONNECTION_1"))
    } else if k == 1 {
        ("digital-input-2-connection"@, ValueKind::DigitalInputConnection, PropertySource::Register("DI_CONNECTION_2"))
    } else if k == 2 {
        ("digital-input-1-polarity"@, ValueKind::DigitalInputPolarity, PropertySource::Register("DI_CFG_POLARITY_1"))
    } else {
        ("digital-input-2-polarity"@, ValueKind::DigitalInputPolarity, PropertySource::Register("DI_CFG_POLARITY_2"))
    }
}

/// The `inputs` node publishes the listed properties in the listed order: its `k`-th property
/// has the listed id, publishes the listed kind of value and reads the listed registers.
pub proof fn lemma_input_node_properties()
    ensures
        forall|k: int|
            0 <= k < InputNode::PROPERTY_COUNT ==> publishes(
                #[trigger] InputNode::property_spec(k),
                input_node_listing(k).0,
                input_node_listing(k).1,
                input_node_listing(k).2,
            ),
{
}

/// The properties of the `mode` node: the `k`-th property's id, the kind of value it publishes
/// and the registers it reads.
pub open spec fn mode_node_listing(k: int) -> (Seq<char>, ValueKind, PropertySource) {
    if k == 0 {
        ("holiday-duration"@, ValueKind::Uint, PropertySource::Register("USERMODE_HOLIDAY_TIME"))
    } else if k == 1 {
        ("holiday-digital-input-off-delay"@, ValueKind::Uint, PropertySource::Register("USERMODE_HOLIDAY_DI_OFF_DELAY"))
    } else if k == 2 {
        ("away-duration"@, ValueKind::Uint, PropertySource::Register("USERMODE_AWAY_TIME"))
    } else if k == 3 {
        ("away-digital-input-off-delay"@, ValueKind::Uint, PropertySource::Register("USERMODE_AWAY_DI_OFF_DELAY"))
    } else if k == 4 {
        ("fireplace-duration"@, ValueKind::Uint, PropertySource::Register("USERMODE_FIREPLACE_TIME"))
    } else if k == 5 {
        ("fireplace-digital-input-off-delay"@, ValueKind::Uint, PropertySource::Register("USERMODE_FIRPLACE_DI_OFF_DELAY"))
    } else if k == 6 {
        ("refresh-duration"@, ValueKind::Uint, PropertySource::Register("USERMODE_REFRESH_TIME"))
    } else if k == 7 {
        ("refresh-digital-input-off-delay"@, ValueKind::Uint, PropertySource::Register("USERMODE_REFRESH_DI_OFF_DELAY"))
    } else if k == 8 {
        ("crowded-duration"@, ValueKind::Uint, PropertySource::Register("USERMODE_CROWDED_TIME"))
    } else if k == 9 {
        ("crowded-digital-input-off-delay"@, ValueKind::Uint, PropertySource::Register("USERMODE_CROWDED_DI_OFF_DELAY"))
    } else if k == 10 {
        ("digital-input-1-off-delay"@, ValueKind::Uint, PropertySource::Register("CDI1_OFF_DELAY"))
    } else if k == 11 {
        ("digital-input-2-off-delay"@, ValueKind::Uint, PropertySource::Register("CDI2_OFF_DELAY"))
    } else if k == 12 {
        ("digital-input-3-off-delay"@, ValueKind::Uint, PropertySource::Register("CDI3_OFF_DELAY"))
    } else if k == 13 {
        ("remaining-duration"@, ValueKind::RemainingTime, PropertySource::Aggregate2("USERMODE_REMAINING_TIME_L", "USERMODE_REMAINING_TIME_H"))
    } else if k == 14 {
        ("ditigal-input-1-remaining-duration"@, ValueKind::RemainingTime, PropertySource::Aggregate2("USERMODE_REMAINING_TIME_CDI1_L", "USERMODE_REMAINING_TIME_CDI1_H"))
    } else if k == 15 {
        ("ditigal-input-2-remaining-duration"@, ValueKind::RemainingTime, PropertySource::Aggregate2("USERMODE_REMAINING_TIME_CDI2_L", "USERMODE_REMAINING_TIME_CDI2_H"))
    } else if k == 16 {
        ("ditigal-input-3-remaining-duration"@, ValueKind::RemainingTime, PropertySource::Aggregate2("USERMODE_REMAINING_TIME_CDI3_L", "USERMODE_REMAINING_TIME_CDI3_H"))
    } else if k == 17 {
        ("digital-input-1-active"@, ValueKind::Boolean, PropertySource::Register("FUNCTION_ACTIVE_CDI_1"))
    } else if k == 18 {
        ("digital-input-2-active"@, ValueKind::Boolean, PropertySource::Register("FUNCTION_ACTIVE_CDI_2"))
    } else if k == 19 {
        ("digital-input-3-active"@, ValueKind::Boolean, PropertySource::Register("FUNCTION_ACTIVE_CDI_3"))
    } else if k == 20 {
        ("pressure-guard-active"@, ValueKind::Boolean, PropertySource::Register("FUNCTION_ACTIVE_PRESSURE_GUARD"))
    } else if k == 21 {
        ("cooker-hood-active"@, ValueKind::Boolean, PropertySource::Register("FUNCTION_ACTIVE_COOKER_HOOD"))
    } else if k == 22 {
        ("vacuum-cleaner-active"@, ValueKind::Boolean, PropertySource::Register("FUNCTION_ACTIVE_VACUUM_CLEANER"))
    } else if k == 23 {
        ("secondary-air-active"@, ValueKind::Boolean, PropertySource::Register("FUNCTION_ACTIVE_SECONDARY_AIR"))
    } else if k == 24 {
        ("crowded-temperature-setpoint-offset"@, ValueKind::Celsius, PropertySource::Register("USERMODE_CROWDED_T_OFFSET"))
    } else {
        ("current"@, ValueKind::CurrentMode, PropertySource::Aggregate1("USERMODE_MODE"))
    }
}

/// The `mode` node publishes the listed properties in the listed order: its `k`-th property
/// has the listed id, publishes the listed kind of value and reads the listed registers.
pub proof fn lemma_mode_node_properties()
    ensures
        forall|k: int|
            0 <= k < ModeNode::PROPERTY_COUNT ==> publishes(
                #[trigger] ModeNode::property_spec(k),
                mode_node_listing(k).0,
                mode_node_listing(k).1,
                mode_node_listing(k).2,
            ),
{
}

/// The properties of the `temperature-controller` node: the `k`-th property's id, the kind of value it publishes
/// and the registers it reads.
pub open spec fn temperature_controller_node_listing(k: int) -> (Seq<char>, ValueKind, PropertySource) {
    if k == 0 {
        ("setpoint"@, ValueKind::Celsius, PropertySource::Register("TC_SP"))
    } else if k == 1 {
        ("cascade-room-setpoint"@, ValueKind::Celsius, PropertySource::Register("TC_CASCADE_SP"))
    } else if k == 2 {
        ("cascade-min-supply-air-setpoint"@, ValueKind::Celsius, PropertySource::Register("TC_CASCADE_SP_MIN"))
    } else if k == 3 {
        ("cascade-max-supply-air-setpoint"@, ValueKind::Celsius, PropertySource::Register("TC_CASCADE_SP_MAX"))
    } else if k == 4 {
        ("mode"@, ValueKind::ControlMode, PropertySource::Register("TC_CONTROL_MODE"))
    } else if k == 5 {
        ("current-extract-air-setpoint"@, ValueKind::Celsius, PropertySource::Register("TC_EAT_RAT_SP"))
    } else if k == 6 {
        ("current-room-setpoint"@, ValueKind::Celsius, PropertySource::Register("TC_EAT_RAT_SP"))
    } else if k == 7 {
        ("current-supply-air-setpoint"@, ValueKind::Celsius, PropertySource::Register("TC_SP_SATC"))
    } else if k == 8 {
        ("current-room-control-supply-air-setpoint"@, ValueKind::Celsius, PropertySource::Register("TC_ROOM_CTRL_SP_SATC"))
    } else if k == 9 {
        ("current-outdoor-air-temperature"@, ValueKind::Celsius, PropertySource::Register("SENSOR_OAT"))
    } else if k == 10 {
        ("current-supply-air-temperature"@, ValueKind::Celsius, PropertySource::Register("SENSOR_SAT"))
    } else if k == 11 {
        ("current-room-temperature"@, ValueKind::Celsius, PropertySource::Register("SENSOR_RAT"))
    } else {
        ("current-extract-air-temperature"@, ValueKind::Celsius, PropertySource::Register("SENSOR_PDM_EAT_VALUE"))
    }
}

/// The `temperature-controller` node publishes the listed properties in the listed order: its `k`-th property
/// has the listed id, publishes the listed kind of value and reads the listed registers.
pub proof fn lemma_temperature_controller_node_properties()
    ensures
        forall|k: int|
            0 <= k < TemperatureControllerNode::PROPERTY_COUNT ==> publishes(
                #[trigger] TemperatureControllerNode::property_spec(k),
                temperature_controller_node_listing(k).0,
                temperature_controller_node_listing(k).1,
                temperature_controller_node_listing(k).2,
            ),
{
}

} // verus!
