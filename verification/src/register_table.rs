//! The holding registers of a SystemAIR SAVE unit, in increasing order of address.
//!
//! Entry `i` of each table describes the register at `ADDRESSES[i]`.
use crate::registers::{DataType, Mode};
use vstd::prelude::*;

verus! {

/// Number of known registers.
pub const REGISTER_COUNT: usize = 749;

/// The register addresses, in increasing order.
pub const ADDRESSES: [u16; 749] = [
    1001, 1002, 1011, 1012, 1019, 1021, 1022, 1029, 1031, 1033, 1034, 1035,
    1039, 1041, 1043, 1044, 1101, 1102, 1103, 1104, 1105, 1111, 1112, 1121,
    1122, 1123, 1131, 1135, 1136, 1137, 1138, 1139, 1140, 1141, 1142, 1143,
    1144, 1145, 1146, 1147, 1148, 1151, 1161, 1162, 1171, 1172, 1173, 1174,
    1175, 1176, 1177, 1178, 1181, 1182, 1183, 1184, 1185, 1188, 1189, 1190,
    1221, 1222, 1223, 1224, 1225, 1226, 1227, 1228, 1251, 1252, 1253, 1254,
    1255, 1256, 1257, 1258, 1259, 1274, 1301, 1302, 1303, 1304, 1305, 1306,
    1307, 1308, 1309, 1310, 1351, 1352, 1353, 1357, 1358, 1359, 1401, 1402,
    1403, 1404, 1405, 1406, 1407, 1408, 1409, 1410, 1411, 1412, 1413, 1414,
    1415, 1416, 1417, 1418, 1419, 1420, 1421, 1422, 1423, 1424, 1425, 1426,
    1427, 1428, 1429, 1430, 1431, 1432, 1433, 1434, 1435, 1436, 1437, 1438,
    1439, 1440, 1621, 1622, 1623, 1624, 1625, 1626, 2001, 2013, 2021, 2022,
    2031, 2051, 2053, 2054, 2055, 2061, 2069, 2071, 2079, 2101, 2102, 2113,
    2122, 2134, 2147, 2148, 2149, 2201, 2202, 2203, 2204, 2211, 2212, 2213,
    2311, 2314, 2315, 2316, 2317, 2403, 2404, 2405, 2418, 2420, 2421, 2422,
    2423, 2451, 2452, 2504, 2505, 2506, 3101, 3102, 3103, 3104, 3105, 3106,
    3107, 3108, 3109, 3110, 3111, 3112, 3113, 3114, 3115, 3116, 3117, 4101,
    4102, 4103, 4104, 4105, 4106, 4107, 4108, 4109, 4111, 4112, 4113, 5001,
    5002, 5003, 5004, 5005, 5006, 5007, 5008, 5009, 5010, 5011, 5012, 5013,
    5014, 5015, 5016, 5017, 5018, 5019, 5020, 5021, 5022, 5023, 5024, 5025,
    5026, 5027, 5028, 5029, 5030, 5031, 5032, 5033, 5034, 5035, 5036, 5037,
    5038, 5039, 5040, 5041, 5042, 5043, 5044, 5045, 5046, 5047, 5048, 5049,
    5050, 5051, 5052, 5053, 5054, 5055, 5056, 5057, 5058, 5059, 5060, 5061,
    5101, 5102, 5103, 5104, 5105, 5106, 5107, 5108, 5109, 5110, 5111, 5112,
    5113, 5114, 6001, 6002, 6003, 6004, 6005, 6006, 6007, 6008, 6009, 6010,
    6011, 6012, 6021, 6022, 6101, 7001, 7002, 7003, 7004, 7005, 7006, 7007,
    9001, 9002, 9003, 11401, 11402, 11421, 11422, 12011, 12012, 12013, 12014, 12015,
    12016, 12021, 12022, 12023, 12024, 12025, 12026, 12031, 12032, 12101, 12102, 12103,
    12104, 12105, 12106, 12107, 12108, 12109, 12112, 12115, 12136, 12151, 12152, 12153,
    12154, 12155, 12156, 12161, 12162, 12163, 12164, 12165, 12166, 12301, 12302, 12303,
    12304, 12305, 12306, 12307, 12308, 12309, 12310, 12311, 12312, 12316, 12317, 12318,
    12319, 12401, 12402, 12403, 12404, 12405, 12544, 12931, 12932, 12933, 12934, 12935,
    12936, 12937, 12938, 12939, 12940, 12941, 12942, 12943, 12944, 12945, 12946, 12947,
    12948, 12949, 12950, 12951, 12952, 12953, 12954, 12955, 12956, 12957, 12958, 12959,
    12960, 12961, 12962, 12963, 12964, 12983, 12984, 12985, 12986, 12987, 12988, 12989,
    12990, 13201, 13301, 13302, 13303, 13304, 13311, 13312, 13313, 13314, 13315, 13601,
    13602, 13801, 13802, 14001, 14002, 14003, 14004, 14101, 14102, 14103, 14104, 14201,
    14202, 14203, 14204, 14301, 14302, 14303, 14304, 14351, 14352, 14353, 14354, 14355,
    14361, 14362, 14363, 14364, 14371, 14372, 14381, 15002, 15003, 15009, 15010, 15016,
    15017, 15023, 15024, 15030, 15031, 15037, 15038, 15058, 15059, 15065, 15066, 15072,
    15073, 15079, 15080, 15086, 15087, 15093, 15094, 15100, 15101, 15107, 15108, 15114,
    15115, 15121, 15122, 15128, 15129, 15135, 15136, 15142, 15143, 15149, 15150, 15156,
    15157, 15163, 15164, 15170, 15171, 15177, 15178, 15184, 15185, 15502, 15503, 15509,
    15510, 15516, 15517, 15523, 15524, 15530, 15531, 15537, 15538, 15544, 15545, 15549,
    15701, 15702, 15703, 15704, 15705, 15706, 15707, 15708, 15709, 15710, 15711, 15712,
    15713, 15714, 15715, 15716, 15717, 15718, 15719, 15720, 15721, 15722, 15723, 15724,
    15725, 15726, 15727, 15728, 15729, 15730, 15731, 15732, 15733, 15734, 15735, 15736,
    15737, 15738, 15739, 15740, 15741, 15742, 15743, 15744, 15745, 15746, 15747, 15748,
    15749, 15750, 15751, 15752, 15753, 15754, 15755, 15756, 15757, 15758, 15759, 15760,
    15761, 15762, 15763, 15764, 15765, 15766, 15767, 15768, 15769, 15770, 15771, 15772,
    15773, 15774, 15775, 15776, 15777, 15778, 15779, 15780, 15781, 15782, 15783, 15784,
    15785, 15786, 15787, 15788, 15789, 15790, 15791, 15792, 15793, 15794, 15795, 15796,
    15797, 15798, 15799, 15800, 15801, 15802, 15803, 15804, 15805, 15806, 15807, 15808,
    15809, 15810, 15811, 15812, 15813, 15814, 15815, 15816, 15817, 15818, 15819, 15820,
    15821, 15822, 15823, 15824, 15825, 15826, 15827, 15828, 15829, 15830, 15831, 15832,
    15833, 15834, 15835, 15836, 15837, 15838, 15839, 15840, 15841, 15842, 15843, 15844,
    15845, 15846, 15847, 15848, 15849, 15850, 15851, 15852, 15853, 15854, 15855, 15856,
    15857, 15858, 15859, 15860, 15861, 15862, 15863, 15864, 15865, 15866, 15867, 15868,
    15869, 15870, 15871, 15872, 15873, 15874, 15875, 15876, 15877, 15878, 15879, 15880,
    15881, 15882, 15883, 15884, 15885, 15886, 15887, 15888, 15889, 15890, 15891, 15892,
    15893, 15894, 15895, 15896, 15897, 15898, 15899, 15900, 15901, 15902, 15903, 16001,
    16002, 16003, 16004, 16051, 16052, 16053, 16061, 16062, 16101, 17001, 17002, 17003,
    30101, 30103, 30104, 30105, 30106,
];

/// The names of the first 375 registers.
pub const NAMES_LOW: [&'static str; 375] = [
    "DEMC_RH_HIGHEST",
    "DEMC_CO2_HIGHEST",
    "DEMC_RH_PI_SP",
    "DEMC_RH_PI_FEEDBACK",
    "DEMC_RH_PI_OUTPUT",
    "DEMC_CO2_PI_SP",
    "DEMC_CO2_PI_FEEDBACK",
    "DEMC_CO2_PI_OUTPUT",
    "DEMC_RH_SETTINGS_PBAND",
    "DEMC_RH_SETTINGS_SP_SUMMER",
    "DEMC_RH_SETTINGS_SP_WINTER",
    "DEMC_RH_SETTINGS_ON_OFF",
    "SUMMER_WINTER",
    "DEMC_CO2_SETTINGS_PBAND",
    "DEMC_CO2_SETTINGS_SP",
    "DEMC_CO2_SETTINGS_ON_OFF",
    "USERMODE_HOLIDAY_TIME",
    "USERMODE_AWAY_TIME",
    "USERMODE_FIREPLACE_TIME",
    "USERMODE_REFRESH_TIME",
    "USERMODE_CR_WDED_TIME",
    "USERMODE_REMAINING_TIME_L",
    "USERMODE_REMAINING_TIME_H",
    "IAQ_SPEED_LEVEL_MIN",
    "IAQ_SPEED_LEVEL_MAX",
    "IAQ_LEVEL",
    "USERMODE_MANUAL_AIRFLOW_LEVEL_SAF",
    "USERMODE_CR_WDED_AIRFLOW_LEVEL_SAF",
    "USERMODE_CR_WDED_AIRFLOW_LEVEL_EAF",
    "USERMODE_REFRESH_AIRFLOW_LEVEL_SAF",
    "USERMODE_REFRESH_AIRFLOW_LEVEL_EAF",
    "USERMODE_FIREPLACE_AIRFLOW_LEVEL_SAF",
    "USERMODE_FIREPLACE_AIRFLOW_LEVEL_EAF",
    "USERMODE_AWAY_AIRFLOW_LEVEL_SAF",
    "USERMODE_AWAY_AIRFLOW_LEVEL_EAF",
    "USERMODE_HOLIDAY_AIRFLOW_LEVEL_SAF",
    "USERMODE_HOLIDAY_AIRFLOW_LEVEL_EAF",
    "USERMODE_COOKERHOOD_AIRFLOW_LEVEL_SAF",
    "USERMODE_COOKERHOOD_AIRFLOW_LEVEL_EAF",
    "USERMODE_VACUUMCLEANER_AIRFLOW_LEVEL_SAF",
    "USERMODE_VACUUMCLEANER_AIRFLOW_LEVEL_EAF",
    "USERMODE_CR_WDED_T_OFFSET",
    "USERMODE_MODE",
    "USERMODE_HMI_CHANGE_REQUEST",
    "CDI_1_AIRFLOW_LEVEL_SAF",
    "CDI_1_AIRFLOW_LEVEL_EAF",
    "CDI_2_AIRFLOW_LEVEL_SAF",
    "CDI_2_AIRFLOW_LEVEL_EAF",
    "CDI_3_AIRFLOW_LEVEL_SAF",
    "CDI_3_AIRFLOW_LEVEL_EAF",
    "PRESSURE_GUARD_AIRFLOW_LEVEL_SAF",
    "PRESSURE_GUARD_AIRFLOW_LEVEL_EAF",
    "USERMODE_HOLIDAY_DI_OFF_DELAY",
    "USERMODE_AWAY_DI_OFF_DELAY",
    "USERMODE_FIRPLACE_DI_OFF_DELAY",
    "USERMODE_REFRESH_DI_OFF_DELAY",
    "USERMODE_CR_WDED_DI_OFF_DELAY",
    "CDI1_OFF_DELAY",
    "CDI2_OFF_DELAY",
    "CDI3_OFF_DELAY",
    "SPEED_CDI1_SAF",
    "SPEED_CDI1_EAF",
    "SPEED_CDI2_SAF",
    "SPEED_CDI2_EAF",
    "SPEED_CDI3_SAF",
    "SPEED_CDI3_EAF",
    "SPEED_PRESSURE_GUARD_SAF",
    "SPEED_PRESSURE_GUARD_EAF",
    "FAN_OUTDOOR_COMP_TYPE",
    "FAN_OUTDOOR_COMP_MAX_VALUE",
    "FAN_OUTDOOR_COMP_STOP_T_WINTER",
    "FAN_OUTDOOR_COMP_MAX_TEMP",
    "FAN_OUTDOOR_COMP_RESULT",
    "FAN_OUTDOOR_COMP_START_T_WINTER",
    "FAN_OUTDOOR_COMP_START_T_SUMMER",
    "FAN_OUTDOOR_COMP_STOP_T_SUMMER",
    "FAN_OUTDOOR_COMP_VALUE_SUMMER",
    "FAN_REGULATION_UNIT",
    "FAN_LEVEL_SAF_MIN",
    "FAN_LEVEL_EAF_MIN",
    "FAN_LEVEL_SAF_LOW",
    "FAN_LEVEL_EAF_LOW",
    "FAN_LEVEL_SAF_NORMAL",
    "FAN_LEVEL_EAF_NORMAL",
    "FAN_LEVEL_SAF_HIGH",
    "FAN_LEVEL_EAF_HIGH",
    "FAN_LEVEL_SAF_MAX",
    "FAN_LEVEL_EAF_MAX",
    "SPEED_FANS_RUNNING",
    "SPEED_SAF_DESIRED_OFF",
    "FAN_MANUAL_STOP_ALLOWED",
    "SPEED_ELECTRICAL_HEATER_HOT_COUNTER",
    "FAN_SPEED_AFTER_HEATER_COOLING_DOWN_SAF",
    "FAN_SPEED_AFTER_HEATER_COOLING_DOWN_EAF",
    "FAN_LEVEL_SAF_MIN_PERCENTAGE",
    "FAN_LEVEL_EAF_MIN_PERCENTAGE",
    "FAN_LEVEL_SAF_LOW_PERCENTAGE",
    "FAN_LEVEL_EAF_LOW_PERCENTAGE",
    "FAN_LEVEL_SAF_NORMAL_PERCENTAGE",
    "FAN_LEVEL_EAF_NORMAL_PERCENTAGE",
    "FAN_LEVEL_SAF_HIGH_PERCENTAGE",
    "FAN_LEVEL_EAF_HIGH_PERCENTAGE",
    "FAN_LEVEL_SAF_MAX_PERCENTAGE",
    "FAN_LEVEL_EAF_MAX_PERCENTAGE",
    "FAN_LEVEL_SAF_MIN_RPM",
    "FAN_LEVEL_EAF_MIN_RPM",
    "FAN_LEVEL_SAF_LOW_RPM",
    "FAN_LEVEL_EAF_LOW_RPM",
    "FAN_LEVEL_SAF_NORMAL_RPM",
    "FAN_LEVEL_EAF_NORMAL_RPM",
    "FAN_LEVEL_SAF_HIGH_RPM",
    "FAN_LEVEL_EAF_HIGH_RPM",
    "FAN_LEVEL_SAF_MAX_RPM",
    "FAN_LEVEL_EAF_MAX_RPM",
    "FAN_LEVEL_SAF_MIN_PRESSURE",
    "FAN_LEVEL_EAF_MIN_PRESSURE",
    "FAN_LEVEL_SAF_LOW_PRESSURE",
    "FAN_LEVEL_EAF_LOW_PRESSURE",
    "FAN_LEVEL_SAF_NORMAL_PRESSURE",
    "FAN_LEVEL_EAF_NORMAL_PRESSURE",
    "FAN_LEVEL_SAF_HIGH_PRESSURE",
    "FAN_LEVEL_EAF_HIGH_PRESSURE",
    "FAN_LEVEL_SAF_MAX_PRESSURE",
    "FAN_LEVEL_EAF_MAX_PRESSURE",
    "FAN_LEVEL_SAF_MIN_FLOW",
    "FAN_LEVEL_EAF_MIN_FLOW",
    "FAN_LEVEL_SAF_LOW_FLOW",
    "FAN_LEVEL_EAF_LOW_FLOW",
    "FAN_LEVEL_SAF_NORMAL_FLOW",
    "FAN_LEVEL_EAF_NORMAL_FLOW",
    "FAN_LEVEL_SAF_HIGH_FLOW",
    "FAN_LEVEL_EAF_HIGH_FLOW",
    "FAN_LEVEL_SAF_MAX_FLOW",
    "FAN_LEVEL_EAF_MAX_FLOW",
    "USERMODE_REMAINING_TIME_CDI1_L",
    "USERMODE_REMAINING_TIME_CDI1_H",
    "USERMODE_REMAINING_TIME_CDI2_L",
    "USERMODE_REMAINING_TIME_CDI2_H",
    "USERMODE_REMAINING_TIME_CDI3_L",
    "USERMODE_REMAINING_TIME_CDI3_H",
    "TC_SP",
    "TC_CASCADE_SP",
    "TC_CASCADE_SP_MIN",
    "TC_CASCADE_SP_MAX",
    "TC_CONTR_L_MODE",
    "TC_EAT_RAT_SP",
    "TC_ROOM_CTRL_SP_SATC",
    "TC_SP_SATC",
    "SATC_HEAT_DEMAND",
    "SATC_PI_SP",
    "SATC_PI_OUTPUT",
    "ROOM_CTRL_PI_SP",
    "ROOM_CTRL_PI_OUTPUT",
    "INPUT_EXTERNAL_CTRL_SAF",
    "INPUT_EXTERNAL_CTRL_EAF",
    "HEATER_CIRC_PUMP_START_T",
    "HEATER_CIRC_PUMP_STOP_DELAY",
    "HEAT_EXCHANGER_COOLING_RECOVERY_ON_OFF",
    "HEAT_EXCHANGER_RH_TRANSFER_CTRL_ENABLED",
    "HEAT_EXCHANGER_SPEED_LIMIT_RH_TRANSFER",
    "PWM_TRIAC_OUTPUT",
    "R_TOR_RH_TRANSFER_CTRL_PBAND",
    "R_TOR_RH_TRANSFER_CTRL_ITIME",
    "R_TOR_RH_TRANSFER_CTRL_SETPOINT",
    "R_TOR_RH_TRANSFER_CTRL_ON_OFF",
    "ROTOR_EA_SPEC_HUMIDITY",
    "ROTOR_OA_SPEC_HUMIDITY",
    "ROTOR_EA_SPEC_HUMIDITY_SETPOINT",
    "COOLER_FROM_SATC",
    "COOLER_CIRC_PUMP_START_T",
    "COOLER_RECOVERY_LIMIT_T",
    "COOLER_OAT_INTERLOCK_T",
    "COOLER_CIRC_PUMP_STOP_DELAY",
    "EXTRA_CONTR_LLER_SET_PI_SETPOINT",
    "EXTRA_CONTR_LLER_CIRC_PUMP_START_T",
    "EXTRA_CONTR_LLER_CIRC_PUMP_STOP_DELAY",
    "EXTRA_CONTR_LLER_PREHEATER_SETPOINT_TYPE",
    "EXTRA_CONTR_LLER_GEO_PREHEATER_SP",
    "EXTRA_CONTR_LLER_GEO_PREHEATER_ACTIVATION_T",
    "EXTRA_CONTR_LLER_GEO_PRECOOLER_SP",
    "EXTRA_CONTR_LLER_GEO_PRECOOLER_ACTIVATION_T",
    "CHANGE_OVER_CIRC_PUMP_START_T",
    "CHANGE_OVER_CIRC_PUMP_STOP_DELAY",
    "ECO_T_Y1_OFFSET",
    "ECO_MODE_ON_OFF",
    "ECO_FUNCTION_ACTIVE",
    "FUNCTION_ACTIVE_COOLING",
    "FUNCTION_ACTIVE_FREE_COOLING",
    "FUNCTION_ACTIVE_HEATING",
    "FUNCTION_ACTIVE_DEFROSTING",
    "FUNCTION_ACTIVE_HEAT_RECOVERY",
    "FUNCTION_ACTIVE_COOLING_RECOVERY",
    "FUNCTION_ACTIVE_MOISTURE_TRANSFER",
    "FUNCTION_ACTIVE_SECONDARY_AIR",
    "FUNCTION_ACTIVE_VACUUM_CLEANER",
    "FUNCTION_ACTIVE_COOKER_HOOD",
    "FUNCTION_ACTIVE_USER_LOCK",
    "FUNCTION_ACTIVE_ECO_MODE",
    "FUNCTION_ACTIVE_HEATER_COOL_DOWN",
    "FUNCTION_ACTIVE_PRESSURE_GUARD",
    "FUNCTION_ACTIVE_CDI_1",
    "FUNCTION_ACTIVE_CDI_2",
    "FUNCTION_ACTIVE_CDI_3",
    "FREE_COOLING_ON_OFF",
    "FREE_COOLING_OUTDOOR_DAYTIME_T",
    "FREE_COOLING_OUTDOOR_NIGHTTIME_DEACTIVATION_HIGH_T_LIMIT",
    "FREE_COOLING_OUTDOOR_NIGHTTIME_DEACTIVATION_LOW_T_LIMIT",
    "FREE_COOLING_R_OM_CANCEL_T",
    "FREE_COOLING_START_TIME_H",
    "FREE_COOLING_START_TIME_M",
    "FREE_COOLING_END_TIME_H",
    "FREE_COOLING_END_TIME_M",
    "FREE_COOLING_ACTIVE",
    "FREE_COOLING_MIN_SPEED_LEVEL_SAF",
    "FREE_COOLING_MIN_SPEED_LEVEL_EAF",
    "WS_T_OFFSET_ACTIVE",
    "WS_T_OFFSET_INACTIVE",
    "WS_DAY1_PRD1_START_H",
    "WS_DAY1_PRD1_START_M",
    "WS_DAY1_PRD1_END_H",
    "WS_DAY1_PRD1_END_M",
    "WS_DAY1_PRD2_START_H",
    "WS_DAY1_PRD2_START_M",
    "WS_DAY1_PRD2_END_H",
    "WS_DAY1_PRD2_END_M",
    "WS_DAY2_PRD1_START_H",
    "WS_DAY2_PRD1_START_M",
    "WS_DAY2_PRD1_END_H",
    "WS_DAY2_PRD1_END_M",
    "WS_DAY2_PRD2_START_H",
    "WS_DAY2_PRD2_START_M",
    "WS_DAY2_PRD2_END_H",
    "WS_DAY2_PRD2_END_M",
    "WS_DAY3_PRD1_START_H",
    "WS_DAY3_PRD1_START_M",
    "WS_DAY3_PRD1_END_H",
    "WS_DAY3_PRD1_END_M",
    "WS_DAY3_PRD2_START_H",
    "WS_DAY3_PRD2_START_M",
    "WS_DAY3_PRD2_END_H",
    "WS_DAY3_PRD2_END_M",
    "WS_DAY4_PRD1_START_H",
    "WS_DAY4_PRD1_START_M",
    "WS_DAY4_PRD1_END_H",
    "WS_DAY4_PRD1_END_M",
    "WS_DAY4_PRD2_START_H",
    "WS_DAY4_PRD2_START_M",
    "WS_DAY4_PRD2_END_H",
    "WS_DAY4_PRD2_END_M",
    "WS_DAY5_PRD1_START_H",
    "WS_DAY5_PRD1_START_M",
    "WS_DAY5_PRD1_END_H",
    "WS_DAY5_PRD1_END_M",
    "WS_DAY5_PRD2_START_H",
    "WS_DAY5_PRD2_START_M",
    "WS_DAY5_PRD2_END_H",
    "WS_DAY5_PRD2_END_M",
    "WS_DAY6_PRD1_START_H",
    "WS_DAY6_PRD1_START_M",
    "WS_DAY6_PRD1_END_H",
    "WS_DAY6_PRD1_END_M",
    "WS_DAY6_PRD2_START_H",
    "WS_DAY6_PRD2_START_M",
    "WS_DAY6_PRD2_END_H",
    "WS_DAY6_PRD2_END_M",
    "WS_DAY7_PRD1_START_H",
    "WS_DAY7_PRD1_START_M",
    "WS_DAY7_PRD1_END_H",
    "WS_DAY7_PRD1_END_M",
    "WS_DAY7_PRD2_START_H",
    "WS_DAY7_PRD2_START_M",
    "WS_DAY7_PRD2_END_H",
    "WS_DAY7_PRD2_END_M",
    "WS_ACTIVE",
    "WS_FAN_LEVEL_SCHEDULED",
    "WS_FAN_LEVEL_UNSCHEDULED",
    "WS_DAY1_PRD1_ENABLED",
    "WS_DAY1_PRD2_ENABLED",
    "WS_DAY2_PRD1_ENABLED",
    "WS_DAY2_PRD2_ENABLED",
    "WS_DAY3_PRD1_ENABLED",
    "WS_DAY3_PRD2_ENABLED",
    "WS_DAY4_PRD1_ENABLED",
    "WS_DAY4_PRD2_ENABLED",
    "WS_DAY5_PRD1_ENABLED",
    "WS_DAY5_PRD2_ENABLED",
    "WS_DAY6_PRD1_ENABLED",
    "WS_DAY6_PRD2_ENABLED",
    "WS_DAY7_PRD1_ENABLED",
    "WS_DAY7_PRD2_ENABLED",
    "TIME_YEAR",
    "TIME_MONTH",
    "TIME_DAY",
    "TIME_HOUR",
    "TIME_MINUTE",
    "TIME_SECOND",
    "TIME_AUTO_SUM_WIN",
    "HOUR_FORMAT",
    "DAY_OF_THE_WEEK",
    "DST_PERIOD_ACTIVE",
    "TIME_RTC_SECONDS_L",
    "TIME_RTC_SECONDS_H",
    "SYSTEM_START_UP_TIME_L",
    "SYSTEM_START_UP_TIME_H",
    "TIME_RTC",
    "FILTER_PERIOD",
    "FILTER_REPLACEMENT_TIME_L",
    "FILTER_REPLACEMENT_TIME_H",
    "FILTER_PERIOD_SET",
    "FILTER_REMAINING_TIME_L",
    "FILTER_REMAINING_TIME_H",
    "FILTER_ALARM_WAS_DETECTED",
    "SYSTEM_UNIT_FLOW",
    "SYSTEM_UNIT_PRESSURE",
    "SYSTEM_UNIT_TEMPERATURE",
    "DI_CONNECTION_1",
    "DI_CONNECTION_2",
    "DI_CFG_POLARITY_1",
    "DI_CFG_POLARITY_2",
    "INPUT_ANALOG_UI_1",
    "INPUT_ANALOG_UI_2",
    "INPUT_ANALOG_UI_3",
    "INPUT_ANALOG_UI_4",
    "INPUT_ANALOG_UI_5",
    "INPUT_ANALOG_UI_6",
    "INPUT_DIGITAL_UI_1",
    "INPUT_DIGITAL_UI_2",
    "INPUT_DIGITAL_UI_3",
    "INPUT_DIGITAL_UI_4",
    "INPUT_DIGITAL_UI_5",
    "INPUT_DIGITAL_UI_6",
    "INPUT_DIGITAL_DI_1",
    "INPUT_DIGITAL_DI_2",
    "SENSOR_FPT",
    "SENSOR_OAT",
    "SENSOR_SAT",
    "SENSOR_RAT",
    "SENSOR_EAT",
    "SENSOR_ECT",
    "SENSOR_EFT",
    "SENSOR_OHT",
    "SENSOR_RHS",
    "SENSOR_RGS",
    "SENSOR_CO2S",
    "SENSOR_RHS_PDM",
    "SENSOR_CO2S_1",
    "SENSOR_CO2S_2",
    "SENSOR_CO2S_3",
    "SENSOR_CO2S_4",
    "SENSOR_CO2S_5",
    "SENSOR_CO2S_6",
    "SENSOR_RHS_1",
    "SENSOR_RHS_2",
    "SENSOR_RHS_3",
    "SENSOR_RHS_4",
    "SENSOR_RHS_5",
    "SENSOR_RHS_6",
    "SENSOR_DI_AWAY",
    "SENSOR_DI_HOLIDAY",
    "SENSOR_DI_FIREPLACE",
    "SENSOR_DI_REHRESH",
    "SENSOR_DI_CROWDED",
    "SENSOR_DI_COOKERHOOD",
    "SENSOR_DI_VACUUMCLEANER",
    "SENSOR_DI_EXTERNAL_STOP",
    "SENSOR_DI_LOAD_DETECTED",
    "SENSOR_DI_EXTRA_CONTROLLER_EMT",
    "SENSOR_DI_FIRE_ALARM",
    "SENSOR_DI_CHANGE_OVER_FEEDBACK",
    "SENSOR_DI_PRESSURE_GUARD",
    "SENSOR_DI_CDI_1",
    "SENSOR_DI_CDI_2",
    "SENSOR_DI_CDI_3",
    "SENSOR_RPM_SAF",
    "SENSOR_RPM_EAF",
];

/// The names of the other registers.
pub const NAMES_HIGH: [&'static str; 374] = [
    "SENSOR_FLOW_PIGGYBACK_SAF",
    "SENSOR_FLOW_PIGGYBACK_EAF",
    "SENSOR_DI_BYF",
    "SENSOR_PDM_EAT_VALUE",
    "MANUAL_OVERRIDE_F_INPUT_UI_RH_MODE",
    "MANUAL_OVERRIDE_F_INPUT_UI_CO2_MODE",
    "MANUAL_OVERRIDE_F_INPUT_OAT_MODE",
    "MANUAL_OVERRIDE_F_INPUT_SAT_MODE",
    "MANUAL_OVERRIDE_F_INPUT_OHT_MODE",
    "MANUAL_OVERRIDE_F_INPUT_FPT_MODE",
    "MANUAL_OVERRIDE_F_INPUT_RAT_MODE",
    "MANUAL_OVERRIDE_F_INPUT_EAT_MODE",
    "MANUAL_OVERRIDE_F_INPUT_ECT_MODE",
    "MANUAL_OVERRIDE_F_INPUT_EFT_MODE",
    "MANUAL_OVERRIDE_F_INPUT_PDM_RH_MODE",
    "MANUAL_OVERRIDE_F_INPUT_PDM_T_MODE",
    "MANUAL_OVERRIDE_INPUT_SAF_RPM_MODE",
    "MANUAL_OVERRIDE_INPUT_EAF_RPM_MODE",
    "MANUAL_OVERRIDE_INPUT_UI6_MODE",
    "MANUAL_OVERRIDE_INPUT_BYF_MODE",
    "MANUAL_OVERRIDE_INPUT_PIGGYBACK1_SAF_P_MODE",
    "MANUAL_OVERRIDE_INPUT_PIGGYBACK1_EAF_P_MODE",
    "MANUAL_OVERRIDE_INPUT_PIGGYBACK2_SAF_P_MODE",
    "MANUAL_OVERRIDE_INPUT_PIGGYBACK2_EAF_P_MODE",
    "MANUAL_OVERRIDE_INPUT_AI1_VALUE",
    "MANUAL_OVERRIDE_INPUT_AI2_VALUE",
    "MANUAL_OVERRIDE_INPUT_AI3_VALUE",
    "MANUAL_OVERRIDE_INPUT_AI4_VALUE",
    "MANUAL_OVERRIDE_INPUT_AI5_VALUE",
    "MANUAL_OVERRIDE_INPUT_AI6_VALUE",
    "MANUAL_OVERRIDE_INPUT_AI7_VALUE",
    "MANUAL_OVERRIDE_INPUT_DI1_VALUE",
    "MANUAL_OVERRIDE_INPUT_DI2_VALUE",
    "MANUAL_OVERRIDE_INPUT_UI1_VALUE",
    "MANUAL_OVERRIDE_INPUT_UI2_VALUE",
    "MANUAL_OVERRIDE_INPUT_UI3_VALUE",
    "MANUAL_OVERRIDE_INPUT_UI4_VALUE",
    "MANUAL_OVERRIDE_INPUT_UI5_VALUE",
    "MANUAL_OVERRIDE_F_INPUT_OAT_VALUE",
    "MANUAL_OVERRIDE_F_INPUT_SAT_VALUE",
    "MANUAL_OVERRIDE_F_INPUT_OHT_VALUE",
    "MANUAL_OVERRIDE_F_INPUT_FPT_VALUE",
    "MANUAL_OVERRIDE_F_INPUT_RAT_VALUE",
    "MANUAL_OVERRIDE_F_INPUT_EAT_VALUE",
    "MANUAL_OVERRIDE_F_INPUT_ECT_VALUE",
    "MANUAL_OVERRIDE_F_INPUT_EFT_VALUE",
    "OUTPUT_TRIAC_CONFIGURED",
    "DO1_AFTER_MUX",
    "DO2_AFTER_MUX",
    "DO3_AFTER_MUX",
    "DO4_AFTER_MUX",
    "AO1_AFTER_MUX",
    "AO2_AFTER_MUX",
    "AO3_AFTER_MUX",
    "AO4_AFTER_MUX",
    "AO5_AFTER_MUX",
    "MANUAL_OVERRIDE_OUTPUT_SAF",
    "MANUAL_OVERRIDE_OUTPUT_EAF",
    "MANUAL_OVERRIDE_OUTPUT_SAF_VALUE",
    "MANUAL_OVERRIDE_OUTPUT_EAF_VALUE",
    "OUTPUT_SAF",
    "OUTPUT_EAF",
    "OUTPUT_ALARM",
    "OUTPUT_OUTDOOR_EXTRACT_DAMPER",
    "OUTPUT_Y1_ANALOG",
    "OUTPUT_Y1_DIGITAL",
    "OUTPUT_Y2_ANALOG",
    "OUTPUT_Y2_DIGITAL",
    "OUTPUT_Y3_ANALOG",
    "OUTPUT_Y3_DIGITAL",
    "OUTPUT_Y4_ANALOG",
    "OUTPUT_Y4_DIGITAL",
    "OUTPUT_Y1_CIRC_PUMP",
    "OUTPUT_Y3_CIRC_PUMP",
    "OUTPUT_Y1_Y3_CIRC_PUMP",
    "OUTPUT_Y4_CIRC_PUMP",
    "OUTPUT_AO1",
    "OUTPUT_AO2",
    "OUTPUT_AO3",
    "OUTPUT_AO4",
    "OUTPUT_AO5",
    "OUTPUT_DO1",
    "OUTPUT_DO2",
    "OUTPUT_DO3",
    "OUTPUT_DO4",
    "OUTPUT_FAN_SPEED1",
    "OUTPUT_FAN_SPEED2",
    "OUTPUT_TRIAC",
    "ALARM_SAF_CTRL_ALARM",
    "ALARM_SAF_CTRL_CLEAR_ALARM",
    "ALARM_EAF_CTRL_ALARM",
    "ALARM_EAF_CTRL_CLEAR_ALARM",
    "ALARM_FROST_PROT_ALARM",
    "ALARM_FR_ST_PROT_CLEAR_ALARM",
    "ALARM_DEFROSTING_ALARM",
    "ALARM_DEFR_STING_CLEAR_ALARM",
    "ALARM_SAF_RPM_ALARM",
    "ALARM_SAF_RPM_CLEAR_ALARM",
    "ALARM_EAF_RPM_ALARM",
    "ALARM_EAF_RPM_CLEAR_ALARM",
    "ALARM_FPT_ALARM",
    "ALARM_FPT_CLEAR_ALARM",
    "ALARM_OAT_ALARM",
    "ALARM_OAT_CLEAR_ALARM",
    "ALARM_SAT_ALARM",
    "ALARM_SAT_CLEAR_ALARM",
    "ALARM_RAT_ALARM",
    "ALARM_RAT_CLEAR_ALARM",
    "ALARM_EAT_ALARM",
    "ALARM_EAT_CLEAR_ALARM",
    "ALARM_ECT_ALARM",
    "ALARM_ECT_CLEAR_ALARM",
    "ALARM_EFT_ALARM",
    "ALARM_EFT_CLEAR_ALARM",
    "ALARM_OHT_ALARM",
    "ALARM_OHT_CLEAR_ALARM",
    "ALARM_EMT_ALARM",
    "ALARM_EMT_CLEAR_ALARM",
    "ALARM_RGS_ALARM",
    "ALARM_RGS_CLEAR_ALARM",
    "ALARM_BYS_ALARM",
    "ALARM_BYS_CLEAR_ALARM",
    "ALARM_SECONDARY_AIR_ALARM",
    "ALARM_SECONDARY_AIR_CLEAR_ALARM",
    "ALARM_FILTER_ALARM",
    "ALARM_FILTER_CLEAR_ALARM",
    "ALARM_EXTRA_CONTROLLER_ALARM",
    "ALARM_EXTRA_CONTR_LLER_CLEAR_ALARM",
    "ALARM_EXTERNAL_STOP_ALARM",
    "ALARM_EXTERNAL_STOP_CLEAR_ALARM",
    "ALARM_RH_ALARM",
    "ALARM_RH_CLEAR_ALARM",
    "ALARM_CO2_ALARM",
    "ALARM_CO2_CLEAR_ALARM",
    "ALARM_LOW_SAT_ALARM",
    "ALARM_LOW_SAT_CLEAR_ALARM",
    "ALARM_BYF_ALARM",
    "ALARM_BYF_CLEAR_ALARM",
    "ALARM_MANUAL_OVERRIDE_OUTPUTS_ALARM",
    "ALARM_MANUAL_OVERRIDE_OUTPUTS_CLEAR_ALARM",
    "ALARM_PDM_RHS_ALARM",
    "ALARM_PDM_RHS_CLEAR_ALARM",
    "ALARM_PDM_EAT_ALARM",
    "ALARM_PDM_EAT_CLEAR_ALARM",
    "ALARM_MANUAL_FAN_STOP_ALARM",
    "ALARM_MANUAL_FAN_STOP_CLEAR_ALARM",
    "ALARM_OVERHEAT_TEMPERATURE_ALARM",
    "ALARM_OVERHEAT_TEMPERATURE_CLEAR_ALARM",
    "ALARM_FIRE_ALARM_ALARM",
    "ALARM_FIRE_ALARM_CLEAR_ALARM",
    "ALARM_FILTER_WARNING_ALARM",
    "ALARM_FILTER_WARNING_CLEAR_ALARM",
    "ALARM_FILTER_WARNING_ALARM_ERROR_DURATION_COUNTER",
    "ALARM_LOG_1_ID",
    "ALARM_LOG_1_STATE_NOW",
    "ALARM_LOG_1_STATE_PREVIOUS",
    "ALARM_LOG_1_YEAR",
    "ALARM_LOG_1_MONTH",
    "ALARM_LOG_1_DAY",
    "ALARM_LOG_1_HOUR",
    "ALARM_LOG_1_MINUTE",
    "ALARM_LOG_1_SECOND",
    "ALARM_LOG_1_CODE",
    "ALARM_LOG_2_ID",
    "ALARM_LOG_2_STATE_NOW",
    "ALARM_LOG_2_STATE_PREVIOUS",
    "ALARM_LOG_2_YEAR",
    "ALARM_LOG_2_MONTH",
    "ALARM_LOG_2_DAY",
    "ALARM_LOG_2_HOUR",
    "ALARM_LOG_2_MINUTE",
    "ALARM_LOG_2_SECOND",
    "ALARM_LOG_2_CODE",
    "ALARM_LOG_3_ID",
    "ALARM_LOG_3_STATE_NOW",
    "ALARM_LOG_3_STATE_PREVIOUS",
    "ALARM_LOG_3_YEAR",
    "ALARM_LOG_3_MONTH",
    "ALARM_LOG_3_DAY",
    "ALARM_LOG_3_HOUR",
    "ALARM_LOG_3_MINUTE",
    "ALARM_LOG_3_SECOND",
    "ALARM_LOG_3_CODE",
    "ALARM_LOG_4_ID",
    "ALARM_LOG_4_STATE_NOW",
    "ALARM_LOG_4_STATE_PREVIOUS",
    "ALARM_LOG_4_YEAR",
    "ALARM_LOG_4_MONTH",
    "ALARM_LOG_4_DAY",
    "ALARM_LOG_4_HOUR",
    "ALARM_LOG_4_MINUTE",
    "ALARM_LOG_4_SECOND",
    "ALARM_LOG_4_CODE",
    "ALARM_LOG_5_ID",
    "ALARM_LOG_5_STATE_NOW",
    "ALARM_LOG_5_STATE_PREVIOUS",
    "ALARM_LOG_5_YEAR",
    "ALARM_LOG_5_MONTH",
    "ALARM_LOG_5_DAY",
    "ALARM_LOG_5_HOUR",
    "ALARM_LOG_5_MINUTE",
    "ALARM_LOG_5_SECOND",
    "ALARM_LOG_5_CODE",
    "ALARM_LOG_6_ID",
    "ALARM_LOG_6_STATE_NOW",
    "ALARM_LOG_6_STATE_PREVIOUS",
    "ALARM_LOG_6_YEAR",
    "ALARM_LOG_6_MONTH",
    "ALARM_LOG_6_DAY",
    "ALARM_LOG_6_HOUR",
    "ALARM_LOG_6_MINUTE",
    "ALARM_LOG_6_SECOND",
    "ALARM_LOG_6_CODE",
    "ALARM_LOG_7_ID",
    "ALARM_LOG_7_STATE_NOW",
    "ALARM_LOG_7_STATE_PREVIOUS",
    "ALARM_LOG_7_YEAR",
    "ALARM_LOG_7_MONTH",
    "ALARM_LOG_7_DAY",
    "ALARM_LOG_7_HOUR",
    "ALARM_LOG_7_MINUTE",
    "ALARM_LOG_7_SECOND",
    "ALARM_LOG_7_CODE",
    "ALARM_LOG_8_ID",
    "ALARM_LOG_8_STATE_NOW",
    "ALARM_LOG_8_STATE_PREVIOUS",
    "ALARM_LOG_8_YEAR",
    "ALARM_LOG_8_MONTH",
    "ALARM_LOG_8_DAY",
    "ALARM_LOG_8_HOUR",
    "ALARM_LOG_8_MINUTE",
    "ALARM_LOG_8_SECOND",
    "ALARM_LOG_8_CODE",
    "ALARM_LOG_9_ID",
    "ALARM_LOG_9_STATE_NOW",
    "ALARM_LOG_9_STATE_PREVIOUS",
    "ALARM_LOG_9_YEAR",
    "ALARM_LOG_9_MONTH",
    "ALARM_LOG_9_DAY",
    "ALARM_LOG_9_HOUR",
    "ALARM_LOG_9_MINUTE",
    "ALARM_LOG_9_SECOND",
    "ALARM_LOG_9_CODE",
    "ALARM_LOG_10_ID",
    "ALARM_LOG_10_STATE_NOW",
    "ALARM_LOG_10_STATE_PREVIOUS",
    "ALARM_LOG_10_YEAR",
    "ALARM_LOG_10_MONTH",
    "ALARM_LOG_10_DAY",
    "ALARM_LOG_10_HOUR",
    "ALARM_LOG_10_MINUTE",
    "ALARM_LOG_10_SECOND",
    "ALARM_LOG_10_CODE",
    "ALARM_LOG_11_ID",
    "ALARM_LOG_11_STATE_NOW",
    "ALARM_LOG_11_STATE_PREVIOUS",
    "ALARM_LOG_11_YEAR",
    "ALARM_LOG_11_MONTH",
    "ALARM_LOG_11_DAY",
    "ALARM_LOG_11_HOUR",
    "ALARM_LOG_11_MINUTE",
    "ALARM_LOG_11_SECOND",
    "ALARM_LOG_11_CODE",
    "ALARM_LOG_12_ID",
    "ALARM_LOG_12_STATE_NOW",
    "ALARM_LOG_12_STATE_PREVIOUS",
    "ALARM_LOG_12_YEAR",
    "ALARM_LOG_12_MONTH",
    "ALARM_LOG_12_DAY",
    "ALARM_LOG_12_HOUR",
    "ALARM_LOG_12_MINUTE",
    "ALARM_LOG_12_SECOND",
    "ALARM_LOG_12_CODE",
    "ALARM_LOG_13_ID",
    "ALARM_LOG_13_STATE_NOW",
    "ALARM_LOG_13_STATE_PREVIOUS",
    "ALARM_LOG_13_YEAR",
    "ALARM_LOG_13_MONTH",
    "ALARM_LOG_13_DAY",
    "ALARM_LOG_13_HOUR",
    "ALARM_LOG_13_MINUTE",
    "ALARM_LOG_13_SECOND",
    "ALARM_LOG_13_CODE",
    "ALARM_LOG_14_ID",
    "ALARM_LOG_14_STATE_NOW",
    "ALARM_LOG_14_STATE_PREVIOUS",
    "ALARM_LOG_14_YEAR",
    "ALARM_LOG_14_MONTH",
    "ALARM_LOG_14_DAY",
    "ALARM_LOG_14_HOUR",
    "ALARM_LOG_14_MINUTE",
    "ALARM_LOG_14_SECOND",
    "ALARM_LOG_14_CODE",
    "ALARM_LOG_15_ID",
    "ALARM_LOG_15_STATE_NOW",
    "ALARM_LOG_15_STATE_PREVIOUS",
    "ALARM_LOG_15_YEAR",
    "ALARM_LOG_15_MONTH",
    "ALARM_LOG_15_DAY",
    "ALARM_LOG_15_HOUR",
    "ALARM_LOG_15_MINUTE",
    "ALARM_LOG_15_SECOND",
    "ALARM_LOG_15_CODE",
    "ALARM_LOG_16_ID",
    "ALARM_LOG_16_STATE_NOW",
    "ALARM_LOG_16_STATE_PREVIOUS",
    "ALARM_LOG_16_YEAR",
    "ALARM_LOG_16_MONTH",
    "ALARM_LOG_16_DAY",
    "ALARM_LOG_16_HOUR",
    "ALARM_LOG_16_MINUTE",
    "ALARM_LOG_16_SECOND",
    "ALARM_LOG_16_CODE",
    "ALARM_LOG_17_ID",
    "ALARM_LOG_17_STATE_NOW",
    "ALARM_LOG_17_STATE_PREVIOUS",
    "ALARM_LOG_17_YEAR",
    "ALARM_LOG_17_MONTH",
    "ALARM_LOG_17_DAY",
    "ALARM_LOG_17_HOUR",
    "ALARM_LOG_17_MINUTE",
    "ALARM_LOG_17_SECOND",
    "ALARM_LOG_17_CODE",
    "ALARM_LOG_18_ID",
    "ALARM_LOG_18_STATE_NOW",
    "ALARM_LOG_18_STATE_PREVIOUS",
    "ALARM_LOG_18_YEAR",
    "ALARM_LOG_18_MONTH",
    "ALARM_LOG_18_DAY",
    "ALARM_LOG_18_HOUR",
    "ALARM_LOG_18_MINUTE",
    "ALARM_LOG_18_SECOND",
    "ALARM_LOG_18_CODE",
    "ALARM_LOG_19_ID",
    "ALARM_LOG_19_STATE_NOW",
    "ALARM_LOG_19_STATE_PREVIOUS",
    "ALARM_LOG_19_YEAR",
    "ALARM_LOG_19_MONTH",
    "ALARM_LOG_19_DAY",
    "ALARM_LOG_19_HOUR",
    "ALARM_LOG_19_MINUTE",
    "ALARM_LOG_19_SECOND",
    "ALARM_LOG_19_CODE",
    "ALARM_LOG_20_ID",
    "ALARM_LOG_20_STATE_NOW",
    "ALARM_LOG_20_STATE_PREVIOUS",
    "ALARM_LOG_20_YEAR",
    "ALARM_LOG_20_MONTH",
    "ALARM_LOG_20_DAY",
    "ALARM_LOG_20_HOUR",
    "ALARM_LOG_20_MINUTE",
    "ALARM_LOG_20_SECOND",
    "ALARM_LOG_20_CODE",
    "ALARM_TYPE_A",
    "ALARM_TYPE_B",
    "ALARM_TYPE_C",
    "PASSWD_ADMIN",
    "LOCKED_USER",
    "LOCKED_FILTER",
    "LOCKED_WEEK_SCHEDULE",
    "PASSWD_USER_LEVEL_REQUIRED",
    "PASSWD_FILTER_REQUIRED",
    "PASSWD_WEEK_SCHEDULE_REQUIRED",
    "PASSWD_PC_SETTINGS",
    "PASSWD_PC_UNLOCKED",
    "SUW_REQUIRED",
    "COMM_MODBUS_ADDRESS",
    "COMM_MODBUS_BAUD_RATE",
    "COMM_MODBUS_PARITY",
    "FACTORY_RESET",
    "SET_USER_SAFE_CONFIG",
    "ACTIVATE_USER_SAFE_CONFIG",
    "USER_SAFE_CONFIG_VALID",
    "SAFE_CONFIG_VALID",
];

/// Whether each register can be read and written.
pub const MODES: [Mode; 749] = [
    Mode::R, Mode::R, Mode::R, Mode::R, Mode::R, Mode::R,
    Mode::R, Mode::R, Mode::RW, Mode::RW, Mode::RW, Mode::RW,
    Mode::R, Mode::RW, Mode::RW, Mode::RW, Mode::RW, Mode::RW,
    Mode::RW, Mode::RW, Mode::RW, Mode::R, Mode::R, Mode::RW,
    Mode::RW, Mode::R, Mode::RW, Mode::RW, Mode::RW, Mode::RW,
    Mode::RW, Mode::RW, Mode::RW, Mode::RW, Mode::RW, Mode::RW,
    Mode::RW, Mode::RW, Mode::RW, Mode::RW, Mode::RW, Mode::RW,
    Mode::R, Mode::RW, Mode::RW, Mode::RW, Mode::RW, Mode::RW,
    Mode::RW, Mode::RW, Mode::RW, Mode::RW, Mode::RW, Mode::RW,
    Mode::RW, Mode::RW, Mode::RW, Mode::RW, Mode::RW, Mode::RW,
    Mode::R, Mode::R, Mode::R, Mode::R, Mode::R, Mode::R,
    Mode::R, Mode::R, Mode::RW, Mode::RW, Mode::RW, Mode::RW,
    Mode::R, Mode::RW, Mode::RW, Mode::RW, Mode::RW, Mode::RW,
    Mode::R, Mode::R, Mode::R, Mode::R, Mode::R, Mode::R,
    Mode::R, Mode::R, Mode::R, Mode::R, Mode::R, Mode::R,
    Mode::RW, Mode::R, Mode::R, Mode::R, Mode::RW, Mode::RW,
    Mode::RW, Mode::RW, Mode::RW, Mode::RW, Mode::RW, Mode::RW,
    Mode::RW, Mode::RW, Mode::RW, Mode::RW, Mode::RW, Mode::RW,
    Mode::RW, Mode::RW, Mode::RW, Mode::RW, Mode::RW, Mode::RW,
    Mode::RW, Mode::RW, Mode::RW, Mode::RW, Mode::RW, Mode::RW,
    Mode::RW, Mode::RW, Mode::RW, Mode::RW, Mode::RW, Mode::RW,
    Mode::RW, Mode::RW, Mode::RW, Mode::RW, Mode::RW, Mode::RW,
    Mode::RW, Mode::RW, Mode::R, Mode::R, Mode::R, Mode::R,
    Mode::R, Mode::R, Mode::RW, Mode::RW, Mode::RW, Mode::RW,
    Mode::RW, Mode::R, Mode::R, Mode::R, Mode::R, Mode::R,
    Mode::R, Mode::R, Mode::R, Mode::R, Mode::R, Mode::RW,
    Mode::RW, Mode::RW, Mode::R, Mode::R, Mode::R, Mode::RW,
    Mode::RW, Mode::RW, Mode::RW, Mode::R, Mode::R, Mode::R,
    Mode::R, Mode::RW, Mode::RW, Mode::RW, Mode::RW, Mode::RW,
    Mode::RW, Mode::RW, Mode::RW, Mode::RW, Mode::RW, Mode::RW,
    Mode::RW, Mode::RW, Mode::RW, Mode::RW, Mode::RW, Mode::R,
    Mode::R, Mode::R, Mode::R, Mode::R, Mode::R, Mode::R,
    Mode::R, Mode::R, Mode::R, Mode::R, Mode::R, Mode::R,
    Mode::R, Mode::R, Mode::R, Mode::R, Mode::R, Mode::RW,
    Mode::RW, Mode::RW, Mode::RW, Mode::RW, Mode::RW, Mode::RW,
    Mode::RW, Mode::RW, Mode::R, Mode::RW, Mode::RW, Mode::RW,
    Mode::RW, Mode::RW, Mode::RW, Mode::RW, Mode::RW, Mode::RW,
    Mode::RW, Mode::RW, Mode::RW, Mode::RW, Mode::RW, Mode::RW,
    Mode::RW, Mode::RW, Mode::RW, Mode::RW, Mode::RW, Mode::RW,
    Mode::RW, Mode::RW, Mode::RW, Mode::RW, Mode::RW, Mode::RW,
    Mode::RW, Mode::RW, Mode::RW, Mode::RW, Mode::RW, Mode::RW,
    Mode::RW, Mode::RW, Mode::RW, Mode::RW, Mode::RW, Mode::RW,
    Mode::RW, Mode::RW, Mode::RW, Mode::RW, Mode::RW, Mode::RW,
    Mode::RW, Mode::RW, Mode::RW, Mode::RW, Mode::RW, Mode::RW,
    Mode::RW, Mode::RW, Mode::RW, Mode::RW, Mode::RW, Mode::RW,
    Mode::RW, Mode::RW, Mode::RW, Mode::R, Mode::RW, Mode::RW,
    Mode::RW, Mode::RW, Mode::RW, Mode::RW, Mode::RW, Mode::RW,
    Mode::RW, Mode::RW, Mode::RW, Mode::RW, Mode::RW, Mode::RW,
    Mode::RW, Mode::RW, Mode::RW, Mode::RW, Mode::RW, Mode::RW,
    Mode::RW, Mode::RW, Mode::RW, Mode::RW, Mode::R, Mode::R,
    Mode::R, Mode::R, Mode::R, Mode::R, Mode::R, Mode::RW,
    Mode::RW, Mode::RW, Mode::R, Mode::R, Mode::R, Mode::R,
    Mode::RW, Mode::RW, Mode::RW, Mode::RW, Mode::RW, Mode::RW,
    Mode::RW, Mode::RW, Mode::RW, Mode::RW, Mode::RW, Mode::RW,
    Mode::R, Mode::RW, Mode::RW, Mode::RW, Mode::RW, Mode::RW,
    Mode::R, Mode::R, Mode::R, Mode::RW, Mode::RW, Mode::RW,
    Mode::RW, Mode::RW, Mode::RW, Mode::RW, Mode::RW, Mode::RW,
    Mode::R, Mode::RW, Mode::RW, Mode::RW, Mode::RW, Mode::RW,
    Mode::RW, Mode::RW, Mode::R, Mode::RW, Mode::RW, Mode::RW,
    Mode::RW, Mode::RW, Mode::R, Mode::R, Mode::R, Mode::R,
    Mode::R, Mode::R, Mode::R, Mode::R, Mode::R, Mode::R,
    Mode::R, Mode::R, Mode::R, Mode::R, Mode::R, Mode::R,
    Mode::R, Mode::R, Mode::R, Mode::R, Mode::R, Mode::R,
    Mode::RW, Mode::RW, Mode::RW, Mode::RW, Mode::RW, Mode::RW,
    Mode::RW, Mode::RW, Mode::RW, Mode::RW, Mode::RW, Mode::RW,
    Mode::RW, Mode::RW, Mode::RW, Mode::RW, Mode::RW, Mode::RW,
    Mode::RW, Mode::RW, Mode::RW, Mode::RW, Mode::RW, Mode::RW,
    Mode::RW, Mode::RW, Mode::RW, Mode::RW, Mode::RW, Mode::RW,
    Mode::RW, Mode::RW, Mode::RW, Mode::RW, Mode::RW, Mode::RW,
    Mode::RW, Mode::RW, Mode::RW, Mode::RW, Mode::RW, Mode::RW,
    Mode::RW, Mode::RW, Mode::R, Mode::R, Mode::R, Mode::R,
    Mode::R, Mode::R, Mode::R, Mode::R, Mode::R, Mode::RW,
    Mode::RW, Mode::RW, Mode::RW, Mode::R, Mode::R, Mode::R,
    Mode::R, Mode::R, Mode::R, Mode::R, Mode::R, Mode::R,
    Mode::R, Mode::R, Mode::R, Mode::R, Mode::R, Mode::R,
    Mode::R, Mode::R, Mode::R, Mode::R, Mode::R, Mode::R,
    Mode::R, Mode::R, Mode::R, Mode::R, Mode::R, Mode::R,
    Mode::R, Mode::R, Mode::RW, Mode::R, Mode::RW, Mode::R,
    Mode::RW, Mode::R, Mode::RW, Mode::R, Mode::RW, Mode::R,
    Mode::RW, Mode::R, Mode::RW, Mode::R, Mode::RW, Mode::R,
    Mode::RW, Mode::R, Mode::RW, Mode::R, Mode::RW, Mode::R,
    Mode::RW, Mode::R, Mode::RW, Mode::R, Mode::RW, Mode::R,
    Mode::RW, Mode::R, Mode::RW, Mode::R, Mode::RW, Mode::R,
    Mode::RW, Mode::R, Mode::RW, Mode::R, Mode::RW, Mode::R,
    Mode::RW, Mode::R, Mode::RW, Mode::R, Mode::RW, Mode::R,
    Mode::RW, Mode::R, Mode::RW, Mode::R, Mode::RW, Mode::R,
    Mode::RW, Mode::R, Mode::RW, Mode::R, Mode::RW, Mode::R,
    Mode::RW, Mode::R, Mode::RW, Mode::R, Mode::RW, Mode::R,
    Mode::R, Mode::R, Mode::R, Mode::R, Mode::R, Mode::R,
    Mode::R, Mode::R, Mode::R, Mode::R, Mode::R, Mode::R,
    Mode::R, Mode::R, Mode::R, Mode::R, Mode::R, Mode::R,
    Mode::R, Mode::R, Mode::R, Mode::R, Mode::R, Mode::R,
    Mode::R, Mode::R, Mode::R, Mode::R, Mode::R, Mode::R,
    Mode::R, Mode::R, Mode::R, Mode::R, Mode::R, Mode::R,
    Mode::R, Mode::R, Mode::R, Mode::R, Mode::R, Mode::R,
    Mode::R, Mode::R, Mode::R, Mode::R, Mode::R, Mode::R,
    Mode::R, Mode::R, Mode::R, Mode::R, Mode::R, Mode::R,
    Mode::R, Mode::R, Mode::R, Mode::R, Mode::R, Mode::R,
    Mode::R, Mode::R, Mode::R, Mode::R, Mode::R, Mode::R,
    Mode::R, Mode::R, Mode::R, Mode::R, Mode::R, Mode::R,
    Mode::R, Mode::R, Mode::R, Mode::R, Mode::R, Mode::R,
    Mode::R, Mode::R, Mode::R, Mode::R, Mode::R, Mode::R,
    Mode::R, Mode::R, Mode::R, Mode::R, Mode::R, Mode::R,
    Mode::R, Mode::R, Mode::R, Mode::R, Mode::R, Mode::R,
    Mode::R, Mode::R, Mode::R, Mode::R, Mode::R, Mode::R,
    Mode::R, Mode::R, Mode::R, Mode::R, Mode::R, Mode::R,
    Mode::R, Mode::R, Mode::R, Mode::R, Mode::R, Mode::R,
    Mode::R, Mode::R, Mode::R, Mode::R, Mode::R, Mode::R,
    Mode::R, Mode::R, Mode::R, Mode::R, Mode::R, Mode::R,
    Mode::R, Mode::R, Mode::R, Mode::R, Mode::R, Mode::R,
    Mode::R, Mode::R, Mode::R, Mode::R, Mode::R, Mode::R,
    Mode::R, Mode::R, Mode::R, Mode::R, Mode::R, Mode::R,
    Mode::R, Mode::R, Mode::R, Mode::R, Mode::R, Mode::R,
    Mode::R, Mode::R, Mode::R, Mode::R, Mode::R, Mode::R,
    Mode::R, Mode::R, Mode::R, Mode::R, Mode::R, Mode::R,
    Mode::R, Mode::R, Mode::R, Mode::R, Mode::R, Mode::R,
    Mode::R, Mode::R, Mode::R, Mode::R, Mode::R, Mode::R,
    Mode::R, Mode::R, Mode::R, Mode::R, Mode::R, Mode::R,
    Mode::R, Mode::R, Mode::R, Mode::R, Mode::R, Mode::R,
    Mode::R, Mode::R, Mode::R, Mode::R, Mode::R, Mode::R,
    Mode::R, Mode::R, Mode::R, Mode::R, Mode::R, Mode::R,
    Mode::R, Mode::R, Mode::R, Mode::R, Mode::R, Mode::RW,
    Mode::RW, Mode::RW, Mode::RW, Mode::RW, Mode::RW, Mode::RW,
    Mode::RW, Mode::R, Mode::RW, Mode::RW, Mode::RW, Mode::RW,
    Mode::RW, Mode::RW, Mode::RW, Mode::R, Mode::R,
];

/// How each register's value is encoded.
pub const DATA_TYPES: [DataType; 749] = [
    DataType::U16, DataType::U16, DataType::U16, DataType::U16, DataType::U16, DataType::U16,
    DataType::U16, DataType::U16, DataType::U16, DataType::U16, DataType::U16, DataType::U16,
    DataType::U16, DataType::U16, DataType::U16, DataType::U16, DataType::U16, DataType::U16,
    DataType::U16, DataType::U16, DataType::U16, DataType::U16, DataType::U16, DataType::U16,
    DataType::U16, DataType::U16, DataType::U16, DataType::U16, DataType::U16, DataType::U16,
    DataType::U16, DataType::U16, DataType::U16, DataType::U16, DataType::U16, DataType::U16,
    DataType::U16, DataType::U16, DataType::U16, DataType::U16, DataType::U16, DataType::CEL,
    DataType::U16, DataType::U16, DataType::U16, DataType::U16, DataType::U16, DataType::U16,
    DataType::U16, DataType::U16, DataType::U16, DataType::U16, DataType::U16, DataType::U16,
    DataType::U16, DataType::U16, DataType::U16, DataType::U16, DataType::U16, DataType::U16,
    DataType::U16, DataType::U16, DataType::U16, DataType::U16, DataType::U16, DataType::U16,
    DataType::U16, DataType::U16, DataType::U16, DataType::CEL, DataType::CEL, DataType::CEL,
    DataType::U16, DataType::CEL, DataType::CEL, DataType::CEL, DataType::CEL, DataType::U16,
    DataType::U16, DataType::U16, DataType::U16, DataType::U16, DataType::U16, DataType::U16,
    DataType::U16, DataType::U16, DataType::U16, DataType::U16, DataType::U16, DataType::U16,
    DataType::U16, DataType::U16, DataType::U16, DataType::U16, DataType::U16, DataType::U16,
    DataType::U16, DataType::U16, DataType::U16, DataType::U16, DataType::U16, DataType::U16,
    DataType::U16, DataType::U16, DataType::U16, DataType::U16, DataType::U16, DataType::U16,
    DataType::U16, DataType::U16, DataType::U16, DataType::U16, DataType::U16, DataType::U16,
    DataType::U16, DataType::U16, DataType::U16, DataType::U16, DataType::U16, DataType::U16,
    DataType::U16, DataType::U16, DataType::U16, DataType::U16, DataType::U16, DataType::U16,
    DataType::U16, DataType::U16, DataType::U16, DataType::U16, DataType::U16, DataType::U16,
    DataType::U16, DataType::U16, DataType::U16, DataType::U16, DataType::U16, DataType::U16,
    DataType::U16, DataType::U16, DataType::CEL, DataType::CEL, DataType::CEL, DataType::CEL,
    DataType::U16, DataType::CEL, DataType::CEL, DataType::CEL, DataType::U16, DataType::CEL,
    DataType::I16, DataType::CEL, DataType::I16, DataType::U16, DataType::U16, DataType::CEL,
    DataType::U16, DataType::U16, DataType::U16, DataType::U16, DataType::U16, DataType::U16,
    DataType::U16, DataType::U16, DataType::U16, DataType::SPH, DataType::SPH, DataType::SPH,
    DataType::U16, DataType::CEL, DataType::CEL, DataType::CEL, DataType::U16, DataType::CEL,
    DataType::CEL, DataType::U16, DataType::U16, DataType::CEL, DataType::CEL, DataType::CEL,
    DataType::CEL, DataType::CEL, DataType::U16, DataType::CEL, DataType::U16, DataType::U16,
    DataType::U16, DataType::U16, DataType::U16, DataType::U16, DataType::U16, DataType::U16,
    DataType::U16, DataType::U16, DataType::U16, DataType::U16, DataType::U16, DataType::U16,
    DataType::U16, DataType::U16, DataType::U16, DataType::U16, DataType::U16, DataType::U16,
    DataType::CEL, DataType::CEL, DataType::CEL, DataType::CEL, DataType::U16, DataType::U16,
    DataType::U16, DataType::U16, DataType::U16, DataType::U16, DataType::U16, DataType::CEL,
    DataType::CEL, DataType::U16, DataType::U16, DataType::U16, DataType::U16, DataType::U16,
    DataType::U16, DataType::U16, DataType::U16, DataType::U16, DataType::U16, DataType::U16,
    DataType::U16, DataType::U16, DataType::U16, DataType::U16, DataType::U16, DataType::U16,
    DataType::U16, DataType::U16, DataType::U16, DataType::U16, DataType::U16, DataType::U16,
    DataType::U16, DataType::U16, DataType::U16, DataType::U16, DataType::U16, DataType::U16,
    DataType::U16, DataType::U16, DataType::U16, DataType::U16, DataType::U16, DataType::U16,
    DataType::U16, DataType::U16, DataType::U16, DataType::U16, DataType::U16, DataType::U16,
    DataType::U16, DataType::U16, DataType::U16, DataType::U16, DataType::U16, DataType::U16,
    DataType::U16, DataType::U16, DataType::U16, DataType::U16, DataType::U16, DataType::U16,
    DataType::U16, DataType::U16, DataType::U16, DataType::U16, DataType::U16, DataType::U16,
    DataType::U16, DataType::U16, DataType::U16, DataType::U16, DataType::U16, DataType::U16,
    DataType::U16, DataType::U16, DataType::U16, DataType::U16, DataType::U16, DataType::U16,
    DataType::U16, DataType::U16, DataType::U16, DataType::U16, DataType::U16, DataType::U16,
    DataType::U16, DataType::U16, DataType::U16, DataType::U16, DataType::U16, DataType::U16,
    DataType::U16, DataType::U16, DataType::U16, DataType::U16, DataType::U16, DataType::U16,
    DataType::U16, DataType::U16, DataType::U16, DataType::U16, DataType::U16, DataType::U16,
    DataType::U16, DataType::U16, DataType::U16, DataType::U16, DataType::U16, DataType::U16,
    DataType::U16, DataType::U16, DataType::U16, DataType::U16, DataType::U16, DataType::U16,
    DataType::U16, DataType::U16, DataType::U16, DataType::U16, DataType::U16, DataType::U16,
    DataType::U16, DataType::U16, DataType::U16, DataType::CEL, DataType::CEL, DataType::CEL,
    DataType::CEL, DataType::CEL, DataType::CEL, DataType::CEL, DataType::CEL, DataType::U16,
    DataType::U16, DataType::U16, DataType::U16, DataType::U16, DataType::U16, DataType::U16,
    DataType::U16, DataType::U16, DataType::U16, DataType::U16, DataType::U16, DataType::U16,
    DataType::U16, DataType::U16, DataType::U16, DataType::U16, DataType::U16, DataType::U16,
    DataType::U16, DataType::U16, DataType::U16, DataType::U16, DataType::U16, DataType::U16,
    DataType::U16, DataType::U16, DataType::U16, DataType::U16, DataType::U16, DataType::U16,
    DataType::U16, DataType::U16, DataType::U16, DataType::U16, DataType::U16, DataType::U16,
    DataType::CEL, DataType::U16, DataType::U16, DataType::U16, DataType::U16, DataType::U16,
    DataType::U16, DataType::U16, DataType::U16, DataType::U16, DataType::U16, DataType::U16,
    DataType::U16, DataType::U16, DataType::U16, DataType::U16, DataType::U16, DataType::U16,
    DataType::U16, DataType::U16, DataType::U16, DataType::I16, DataType::I16, DataType::I16,
    DataType::I16, DataType::I16, DataType::I16, DataType::I16, DataType::I16, DataType::I16,
    DataType::I16, DataType::I16, DataType::I16, DataType::I16, DataType::I16, DataType::CEL,
    DataType::CEL, DataType::CEL, DataType::CEL, DataType::CEL, DataType::CEL, DataType::CEL,
    DataType::CEL, DataType::U16, DataType::U16, DataType::U16, DataType::U16, DataType::U16,
    DataType::U16, DataType::U16, DataType::U16, DataType::U16, DataType::U16, DataType::U16,
    DataType::U16, DataType::U16, DataType::U16, DataType::U16, DataType::U16, DataType::U16,
    DataType::U16, DataType::U16, DataType::U16, DataType::U16, DataType::U16, DataType::U16,
    DataType::U16, DataType::U16, DataType::U16, DataType::U16, DataType::U16, DataType::U16,
    DataType::U16, DataType::U16, DataType::U16, DataType::U16, DataType::U16, DataType::U16,
    DataType::U16, DataType::U16, DataType::U16, DataType::U16, DataType::U16, DataType::U16,
    DataType::U16, DataType::U16, DataType::U16, DataType::U16, DataType::U16, DataType::U16,
    DataType::U16, DataType::U16, DataType::U16, DataType::U16, DataType::U16, DataType::U16,
    DataType::U16, DataType::U16, DataType::U16, DataType::U16, DataType::U16, DataType::U16,
    DataType::U16, DataType::U16, DataType::U16, DataType::U16, DataType::U16, DataType::U16,
    DataType::U16, DataType::U16, DataType::U16, DataType::U16, DataType::U16, DataType::U16,
    DataType::U16, DataType::U16, DataType::U16, DataType::U16, DataType::U16, DataType::U16,
    DataType::U16, DataType::U16, DataType::U16, DataType::U16, DataType::U16, DataType::U16,
    DataType::U16, DataType::U16, DataType::U16, DataType::U16, DataType::U16, DataType::U16,
    DataType::U16, DataType::U16, DataType::U16, DataType::U16, DataType::U16, DataType::U16,
    DataType::U16, DataType::U16, DataType::U16, DataType::U16, DataType::U16, DataType::U16,
    DataType::U16, DataType::U16, DataType::U16, DataType::U16, DataType::U16, DataType::U16,
    DataType::U16, DataType::U16, DataType::U16, DataType::U16, DataType::U16, DataType::U16,
    DataType::U16, DataType::U16, DataType::U16, DataType::U16, DataType::U16, DataType::U16,
    DataType::U16, DataType::U16, DataType::U16, DataType::U16, DataType::U16, DataType::U16,
    DataType::U16, DataType::U16, DataType::U16, DataType::U16, DataType::U16, DataType::U16,
    DataType::U16, DataType::U16, DataType::U16, DataType::U16, DataType::U16, DataType::U16,
    DataType::U16, DataType::U16, DataType::U16, DataType::U16, DataType::U16, DataType::U16,
    DataType::U16, DataType::U16, DataType::U16, DataType::U16, DataType::U16, DataType::U16,
    DataType::U16, DataType::U16, DataType::U16, DataType::U16, DataType::U16, DataType::U16,
    DataType::U16, DataType::U16, DataType::U16, DataType::U16, DataType::U16, DataType::U16,
    DataType::U16, DataType::U16, DataType::U16, DataType::U16, DataType::U16, DataType::U16,
    DataType::U16, DataType::U16, DataType::U16, DataType::U16, DataType::U16, DataType::U16,
    DataType::U16, DataType::U16, DataType::U16, DataType::U16, DataType::U16, DataType::U16,
    DataType::U16, DataType::U16, DataType::U16, DataType::U16, DataType::U16, DataType::U16,
    DataType::U16, DataType::U16, DataType::U16, DataType::U16, DataType::U16, DataType::U16,
    DataType::U16, DataType::U16, DataType::U16, DataType::U16, DataType::U16, DataType::U16,
    DataType::U16, DataType::U16, DataType::U16, DataType::U16, DataType::U16, DataType::U16,
    DataType::U16, DataType::U16, DataType::U16, DataType::U16, DataType::U16, DataType::U16,
    DataType::U16, DataType::U16, DataType::U16, DataType::U16, DataType::U16, DataType::U16,
    DataType::U16, DataType::U16, DataType::U16, DataType::U16, DataType::U16, DataType::U16,
    DataType::U16, DataType::U16, DataType::U16, DataType::U16, DataType::U16, DataType::U16,
    DataType::U16, DataType::U16, DataType::U16, DataType::U16, DataType::U16, DataType::U16,
    DataType::U16, DataType::U16, DataType::U16, DataType::U16, DataType::U16, DataType::U16,
    DataType::U16, DataType::U16, DataType::U16, DataType::U16, DataType::U16, DataType::U16,
    DataType::U16, DataType::U16, DataType::U16, DataType::U16, DataType::U16, DataType::U16,
    DataType::U16, DataType::U16, DataType::U16, DataType::U16, DataType::U16, DataType::U16,
    DataType::U16, DataType::U16, DataType::U16, DataType::U16, DataType::U16, DataType::U16,
    DataType::U16, DataType::U16, DataType::U16, DataType::U16, DataType::U16, DataType::U16,
    DataType::U16, DataType::U16, DataType::U16, DataType::U16, DataType::U16, DataType::U16,
    DataType::U16, DataType::U16, DataType::U16, DataType::U16, DataType::U16, DataType::U16,
    DataType::U16, DataType::U16, DataType::U16, DataType::U16, DataType::U16, DataType::U16,
    DataType::U16, DataType::U16, DataType::U16, DataType::U16, DataType::U16, DataType::U16,
    DataType::U16, DataType::U16, DataType::U16, DataType::U16, DataType::U16, DataType::U16,
    DataType::U16, DataType::U16, DataType::U16, DataType::U16, DataType::U16, DataType::U16,
    DataType::U16, DataType::U16, DataType::U16, DataType::U16, DataType::U16, DataType::U16,
    DataType::U16, DataType::U16, DataType::U16, DataType::U16, DataType::U16, DataType::U16,
    DataType::U16, DataType::U16, DataType::U16, DataType::U16, DataType::U16, DataType::U16,
    DataType::U16, DataType::U16, DataType::U16, DataType::U16, DataType::U16,
];

/// Whether each register has a documented minimum value.
pub const HAS_MINIMUM: [bool; 749] = [
    true, true, true, true, false, true, true, false, true, true,
    true, true, true, true, true, true, true, true, true, true,
    true, false, false, true, true, true, true, true, true, true,
    true, true, true, true, true, true, true, true, true, true,
    true, true, true, true, true, true, true, true, true, true,
    true, true, true, true, true, true, true, true, true, true,
    false, false, false, false, false, false, false, false, true, true,
    true, true, true, true, true, true, true, true, false, false,
    false, false, false, false, false, false, false, false, true, true,
    true, false, true, true, true, true, true, true, true, true,
    true, true, true, true, true, true, true, true, true, true,
    true, true, true, true, false, false, false, false, false, false,
    false, false, false, false, false, false, false, false, false, false,
    false, false, false, false, false, false, false, false, false, false,
    true, true, true, true, true, true, true, true, true, true,
    true, true, true, true, true, true, true, true, false, true,
    true, true, true, true, true, true, true, true, true, true,
    true, true, true, true, true, true, true, true, true, true,
    true, true, true, true, true, true, false, false, false, false,
    false, false, false, false, false, false, false, false, true, true,
    true, true, true, true, true, true, true, true, false, true,
    false, true, true, true, true, true, true, true, true, true,
    true, true, true, true, true, true, true, true, true, true,
    true, true, true, true, true, true, true, true, true, true,
    true, true, true, true, true, true, true, true, true, true,
    true, true, true, true, true, true, true, true, true, true,
    true, true, true, true, true, true, true, true, true, true,
    true, true, true, true, true, true, true, true, true, true,
    true, true, true, true, true, true, true, true, true, true,
    true, true, true, true, true, true, true, true, true, true,
    false, false, false, false, false, true, false, false, false, false,
    false, false, true, true, true, true, true, true, true, false,
    false, false, false, false, false, true, true, true, true, true,
    false, true, true, true, true, true, true, true, true, true,
    true, true, true, true, true, true, true, true, true, true,
    false, true, true, true, true, true, true, true, true, true,
    true, true, true, true, true, true, true, true, true, true,
    true, true, true, true, true, false, false, false, true, true,
    true, true, true, true, true, true, true, true, true, true,
    true, true, true, true, true, true, true, true, true, true,
    true, true, true, true, true, true, true, true, true, true,
    true, true, true, true, true, true, true, true, true, true,
    true, true, true, true, true, true, true, true, true, true,
    true, true, true, true, true, true, true, true, true, true,
    true, true, true, true, true, true, true, false, false, false,
    false, false, false, false, false, false, true, true, true, true,
    true, true, true, true, true, true, true, true, true, true,
    true, true, true, true, true, true, true, true, true, true,
    true, true, true, true, true, true, true, true, true, true,
    true, true, true, true, true, true, true, true, true, true,
    true, true, true, true, true, true, true, true, true, true,
    true, false, false, true, true, true, true, true, true, true,
    true, true, true, true, true, true, true, false, false, false,
    false, false, false, false, false, false, false, false, false, false,
    false, false, false, false, false, false, false, false, false, false,
    false, false, false, false, false, false, false, false, false, false,
    false, false, false, false, false, false, false, false, false, false,
    false, false, false, false, false, false, false, false, false, false,
    false, false, false, false, false, false, false, false, false, false,
    false, false, false, false, false, false, false, false, false, false,
    false, false, false, false, false, false, false, false, false, false,
    false, false, false, false, false, false, false, false, false, false,
    false, false, false, false, false, false, false, false, false, false,
    false, false, false, false, false, false, false, false, false, false,
    false, false, false, false, false, false, false, false, false, false,
    false, false, false, false, false, false, false, false, false, false,
    false, false, false, false, false, false, false, false, false, false,
    false, false, false, false, false, false, false, false, false, false,
    false, false, false, false, false, false, false, false, false, false,
    false, false, false, false, false, false, false, false, false, false,
    false, false, false, false, false, false, false, false, false, false,
    false, false, false, false, false, false, false, false, false, false,
    false, false, false, false, false, false, false, false, true, true,
    true, false, true, true, true, true, true, true, false, true,
    true, true, true, true, true, true, true, false, false,
];

/// The documented minimum value of each register, as a raw number (0 where there is none).
pub const MINIMUM_RAW: [i32; 749] = [
    0, 0, 0, 0, 0, 0, 0, 0, 1, 10, 10, 0,
    0, 50, 100, 0, 1, 1, 1, 1, 1, 0, 0, 2,
    3, 0, 0, 3, 3, 3, 3, 3, 1, 0, 0, 0,
    0, 1, 1, 1, 1, -100, 0, 0, 0, 0, 0, 0,
    0, 0, 0, 0, 0, 0, 0, 0, 0, 0, 0, 0,
    0, 0, 0, 0, 0, 0, 0, 0, 0, 0, -300, -300,
    0, -300, 150, 150, 0, 0, 0, 0, 0, 0, 0, 0,
    0, 0, 0, 0, 0, 0, 0, 0, 0, 0, 16, 16,
    16, 16, 16, 16, 16, 16, 16, 16, 500, 500, 500, 500,
    500, 500, 500, 500, 500, 500, 0, 0, 0, 0, 0, 0,
    0, 0, 0, 0, 0, 0, 0, 0, 0, 0, 0, 0,
    0, 0, 0, 0, 0, 0, 0, 0, 120, 120, 120, 120,
    0, 120, 120, 120, 0, 120, 0, 120, 0, 0, 0, 0,
    0, 0, 0, 0, 0, 0, 120, 100, 1, 0, 0, 0,
    0, 0, 0, 120, 0, -300, 0, 0, 0, -300, -300, 100,
    150, 0, 0, 0, 0, 0, 0, 0, 0, 0, 0, 0,
    0, 0, 0, 0, 0, 0, 0, 0, 0, 0, 0, 0,
    120, 70, 70, 120, 0, 0, 0, 0, 0, 3, 3, -100,
    -100, 0, 0, 0, 0, 0, 0, 0, 0, 0, 0, 0,
    0, 0, 0, 0, 0, 0, 0, 0, 0, 0, 0, 0,
    0, 0, 0, 0, 0, 0, 0, 0, 0, 0, 0, 0,
    0, 0, 0, 0, 0, 0, 0, 0, 0, 0, 0, 0,
    0, 0, 0, 0, 0, 0, 0, 0, 0, 0, 1, 1,
    0, 0, 0, 0, 0, 0, 0, 0, 0, 0, 0, 0,
    0, 0, 0, 1, 1, 0, 0, 0, 0, 0, 0, 0,
    0, 0, 0, 0, 0, 3, 0, 0, 0, 0, 0, 0,
    0, 0, 0, 0, 0, 0, 0, 0, 0, 0, 0, 0,
    0, 0, 0, 0, 0, 0, 0, 0, 0, -400, -400, -400,
    -400, -400, -400, -400, -400, 0, 0, 0, 0, 0, 0, 0,
    0, 0, 0, 0, 0, 0, 0, 0, 0, 0, 0, 0,
    0, 0, 0, 0, 0, 0, 0, 0, 0, 0, 0, 0,
    0, 0, 0, 0, 0, 0, -400, 0, 0, 0, 0, 0,
    0, 0, 0, 0, 0, 0, 0, 0, 0, 0, 0, 0,
    0, 0, 0, -410, -410, -410, -410, -410, -410, -410, 0, 0,
    0, 0, 0, 0, 0, -410, -410, -410, -410, -410, -410, -410,
    -410, 0, 0, 0, 0, 0, 0, 0, 0, 0, 0, 0,
    0, 0, 0, 0, 0, 0, 0, 0, 0, 0, 0, 0,
    0, 0, 0, 0, 0, 0, 0, 0, 0, 0, 0, 0,
    0, 0, 0, 0, 0, 0, 0, 0, 0, 0, 0, 0,
    0, 0, 0, 0, 0, 0, 0, 0, 0, 0, 0, 0,
    0, 0, 0, 0, 0, 0, 0, 0, 0, 0, 0, 0,
    0, 0, 0, 0, 0, 0, 0, 0, 0, 0, 0, 0,
    0, 0, 0, 0, 0, 0, 0, 0, 0, 0, 0, 0,
    0, 0, 0, 0, 0, 0, 0, 0, 0, 0, 0, 0,
    0, 0, 0, 0, 0, 0, 0, 0, 0, 0, 0, 0,
    0, 0, 0, 0, 0, 0, 0, 0, 0, 0, 0, 0,
    0, 0, 0, 0, 0, 0, 0, 0, 0, 0, 0, 0,
    0, 0, 0, 0, 0, 0, 0, 0, 0, 0, 0, 0,
    0, 0, 0, 0, 0, 0, 0, 0, 0, 0, 0, 0,
    0, 0, 0, 0, 0, 0, 0, 0, 0, 0, 0, 0,
    0, 0, 0, 0, 0, 0, 0, 0, 0, 0, 0, 0,
    0, 0, 0, 0, 0, 0, 0, 0, 0, 0, 0, 0,
    0, 0, 0, 0, 0, 0, 0, 0, 0, 0, 0, 0,
    0, 0, 0, 0, 0, 0, 0, 0, 0, 0, 0, 0,
    0, 0, 0, 0, 0, 0, 0, 0, 0, 0, 0, 0,
    0, 0, 0, 0, 0, 0, 0, 0, 0, 0, 0, 0,
    0, 0, 0, 0, 0, 0, 0, 0, 0, 0, 0, 0,
    0, 0, 0, 0, 0, 0, 0, 0, 0, 0, 0, 0,
    0, 0, 0, 0, 0, 0, 0, 0, 0, 0, 0, 0,
    0, 0, 0, 0, 0, 0, 0, 0, 0, 0, 0, 0,
    0, 0, 0, 0, 0, 0, 0, 0, 0, 0, 0, 0,
    0, 0, 0, 0, 0, 0, 0, 0, 0, 0, 0, 0,
    3228, 0, 0, 0, 0,
];

/// Whether each register has a documented maximum value.
pub const HAS_MAXIMUM: [bool; 749] = [
    true, true, true, true, false, true, true, false, true, true,
    true, true, true, true, true, true, true, true, true, true,
    true, false, false, true, true, true, true, true, true, true,
    true, true, true, true, true, true, true, true, true, true,
    true, true, true, true, true, true, true, true, true, true,
    true, true, true, true, true, true, true, true, true, true,
    false, false, false, false, false, false, false, false, true, true,
    true, true, true, true, true, true, true, true, false, false,
    false, false, false, false, false, false, false, false, true, true,
    true, false, true, true, true, true, true, true, true, true,
    true, true, true, true, true, true, true, true, true, true,
    true, true, true, true, false, false, false, false, false, false,
    false, false, false, false, false, false, false, false, false, false,
    false, false, false, false, false, false, false, false, false, false,
    true, true, true, true, true, true, true, true, true, true,
    true, true, true, true, true, true, true, true, false, true,
    true, true, true, true, true, false, false, false, true, true,
    true, true, true, true, true, true, true, true, true, true,
    true, true, true, true, true, true, false, false, false, false,
    false, false, false, false, false, false, false, false, true, true,
    true, true, true, true, true, true, true, true, false, true,
    false, true, true, true, true, true, true, true, true, true,
    true, true, true, true, true, true, true, true, true, true,
    true, true, true, true, true, true, true, true, true, true,
    true, true, true, true, true, true, true, true, true, true,
    true, true, true, true, true, true, true, true, true, true,
    true, true, true, true, true, true, true, true, true, true,
    true, true, true, true, true, true, true, true, true, true,
    true, true, true, true, true, true, true, true, true, true,
    true, true, true, true, true, true, true, true, true, true,
    false, false, false, false, false, true, false, false, false, false,
    false, false, true, true, true, true, true, true, true, false,
    false, false, false, false, false, true, true, true, true, true,
    false, true, true, true, true, true, true, true, true, true,
    true, true, true, true, true, true, true, true, true, true,
    false, true, true, true, true, true, true, true, true, true,
    true, true, true, true, true, true, true, true, true, true,
    true, true, true, true, true, false, false, false, true, true,
    true, true, true, true, true, true, true, true, true, true,
    true, true, true, true, true, true, true, true, true, true,
    true, true, true, true, true, true, true, true, true, true,
    true, true, true, true, true, true, true, true, true, true,
    true, true, true, true, true, true, true, true, true, true,
    true, true, true, true, true, true, true, true, true, true,
    true, true, true, true, true, true, true, false, false, false,
    false, false, false, false, false, false, true, true, true, true,
    true, true, true, true, true, true, true, true, true, true,
    true, true, true, true, true, true, true, true, true, true,
    true, true, true, true, true, true, true, true, true, true,
    true, true, true, true, true, true, true, true, true, true,
    true, true, true, true, true, true, true, true, true, true,
    true, false, true, true, true, true, true, true, true, true,
    true, true, true, true, true, true, true, false, false, false,
    false, false, false, false, false, false, false, false, false, false,
    false, false, false, false, false, false, false, false, false, false,
    false, false, false, false, false, false, false, false, false, false,
    false, false, false, false, false, false, false, false, false, false,
    false, false, false, false, false, false, false, false, false, false,
    false, false, false, false, false, false, false, false, false, false,
    false, false, false, false, false, false, false, false, false, false,
    false, false, false, false, false, false, false, false, false, false,
    false, false, false, false, false, false, false, false, false, false,
    false, false, false, false, false, false, false, false, false, false,
    false, false, false, false, false, false, false, false, false, false,
    false, false, false, false, false, false, false, false, false, false,
    false, false, false, false, false, false, false, false, false, false,
    false, false, false, false, false, false, false, false, false, false,
    false, false, false, false, false, false, false, false, false, false,
    false, false, false, false, false, false, false, false, false, false,
    false, false, false, false, false, false, false, false, false, false,
    false, false, false, false, false, false, false, false, false, false,
    false, false, false, false, false, false, false, false, false, false,
    false, false, false, false, false, false, false, false, true, true,
    true, false, true, true, true, true, true, true, false, true,
    true, true, true, true, true, true, true, false, false,
];

/// The documented maximum value of each register, as a raw number (0 where there is none).
pub const MAXIMUM_RAW: [i32; 749] = [
    100, 2000, 100, 100, 0, 2000, 2000, 0, 100, 100, 100, 1,
    1, 2000, 2000, 1, 365, 72, 60, 240, 8, 0, 0, 3,
    5, 2, 4, 5, 5, 5, 5, 5, 3, 3, 3, 3,
    3, 5, 5, 5, 5, 0, 12, 7, 5, 5, 5, 5,
    5, 5, 5, 5, 365, 72, 60, 240, 8, 240, 240, 240,
    0, 0, 0, 0, 0, 0, 0, 0, 1, 50, 0, 0,
    100, 0, 300, 400, 50, 4, 0, 0, 0, 0, 0, 0,
    0, 0, 0, 0, 1, 1, 1, 0, 100, 100, 100, 100,
    100, 100, 100, 100, 100, 100, 100, 100, 5000, 5000, 5000, 5000,
    5000, 5000, 5000, 5000, 5000, 5000, 0, 0, 0, 0, 0, 0,
    0, 0, 0, 0, 0, 0, 0, 0, 0, 0, 0, 0,
    0, 0, 0, 0, 0, 0, 0, 0, 300, 400, 400, 400,
    2, 400, 400, 300, 100, 300, 100, 300, 100, 100, 100, 200,
    60, 1, 0, 100, 100, 40, 0, 45, 1, 0, 0, 0,
    100, 200, 100, 250, 60, 400, 200, 60, 1, 100, 0, 300,
    300, 200, 60, 100, 1, 1, 0, 0, 0, 0, 0, 0,
    0, 0, 0, 0, 0, 0, 1, 1, 1, 1, 1, 1,
    300, 300, 300, 300, 0, 59, 0, 59, 1, 5, 5, 0,
    0, 23, 59, 23, 59, 23, 59, 23, 59, 23, 59, 23,
    59, 23, 59, 23, 59, 23, 59, 23, 59, 23, 59, 23,
    59, 23, 59, 23, 59, 23, 59, 23, 59, 23, 59, 23,
    59, 23, 59, 23, 59, 23, 59, 23, 59, 23, 59, 23,
    59, 23, 59, 23, 59, 23, 59, 23, 59, 1, 5, 5,
    1, 1, 1, 1, 1, 1, 1, 1, 1, 1, 1, 1,
    1, 1, 2999, 12, 31, 23, 59, 59, 1, 1, 6, 1,
    0, 0, 0, 0, 0, 15, 0, 0, 0, 0, 0, 0,
    2, 1, 1, 18, 18, 1, 1, 0, 0, 0, 0, 0,
    0, 1, 1, 1, 1, 1, 0, 1, 1, 800, 800, 800,
    800, 800, 800, 800, 800, 100, 1, 2000, 100, 2000, 2000, 2000,
    2000, 2000, 0, 100, 100, 100, 100, 100, 100, 1, 1, 1,
    1, 1, 1, 1, 1, 1, 1, 1, 1, 1, 1, 1,
    1, 5000, 5000, 0, 0, 0, 800, 1, 1, 1, 1, 1,
    1, 1, 1, 1, 1, 1, 1, 1, 1, 1, 1, 1,
    1, 1, 1, 810, 810, 810, 810, 810, 810, 810, 1, 1,
    100, 100, 100, 100, 100, 810, 810, 810, 810, 810, 810, 810,
    810, 1, 1, 1, 1, 1, 100, 100, 100, 100, 100, 1,
    1, 100, 100, 100, 100, 1, 1, 100, 1, 100, 1, 100,
    1, 100, 1, 0, 0, 0, 0, 0, 0, 0, 0, 0,
    1, 1, 1, 1, 100, 100, 1, 3, 1, 3, 1, 3,
    1, 3, 1, 3, 1, 3, 1, 3, 1, 3, 1, 3,
    1, 3, 1, 3, 1, 3, 1, 3, 1, 3, 1, 3,
    1, 3, 1, 3, 1, 3, 1, 3, 1, 3, 1, 3,
    1, 3, 1, 3, 1, 3, 1, 0, 0, 3, 1, 3,
    1, 3, 1, 3, 1, 3, 1, 3, 1, 3, 1, 0,
    0, 0, 0, 0, 0, 0, 0, 0, 0, 0, 0, 0,
    0, 0, 0, 0, 0, 0, 0, 0, 0, 0, 0, 0,
    0, 0, 0, 0, 0, 0, 0, 0, 0, 0, 0, 0,
    0, 0, 0, 0, 0, 0, 0, 0, 0, 0, 0, 0,
    0, 0, 0, 0, 0, 0, 0, 0, 0, 0, 0, 0,
    0, 0, 0, 0, 0, 0, 0, 0, 0, 0, 0, 0,
    0, 0, 0, 0, 0, 0, 0, 0, 0, 0, 0, 0,
    0, 0, 0, 0, 0, 0, 0, 0, 0, 0, 0, 0,
    0, 0, 0, 0, 0, 0, 0, 0, 0, 0, 0, 0,
    0, 0, 0, 0, 0, 0, 0, 0, 0, 0, 0, 0,
    0, 0, 0, 0, 0, 0, 0, 0, 0, 0, 0, 0,
    0, 0, 0, 0, 0, 0, 0, 0, 0, 0, 0, 0,
    0, 0, 0, 0, 0, 0, 0, 0, 0, 0, 0, 0,
    0, 0, 0, 0, 0, 0, 0, 0, 0, 0, 0, 0,
    0, 0, 0, 0, 0, 0, 0, 0, 0, 0, 0, 0,
    0, 0, 0, 0, 0, 0, 0, 0, 0, 0, 0, 0,
    0, 0, 0, 0, 0, 0, 0, 0, 1, 1, 1, 0,
    1, 1, 1, 1, 1, 1, 0, 1, 1, 255, 10, 2,
    3228, 1, 1, 0, 0,
];

/// Descriptions of the first 250 registers.
pub const DESCRIPTIONS_1: [&'static str; 250] = [
    "Highest value of all RH sensors",
    "Highest value of all CO2 sensors",
    "Set point for RH demand control",
    "Sensor value for RH demand control",
    "Output value for RH demand control. (1): Depends on regulation type. Value can be %, RPM, Pressure or Flow",
    "Set point for CO2 demand control",
    "Sensor value for CO2 demand control",
    "Output value for CO2 demand control. (1): Depends on regulation type. Value can be %, RPM, Pressure or Flow",
    "Pband setting for RH demand control",
    "Set point setting for RH demand control winter time",
    "Set point setting for RH demand control summer time",
    "Flag indicating if RH demand control is allowed",
    "Actual seasson for Demand Control. 0=Summer, 1=Winter",
    "Pband setting for CO2 demand control",
    "Set point setting for CO2 demand control",
    "Flag indicating if CO2 demand control isallowed",
    "Time delay setting for user mode Holiday",
    "Time delay setting for user mode Away",
    "Time delay setting for user mode Fire Place",
    "Time delay setting for user mode Refresh",
    "Time delay setting for user mode Crowded",
    "Remaining time for the state Holiday/Away/Fire Place/Refresh/Crowded",
    "Remaining time for the state Holiday/Away/Fire Place/Refresh/Crowded",
    "Minimum level for Demand Control. 2=Low, 3=Normal",
    "Maximum level for user Demand Control. 3=Normal, 4=High, 5=Maximum",
    "Actual IAQ level. 0=Economic, 1=Good, 2=Improving",
    "Fan speed level for mode Manual. Applies to both the SAF and the EAF fan. 0=Off, 2=Low, 3=Normal, 4=High. Value Off only allowed if contents of register REG_FAN_MANUAL_STOP_ALLOWED is 1.",
    "Fan speed level for mode Crowded. 3=Normal, 4=High, 5=Maximum",
    "Fan speed level for mode Crowded. 3=Normal, 4=High, 5=Maximum",
    "Fan speed level for mode Refresh. 3=Normal, 4=High, 5=Maximum",
    "Fan speed level for mode Refresh. 3=Normal, 4=High, 5=Maximum",
    "Fan speed level for mode Fire Place. 1=Minimum, 2=Low, 3=Normal",
    "Fan speed level for mode Fire Place. 1=Minimum, 2=Low, 3=Normal",
    "Fan speed level for mode Away. Value Off only allowed if contents of register REG_FAN_MANUAL_STOP_ALLOWED is 1.",
    "Fan speed level for mode Away. Value Off only allowed if contents of register REG_FAN_MANUAL_STOP_ALLOWED is 1.",
    "Fan speed level for mode Holiday. Value Off only allowed if contents of register REG_FAN_MANUAL_STOP_ALLOWED is 1.",
    "Fan speed level for mode Holiday. Value Off only allowed if contents of register REG_FAN_MANUAL_STOP_ALLOWED is 1.",
    "Fan speed level for mode Cooker Hood. 1=Minimum, 2=Low, 3=Normal",
    "Fan speed level for mode Cooker Hood. 1=Minimum, 2=Low, 3=Normal",
    "Fan speed level for mode Vacuum Cleaner. 1=Minimum, 2=Low, 3=Normal",
    "Fan speed level for mode Vacuum Cleaner. 1=Minimum, 2=Low, 3=Normal",
    "Temperature setpoint offset for user mode Crowded",
    "Active User mode. 0=Auto, 1=Manual, 2=Crowded, 3=Refresh, 4=Fireplace, 5=Away, 6=Holiday, 7=Cooker Hood, 8=Vacuum Cleaner, 9=CDI1, 10=CDI2, 11=CDI3, 12=PressureGuard",
    "New desired user mode as requested by HMI. 0=None, 1=AUTO, 2=Manual, 3=Crowded, 4=Refresh, 5=Fireplace, 6=Away, 7=Holiday",
    "Fan speed level for configurable digital input 3. 0=Off, 1=Minimum, 2=Low, 3=Normal, 4=High, 5=Maximum",
    "Fan speed level for configurable digital input 3. 0=Off, 1=Minimum, 2=Low, 3=Normal, 4=High, 5=Maximum",
    "Fan speed level for configurable digital input 3. 0=Off, 1=Minimum, 2=Low, 3=Normal, 4=High, 5=Maximum",
    "Fan speed level for configurable digital input 3. 0=Off, 1=Minimum, 2=Low, 3=Normal, 4=High, 5=Maximum",
    "Fan speed level for configurable digital input 3. 0=Off, 1=Minimum, 2=Low, 3=Normal, 4=High, 5=Maximum",
    "Fan speed level for configurable digital input 3. 0=Off, 1=Minimum, 2=Low, 3=Normal, 4=High, 5=Maximum",
    "Fan speed level for configurable pressure guard function. 0=Off, 1=Minimum, 2=Low, 3=Normal, 4=High, 5=Maximum",
    "Fan speed level for configurable pressure guard function. 0=Off, 1=Minimum, 2=Low, 3=Normal, 4=High, 5=Maximum",
    "Off delay for DI",
    "Off delay for DI",
    "Off delay for DI",
    "Off delay for DI",
    "Off delay for DI",
    "Off delay for DI",
    "Off delay for DI",
    "Off delay for DI",
    "SAF speed value for user mode Holiday. (1): Depends on regulation type. Value can be %, RPM, Pressure or Flow",
    "EAF speed value for user mode Holiday. (1): Depends on regulation type. Value can be %, RPM, Pressure or Flow",
    "SAF speed value for mode Cooker Hood. (1): Depends on regulation type. Value can be %, RPM, Pressure or Flow",
    "EAF speed value for mode Cooker Hood. (1): Depends on regulation type. Value can be %, RPM, Pressure or Flow",
    "SAF speed value for mode Vacuum Cleaner. (1): Depends on regulation type. Value can be %, RPM, Pressure or Flow",
    "EAF speed value for mode Vacuum Cleaner. (1): Depends on regulation type. Value can be %, RPM, Pressure or Flow",
    "SAF speed value for low fan speed. (1): Depends on regulation type. Value can be %, RPM, Pressure or Flow",
    "EAF speed value for low fan speed. (1): Depends on regulation type. Value can be %, RPM, Pressure or Flow",
    "Compensate only SF or both SF and EF. 0=SAF, 1=SAF/EAF",
    "Compensation value at lowest temperature.",
    "Temperature at which compensation reaches maximum value during the winter period.",
    "Temperature at which highest compensation is applied.",
    "Current outdoor compensation value",
    "Temperature at which compensation starts during the winter period.",
    "Temperature at which compensation starts during the summer period.",
    "Temperature at which compensation reaches maximum value during the summer period.",
    "Compensation value during summer period",
    "Type of fan control mode. 0=Manual, 1=RPM, 2=VAV (Constant Pressure), 3=CAV (Constant Flow), 4=DCV (External)",
    "SAF speed value for minimum fan speed. (1): Depends on regulation type. Value can be %, RPM, Pressure or Flow",
    "EAF speed value for minimum fan speed. (1): Depends on regulation type. Value can be %, RPM, Pressure or Flow",
    "SAF speed value for low fan speed. (1): Depends on regulation type. Value can be %, RPM, Pressure or Flow",
    "EAF speed value for low fan speed. (1): Depends on regulation type. Value can be %, RPM, Pressure or Flow",
    "SAF speed value for normal fan speed. (1): Depends on regulation type. Value can be %, RPM, Pressure or Flow",
    "EAF speed value for normal fan speed. (1): Depends on regulation type. Value can be %, RPM, Pressure or Flow",
    "SAF speed value for high fan speed. (1): Depends on regulation type. Value can be %, RPM, Pressure or Flow",
    "EAF speed value for high fan speed. (1): Depends on regulation type. Value can be %, RPM, Pressure or Flow",
    "SAF speed value for maximum fan speed. (1): Depends on regulation type. Value can be %, RPM, Pressure or Flow",
    "EAF speed value for maximum fan speed. (1): Depends on regulation type. Value can be %, RPM, Pressure or Flow",
    "Indicates that both fans are running",
    "Indicates that the SAF shall be turned off once the electrical reheater is cooled down.",
    "Allow manual fan stop (also as selection for user modes and Week schedule). 0=Manual stop not allowed, 1=Manual stop allowed",
    "Electrical Heater hot counter. Count down from 120 sec.",
    "Supply Air Fan Speed Level After Heater Cooling Down",
    "Extract Air Fan Speed Level After Heater Cooling Down",
    "SAF speed value for minimum fan speed",
    "EAF speed value for minimum fan speed",
    "SAF speed value for low fan speed",
    "EAF speed value for low fan speed",
    "SAF speed value for normal fan speed",
    "EAF speed value for normal fan speed",
    "SAF speed value for high fan speed",
    "EAF speed value for high fan speed",
    "SAF speed value for maximum fan speed",
    "EAF speed value for maximum fan speed",
    "SAF speed value for minimum fan speed",
    "EAF speed value for minimum fan speed",
    "SAF speed value for low fan speed",
    "EAF speed value for low fan speed",
    "SAF speed value for normal fan speed",
    "EAF speed value for normal fan speed",
    "SAF speed value for high fan speed",
    "EAF speed value for high fan speed",
    "SAF speed value for maximum fan speed",
    "EAF speed value for maximum fan speed",
    "SAF speed value for minimum fan speed",
    "EAF speed value for minimum fan speed",
    "SAF speed value for low fan speed",
    "EAF speed value for low fan speed",
    "SAF speed value for normal fan speed",
    "EAF speed value for normal fan speed",
    "SAF speed value for high fan speed",
    "EAF speed value for high fan speed",
    "SAF speed value for maximum fan speed",
    "EAF speed value for maximum fan speed",
    "SAF speed value for minimum fan speed",
    "EAF speed value for minimum fan speed",
    "SAF speed value for low fan speed",
    "EAF speed value for low fan speed",
    "SAF speed value for normal fan speed",
    "EAF speed value for normal fan speed",
    "SAF speed value for high fan speed",
    "EAF speed value for high fan speed",
    "SAF speed value for maximum fan speed",
    "EAF speed value for maximum fan speed",
    "Remaining time",
    "",
    "Remaining time",
    "",
    "Remaining time",
    "",
    "Temperature setpoint for the supply airtemperature",
    "Temperature set point for SATC, as calculated by RATC/EATC during cascade control",
    "Minimum temperature set point for the SATC",
    "Maximum temperature set point for the SATC",
    "Unit temperature control mode. 0=Supply, 1=Room, 2=Extract",
    "EAT or RAT value, used for room/extract air controller.",
    "Temperature set point for SATC, as calculated by RATC/EATC during cascade control",
    "Temperature setpoint for the supply airtemperature",
    "Output of the SATC (0-100%)",
    "SATC setpoint value",
    "SATC output signal",
    "RATC setpoint value",
    "RATC output signal",
    "Value from External Controller Input, SAF. In %.",
    "Value from External Controller Input, EAF. In %.",
    "Temperature at which the Heater circulation pump is started",
    "Off time delay for the heater circulation pump in minutes",
    "Enabling of cooling recovery",
    "Indicates if RH trasnfer control shall beapplied",
    "As the heat exchanger unit is rotates faster, more moisture returns indoors. If there is a demand to eject moisture outdoors, the rotor speed is limited. This register determines the maximum speed of the rotor due to moisture transfer.",
    "Heater TRIAC after manual override",
    "Pband setting for RH transfer control",
    "Itime setting for RH transfer control",
    "Set point setting for RH transfer control",
    "Enabling of humidity transfer control",
    "Extract air specific humidity (g/kg)",
    "Outdoor air specific humidity at assumed 90% RH outdoors",
    "Moisture transfer control specific humidity setpoint",
    "Cooler signal",
    "Temperature at which the cooler circulation pump is started",
    "Temperature at which cooling recovery is allowed",
    "Temperature at which cooling is interlocked",
    "Off time delay for the cooler circulation pump in minutes",
    "Set point value for the extra controller PI regulator",
    "Start temperature for extra controller circulation pump",
    "Off time delay for the extra controller circulation pump in minutes",
    "Temperature setpoint for the preheater. 0=Auto, 1=Manual",
    "",
    "",
    "",
    "",
    "Start temperature for the change-over circulation pump",
    "Off time delay for the change-over circulation pump in minutes",
    "Temperature offset for heating during Eco mode",
    "Enabling of eco mode",
    "Indicates if conditions for ECO mode are",
    "Is the function currently active?",
    "Is the function currently active?",
    "Is the function currently active?",
    "Is the function currently active?",
    "Is the function currently active?",
    "Is the function currently active?",
    "Is the function currently active?",
    "Is the function currently active?",
    "Is the function currently active?",
    "Is the function currently active?",
    "Is the function currently active?",
    "Is the function currently active?",
    "Is the function currently active?",
    "Is the function currently active?",
    "Is the function currently active?",
    "Is the function currently active?",
    "Is the function currently active?",
    "Indicates if free cooling is enabled",
    "Minimum of highest daytime temperature for start of free cooling.",
    "Highest night temperature limit for termination free cooling",
    "Lowest night temperature limit for termination free cooling",
    "Lowest temperature room temperature for termination of free cooling",
    "Start time of free cooling night-period, hour. Valid range is from 0 to 8 and from 21 to 23.",
    "Start time of free cooling night-period, Minute",
    "End time of free cooling night-period, hour. Valid range is from 0 to 8 and from 21 to 23.",
    "End time of free cooling night-period, Minute",
    "Indicates if free cooling is being performed",
    "Minimum speed level during free cooling, SAF. 3=Normal, 4=High, 5=Maximum",
    "Minimum speed level during free cooling, EAF. 3=Normal, 4=High, 5=Maximum",
    "Temperature offset during active week schedule.",
    "Temperature offset during inactive week schedule.",
    "Monday, Period 1, start",
    "",
    "Monday, Period 1, end",
    "",
    "Monday, Period 2, start",
    "",
    "Monday, Period 2, end",
    "",
    "Tuesday, Period 1, start",
    "",
    "Tuesday, Period 1, end",
    "",
    "Tuesday, Period 2, start",
    "",
    "Tuesday, Period 2, end",
    "",
    "Wednesday, Period 1, start",
    "",
    "Wednesday, Period 1, end",
    "",
    "Wednesday, Period 2, start",
    "",
    "Wednesday, Period 2, end",
    "",
    "Thursday, Period 1, start",
    "",
    "Thursday, Period 1, end",
    "",
    "Thursday, Period 2, start",
    "",
    "Thursday, Period 2, end",
    "",
    "Friday, Period 1, start",
];

/// Descriptions of the next 250 registers.
pub const DESCRIPTIONS_2: [&'static str; 250] = [
    "",
    "Friday, Period 1, end",
    "",
    "Friday, Period 2, start",
    "",
    "Friday, Period 2, end",
    "",
    "Saturday, Period 1, start",
    "",
    "Saturday, Period 1, end",
    "",
    "Saturday, Period 2, start",
    "",
    "Saturday, Period 2, end",
    "",
    "Sunday, Period 1, start",
    "",
    "Sunday, Period 1, end",
    "",
    "Sunday, Period 2, start",
    "",
    "Sunday, Period 2, end",
    "",
    "Indicates that the current time lays within the indicated intervals",
    "Fan speed levels for SAF and EAF during active week schedule. 1=Off, 2=Low, 3=Normal, 4=High, 5=Demand. Off available if Manual Fan Stop is enabled. Demand available if demand control active or external fan control enabled.",
    "Fan speed levels for SAF and EAF during inactive week schedule. 1=Off, 2=Low, 3=Normal, 4=High, 5=Demand. Off available if Manual Fan Stop is enabled. Demand available if demand control active or external fan control enabled.",
    "Flag indicating if this period is enabled.",
    "Flag indicating if this period is enabled.",
    "Flag indicating if this period is enabled.",
    "Flag indicating if this period is enabled.",
    "Flag indicating if this period is enabled.",
    "Flag indicating if this period is enabled.",
    "Flag indicating if this period is enabled.",
    "Flag indicating if this period is enabled.",
    "Flag indicating if this period is enabled.",
    "Flag indicating if this period is enabled.",
    "Flag indicating if this period is enabled.",
    "Flag indicating if this period is enabled.",
    "Flag indicating if this period is enabled.",
    "Flag indicating if this period is enabled.",
    "Current time",
    "Current time",
    "Current time",
    "Current time",
    "Current time",
    "Current time",
    "Flag indicating if DST is enabled. 0=Daylight saving time not enabled, 1=Daylight saving time enabled",
    "Indicaties the presentation of time in the HMI. 24H/12H",
    "Monday (0)...Sunday (6)",
    "",
    "Now time in seconds. Lower 16 bits.",
    "Now time in seconds. Higher 16 bits.",
    "",
    "",
    "RTC value in seconds, highest 16 bits",
    "Filter replacement time in months",
    "Timestamp of latest filter replcement, lower 16 bits",
    "Timestamp of latest filter replcement, higher 16 bits",
    "Indicates that the LastFilterReplacementTime shall be set Now.",
    "Remaining filter time in seconds, lower 16 bits.",
    "Remaining filter time in seconds, higher 16 bits.",
    "Indicates if the filter warning alarm wasgenerated.",
    "Unit for CAV control mode. 0=l/s, 1=m³/h, 2=cfm",
    "Units for VAV control mode. 0=Pa, 1=InH2O",
    "Units for temperature. 0=Celcius, 1=Fahrenheit",
    "Indicates what kind of DI functionality is connected to DI1. 0=None, 1=Away, 2=BYP, 3=Vacuum Cleaner, 4=Cooker Hood, 5=Crowded, 6=EMT, 7=External Stop, 8=Extra Controller Alarm, 9=Fireplace, 10=Holiday, 11=Refresh, 12=RGS, 13=Change Over Feedback, 14=Fire Alarm, 15=Configurable DI1, 16=Configurable DI2, 17=Configurable DI3, 18=Pressure Guard",
    "Indicates what kind of DI functionality is connected to DI1. 0=None, 1=Away, 2=BYP, 3=Vacuum Cleaner, 4=Cooker Hood, 5=Crowded, 6=EMT, 7=External Stop, 8=Extra Controller Alarm, 9=Fireplace, 10=Holiday, 11=Refresh, 12=RGS, 13=Change Over Feedback, 14=Fire Alarm, 15=Configurable DI1, 16=Configurable DI2, 17=Configurable DI3, 18=Pressure Guard",
    "Polarity of DI1. 0=NO, 1=NC",
    "Polarity of DI1. 0=NO, 1=NC",
    "mV",
    "mV",
    "mV",
    "mV",
    "mV",
    "mV",
    "State of UI1",
    "State of UI2",
    "State of UI3",
    "State of UI4",
    "State of UI5",
    "State of UI6",
    "Boolean",
    "Boolean",
    "Frost Protection Temperature sensor value (Water Heater)",
    "Outdoor Air Temperature sensor (standard)",
    "Supply Air Temperature sensor (standard)",
    "Room Air Temperature sensor (accessory)",
    "Extract Air Temperature sensor (accessory)",
    "Extra Controller Temperature sensor (accessory)",
    "Efficiency temperature sensor (accessory)",
    "Over Heat Temperature sensor (Electrical Heater)",
    "Relative Humidity Sensor (Accessory)",
    "Rotating guard Sensor input",
    "CO2 value (accessory)",
    "PDM RHS sensor value (standard)",
    "CO2 sensor value - UI1 (accessory)",
    "CO2 sensor value - UI2 (accessory)",
    "CO2 sensor value - UI3 (accessory)",
    "CO2 sensor value - UI4 (accessory)",
    "CO2 sensor value - UI5 (accessory)",
    "CO2 sensor value - UI6 (accessory)",
    "RH sensor value - UI1 (accessory)",
    "RH sensor value - UI2 (accessory)",
    "RH sensor value - UI3 (accessory)",
    "RH sensor value - UI4 (accessory)",
    "RH sensor value - UI5 (accessory)",
    "RH sensor value - UI6 (accessory)",
    "Value of physical Digital Input of Away function",
    "Value of physical Digital Input of Holiday function",
    "Value of physical Digital Input of Fireplace function",
    "Value of physical Digital Input of Refresh function",
    "Value of physical Digital Input of Crowded function",
    "Value of physical Digital Input of Cookerhood function",
    "Value of physical Digital Input of Vacuum Cleaner function",
    "External Stop input value",
    "Load Detected input value",
    "Extra controller EMT input value",
    "Fire Alarm input value",
    "Change over feedback value",
    "Indicates if physical DI is active",
    "Indicates if physical DI is active",
    "Indicates if physical DI is active",
    "Indicates if physical DI is active",
    "Supply Air Fan RPM indication from TACHO",
    "Extract Air Fan RPM indication from TACHO",
    "Flow value calculated from piggyback pressure sensor.",
    "Flow value calculated from piggyback pressure sensor.",
    "Value from Bypass Damper Feedback input.In %.",
    "PDM EAT sensor value (standard)",
    "Enable manual override of the device input. 0=AUTO, 1=OVERRIDE",
    "Enable manual override of the device input. 0=AUTO, 1=OVERRIDE",
    "Enable manual override of the device input. 0=AUTO, 1=OVERRIDE",
    "Enable manual override of the device input. 0=AUTO, 1=OVERRIDE",
    "Enable manual override of the device input. 0=AUTO, 1=OVERRIDE",
    "Enable manual override of the device input. 0=AUTO, 1=OVERRIDE",
    "Enable manual override of the device input. 0=AUTO, 1=OVERRIDE",
    "Enable manual override of the device input. 0=AUTO, 1=OVERRIDE",
    "Enable manual override of the device input. 0=AUTO, 1=OVERRIDE",
    "Enable manual override of the device input. 0=AUTO, 1=OVERRIDE",
    "Enable manual override of the device input. 0=AUTO, 1=OVERRIDE",
    "Enable manual override of the device input. 0=AUTO, 1=OVERRIDE",
    "Enable manual override of the device input. 0=AUTO, 1=OVERRIDE",
    "Enable manual override of the device input. 0=AUTO, 1=OVERRIDE",
    "Enable manual override of the device input. 0=AUTO, 1=OVERRIDE",
    "Enable manual override of the device input. 0=AUTO, 1=OVERRIDE",
    "Enable manual override of the device input. 0=AUTO, 1=OVERRIDE",
    "Enable manual override of the device input. 0=AUTO, 1=OVERRIDE",
    "Enable manual override of the device input. 0=AUTO, 1=OVERRIDE",
    "Enable manual override of the device input. 0=AUTO, 1=OVERRIDE",
    "Value to override the device input with.",
    "Value to override the device input with.",
    "Value to override the device input with.",
    "Value to override the device input with.",
    "Value to override the device input with.",
    "Value to override the device input with.",
    "Value to override the device input with.",
    "Value to override the device input with.",
    "Value to override the device input with.",
    "Value to override the device input with.",
    "Value to override the device input with.",
    "Value to override the device input with.",
    "Value to override the device input with.",
    "Value to override the device input with.",
    "Value to override the device input with.",
    "Value to override the device input with.",
    "Value to override the device input with.",
    "Value to override the device input with.",
    "Value to override the device input with.",
    "Value to override the device input with.",
    "Value to override the device input with.",
    "Value to override the device input with.",
    "Indicates if the TRIAC shall be used",
    "Digital output after multiplexer",
    "Digital output after multiplexer",
    "Digital output after multiplexer",
    "Digital output after multiplexer",
    "Analog output after multiplexer",
    "Analog output after multiplexer",
    "Analog output after multiplexer",
    "Analog output after multiplexer",
    "Analog output after multiplexer",
    "SAF Override. 0=Auto, 1=Manual",
    "EAF Override. 0=Auto, 1=Manual",
    "SAF Override value in % if manual (1) selected",
    "EAF override value in % if manual (1) selected",
    "SAF fan speed",
    "EAF fan speed",
    "Sum Alarm DO. 0=Output not active, 1=Output active",
    "Indicates if Outdoor/Exhaust air damper signal is On/Off",
    "Heater AO state.",
    "Heater DO state. 0=Output not active, 1=Output active",
    "Heat Exchanger AO state.",
    "Heat Exchanger DO state. 0=Output notactive, 1=Output active",
    "Cooler AO state.",
    "Cooler DO state. 0=Output not active, 1=Output active",
    "Extra controller AO state.",
    "Extra controller DO state: 0=Output not active, 1=Output active",
    "Heating circulation pump output",
    "Cooler circulation pump output",
    "Change-over circulation pump output",
    "Extra controller circulation pump output",
    "Voltage signal from AO1",
    "Voltage signal from AO2",
    "Voltage signal from AO3",
    "Voltage signal from AO4",
    "Voltage signal from AO5",
    "State of DO1",
    "State of DO2",
    "State of DO3",
    "State of DO4",
    "Supply air fan control signal in %",
    "Extract air fan control signal in %",
    "TRIAC control signal",
    "Alarm active/inactive. 0=Inactive, 1=Active, 2=Waiting, 3=Cleared Error Active",
    "Signal to clear the alarm",
    "Alarm active/inactive. 0=Inactive, 1=Active, 2=Waiting, 3=Cleared Error Active",
    "Signal to clear the alarm",
    "Alarm active/inactive. 0=Inactive, 1=Active, 2=Waiting, 3=Cleared Error Active",
    "Signal to clear the alarm",
    "Alarm active/inactive. 0=Inactive, 1=Active, 2=Waiting, 3=Cleared Error Active",
    "Signal to clear the alarm",
    "Alarm active/inactive. 0=Inactive, 1=Active, 2=Waiting, 3=Cleared Error Active",
    "Signal to clear the alarm",
    "Alarm active/inactive. 0=Inactive, 1=Active, 2=Waiting, 3=Cleared Error Active",
    "Signal to clear the alarm",
    "Alarm active/inactive. 0=Inactive, 1=Active, 2=Waiting, 3=Cleared Error Active",
    "Signal to clear the alarm",
    "Alarm active/inactive. 0=Inactive, 1=Active, 2=Waiting, 3=Cleared Error Active",
    "Signal to clear the alarm",
    "Alarm active/inactive. 0=Inactive, 1=Active, 2=Waiting, 3=Cleared Error Active",
    "Signal to clear the alarm",
    "Alarm active/inactive. 0=Inactive, 1=Active, 2=Waiting, 3=Cleared Error Active",
    "Signal to clear the alarm",
    "Alarm active/inactive. 0=Inactive, 1=Active, 2=Waiting, 3=Cleared Error Active",
    "Signal to clear the alarm",
    "Alarm active/inactive. 0=Inactive, 1=Active, 2=Waiting, 3=Cleared Error Active",
    "Signal to clear the alarm",
    "Alarm active/inactive. 0=Inactive, 1=Active, 2=Waiting, 3=Cleared Error Active",
    "Signal to clear the alarm",
    "Alarm active/inactive. 0=Inactive, 1=Active, 2=Waiting, 3=Cleared Error Active",
    "Signal to clear the alarm",
    "Alarm active/inactive. 0=Inactive, 1=Active, 2=Waiting, 3=Cleared Error Active",
    "Signal to clear the alarm",
    "Alarm active/inactive. 0=Inactive, 1=Active, 2=Waiting, 3=Cleared Error Active",
    "Signal to clear the alarm",
    "Alarm active/inactive. 0=Inactive, 1=Active, 2=Waiting, 3=Cleared Error Active",
    "Signal to clear the alarm",
    "Alarm active/inactive. 0=Inactive, 1=Active, 2=Waiting, 3=Cleared Error Active",
    "Signal to clear the alarm",
    "Alarm active/inactive. 0=Inactive, 1=Active, 2=Waiting, 3=Cleared Error Active",
];

/// Descriptions of the other registers.
pub const DESCRIPTIONS_3: [&'static str; 249] = [
    "Signal to clear the alarm",
    "Alarm active/inactive. 0=Inactive, 1=Active, 2=Waiting, 3=Cleared Error Active",
    "Signal to clear the alarm",
    "Alarm active/inactive. 0=Inactive, 1=Active, 2=Waiting, 3=Cleared Error Active",
    "Signal to clear the alarm",
    "Alarm active/inactive. 0=Inactive, 1=Active, 2=Waiting, 3=Cleared Error Active",
    "Signal to clear the alarm",
    "Alarm active/inactive. 0=Inactive, 1=Active, 2=Waiting, 3=Cleared Error Active",
    "Signal to clear the alarm",
    "Alarm active/inactive. 0=Inactive, 1=Active, 2=Waiting, 3=Cleared Error Active",
    "Signal to clear the alarm",
    "Alarm active/inactive. 0=Inactive, 1=Active, 2=Waiting, 3=Cleared Error Active",
    "Signal to clear the alarm",
    "Alarm active/inactive. 0=Inactive, 1=Active, 2=Waiting, 3=Cleared Error Active",
    "Signal to clear the alarm",
    "Alarm active/inactive. 0=Inactive, 1=Active, 2=Waiting, 3=Cleared Error Active",
    "Signal to clear the alarm",
    "Alarm active/inactive. 0=Inactive, 1=Active, 2=Waiting, 3=Cleared Error Active",
    "Signal to clear the alarm",
    "Alarm active/inactive. 0=Inactive, 1=Active, 2=Waiting, 3=Cleared Error Active",
    "Signal to clear the alarm",
    "Alarm active/inactive. 0=Inactive, 1=Active, 2=Waiting, 3=Cleared Error Active",
    "Signal to clear the alarm",
    "Alarm active/inactive. 0=Inactive, 1=Active, 2=Waiting, 3=Cleared Error Active",
    "Signal to clear the alarm",
    "Alarm active/inactive. 0=Inactive, 1=Active, 2=Waiting, 3=Cleared Error Active",
    "Signal to clear the alarm",
    "Counter for delay",
    "Alarm log information",
    "Alarm log information",
    "Alarm log information",
    "Alarm log information",
    "Alarm log information",
    "Alarm log information",
    "Alarm log information",
    "Alarm log information",
    "Alarm log information",
    "Alarm log information",
    "Alarm log information",
    "Alarm log information",
    "Alarm log information",
    "Alarm log information",
    "Alarm log information",
    "Alarm log information",
    "Alarm log information",
    "Alarm log information",
    "Alarm log information",
    "Alarm log information",
    "Alarm log information",
    "Alarm log information",
    "Alarm log information",
    "Alarm log information",
    "Alarm log information",
    "Alarm log information",
    "Alarm log information",
    "Alarm log information",
    "Alarm log information",
    "Alarm log information",
    "Alarm log information",
    "Alarm log information",
    "Alarm log information",
    "Alarm log information",
    "Alarm log information",
    "Alarm log information",
    "Alarm log information",
    "Alarm log information",
    "Alarm log information",
    "Alarm log information",
    "Alarm log information",
    "Alarm log information",
    "Alarm log information",
    "Alarm log information",
    "Alarm log information",
    "Alarm log information",
    "Alarm log information",
    "Alarm log information",
    "Alarm log information",
    "Alarm log information",
    "Alarm log information",
    "Alarm log information",
    "Alarm log information",
    "Alarm log information",
    "Alarm log information",
    "Alarm log information",
    "Alarm log information",
    "Alarm log information",
    "Alarm log information",
    "Alarm log information",
    "Alarm log information",
    "Alarm log information",
    "Alarm log information",
    "Alarm log information",
    "Alarm log information",
    "Alarm log information",
    "Alarm log information",
    "Alarm log information",
    "Alarm log information",
    "Alarm log information",
    "Alarm log information",
    "Alarm log information",
    "Alarm log information",
    "Alarm log information",
    "Alarm log information",
    "Alarm log information",
    "Alarm log information",
    "Alarm log information",
    "Alarm log information",
    "Alarm log information",
    "Alarm log information",
    "Alarm log information",
    "Alarm log information",
    "Alarm log information",
    "Alarm log information",
    "Alarm log information",
    "Alarm log information",
    "Alarm log information",
    "Alarm log information",
    "Alarm log information",
    "Alarm log information",
    "Alarm log information",
    "Alarm log information",
    "Alarm log information",
    "Alarm log information",
    "Alarm log information",
    "Alarm log information",
    "Alarm log information",
    "Alarm log information",
    "Alarm log information",
    "Alarm log information",
    "Alarm log information",
    "Alarm log information",
    "Alarm log information",
    "Alarm log information",
    "Alarm log information",
    "Alarm log information",
    "Alarm log information",
    "Alarm log information",
    "Alarm log information",
    "Alarm log information",
    "Alarm log information",
    "Alarm log information",
    "Alarm log information",
    "Alarm log information",
    "Alarm log information",
    "Alarm log information",
    "Alarm log information",
    "Alarm log information",
    "Alarm log information",
    "Alarm log information",
    "Alarm log information",
    "Alarm log information",
    "Alarm log information",
    "Alarm log information",
    "Alarm log information",
    "Alarm log information",
    "Alarm log information",
    "Alarm log information",
    "Alarm log information",
    "Alarm log information",
    "Alarm log information",
    "Alarm log information",
    "Alarm log information",
    "Alarm log information",
    "Alarm log information",
    "Alarm log information",
    "Alarm log information",
    "Alarm log information",
    "Alarm log information",
    "Alarm log information",
    "Alarm log information",
    "Alarm log information",
    "Alarm log information",
    "Alarm log information",
    "Alarm log information",
    "Alarm log information",
    "Alarm log information",
    "Alarm log information",
    "Alarm log information",
    "Alarm log information",
    "Alarm log information",
    "Alarm log information",
    "Alarm log information",
    "Alarm log information",
    "Alarm log information",
    "Alarm log information",
    "Alarm log information",
    "Alarm log information",
    "Alarm log information",
    "Alarm log information",
    "Alarm log information",
    "Alarm log information",
    "Alarm log information",
    "Alarm log information",
    "Alarm log information",
    "Alarm log information",
    "Alarm log information",
    "Alarm log information",
    "Alarm log information",
    "Alarm log information",
    "Alarm log information",
    "Alarm log information",
    "Alarm log information",
    "Alarm log information",
    "Alarm log information",
    "Alarm log information",
    "Alarm log information",
    "Alarm log information",
    "Alarm log information",
    "Alarm log information",
    "Alarm log information",
    "Alarm log information",
    "Alarm log information",
    "Alarm log information",
    "Alarm log information",
    "Alarm log information",
    "Alarm log information",
    "Alarm log information",
    "Alarm log information",
    "Alarm log information",
    "Alarm log information",
    "Alarm log information",
    "Alarm log information",
    "Alarm log information",
    "Alarm log information",
    "Alarm log information",
    "Alarm log information",
    "Alarm log information",
    "Alarm log information",
    "Indicates if an alarm Type A is active",
    "Indicates if an alarm Type B is active",
    "Indicates if an alarm Type C is active",
    "Administrator password. Bit 12-15: digit 1, Bit 8-11: digit 2, Bit 4-7: digit 3, Bit 0-3: digit 4",
    "Indicates if the User level is locked. 0=User menu locked, 1=User menu not locked",
    "Indicates if the Filter menu is locked. 0=menu locked, 1=menu not locked",
    "Indicates if the Week schedule menu islocked. 0=menu locked, 1=menu not locked",
    "Home screen lock",
    "Filter Change menu lock",
    "Week schedule menu lock",
    "",
    "",
    "Indicates if the start-up wizard shall beactivated.",
    "Modbus address of the MB. Only relevant if the MB is a modbus slave.",
    "Baudrate of the modbus connection. 0=1200, 1=2400, 2=4800, 3=9600, 4=14400, 5=19200, 6=28800, 7=38400, 8=57600, 9=76800, 10=115200",
    "Parity setting for the modbus connection. 0=None, 1=Even, 2=Odd",
    "Activates setting of the parameters to their default values. Only activated by writing 3228 to this register.",
    "",
    "",
    "",
    "",
];


/// The addresses of the registers from position `n` on increase.
spec fn increasing_from(n: int) -> bool
    decreases REGISTER_COUNT - n,
{
    if n < 0 || n + 1 >= REGISTER_COUNT {
        true
    } else {
        ADDRESSES@[n] < ADDRESSES@[n + 1] && increasing_from(n + 1)
    }
}

proof fn lemma_increasing_from_start()
    ensures
        increasing_from(0),
{
    assert(increasing_from(748));
    assert(increasing_from(747));
    assert(increasing_from(746));
    assert(increasing_from(745));
    assert(increasing_from(744));
    assert(increasing_from(743));
    assert(increasing_from(742));
    assert(increasing_from(741));
    assert(increasing_from(740));
    assert(increasing_from(739));
    assert(increasing_from(738));
    assert(increasing_from(737));
    assert(increasing_from(736));
    assert(increasing_from(735));
    assert(increasing_from(734));
    assert(increasing_from(733));
    assert(increasing_from(732));
    assert(increasing_from(731));
    assert(increasing_from(730));
    assert(increasing_from(729));
    assert(increasing_from(728));
    assert(increasing_from(727));
    assert(increasing_from(726));
    assert(increasing_from(725));
    assert(increasing_from(724));
    assert(increasing_from(723));
    assert(increasing_from(722));
    assert(increasing_from(721));
    assert(increasing_from(720));
    assert(increasing_from(719));
    assert(increasing_from(718));
    assert(increasing_from(717));
    assert(increasing_from(716));
    assert(increasing_from(715));
    assert(increasing_from(714));
    assert(increasing_from(713));
    assert(increasing_from(712));
    assert(increasing_from(711));
    assert(increasing_from(710));
    assert(increasing_from(709));
    assert(increasing_from(708));
    assert(increasing_from(707));
    assert(increasing_from(706));
    assert(increasing_from(705));
    assert(increasing_from(704));
    assert(increasing_from(703));
    assert(increasing_from(702));
    assert(increasing_from(701));
    assert(increasing_from(700));
    assert(increasing_from(699));
    assert(increasing_from(698));
    assert(increasing_from(697));
    assert(increasing_from(696));
    assert(increasing_from(695));
    assert(increasing_from(694));
    assert(increasing_from(693));
    assert(increasing_from(692));
    assert(increasing_from(691));
    assert(increasing_from(690));
    assert(increasing_from(689));
    assert(increasing_from(688));
    assert(increasing_from(687));
    assert(increasing_from(686));
    assert(increasing_from(685));
    assert(increasing_from(684));
    assert(increasing_from(683));
    assert(increasing_from(682));
    assert(increasing_from(681));
    assert(increasing_from(680));
    assert(increasing_from(679));
    assert(increasing_from(678));
    assert(increasing_from(677));
    assert(increasing_from(676));
    assert(increasing_from(675));
    assert(increasing_from(674));
    assert(increasing_from(673));
    assert(increasing_from(672));
    assert(increasing_from(671));
    assert(increasing_from(670));
    assert(increasing_from(669));
    assert(increasing_from(668));
    assert(increasing_from(667));
    assert(increasing_from(666));
    assert(increasing_from(665));
    assert(increasing_from(664));
    assert(increasing_from(663));
    assert(increasing_from(662));
    assert(increasing_from(661));
    assert(increasing_from(660));
    assert(increasing_from(659));
    assert(increasing_from(658));
    assert(increasing_from(657));
    assert(increasing_from(656));
    assert(increasing_from(655));
    assert(increasing_from(654));
    assert(increasing_from(653));
    assert(increasing_from(652));
    assert(increasing_from(651));
    assert(increasing_from(650));
    assert(increasing_from(649));
    assert(increasing_from(648));
    assert(increasing_from(647));
    assert(increasing_from(646));
    assert(increasing_from(645));
    assert(increasing_from(644));
    assert(increasing_from(643));
    assert(increasing_from(642));
    assert(increasing_from(641));
    assert(increasing_from(640));
    assert(increasing_from(639));
    assert(increasing_from(638));
    assert(increasing_from(637));
    assert(increasing_from(636));
    assert(increasing_from(635));
    assert(increasing_from(634));
    assert(increasing_from(633));
    assert(increasing_from(632));
    assert(increasing_from(631));
    assert(increasing_from(630));
    assert(increasing_from(629));
    assert(increasing_from(628));
    assert(increasing_from(627));
    assert(increasing_from(626));
    assert(increasing_from(625));
    assert(increasing_from(624));
    assert(increasing_from(623));
    assert(increasing_from(622));
    assert(increasing_from(621));
    assert(increasing_from(620));
    assert(increasing_from(619));
    assert(increasing_from(618));
    assert(increasing_from(617));
    assert(increasing_from(616));
    assert(increasing_from(615));
    assert(increasing_from(614));
    assert(increasing_from(613));
    assert(increasing_from(612));
    assert(increasing_from(611));
    assert(increasing_from(610));
    assert(increasing_from(609));
    assert(increasing_from(608));
    assert(increasing_from(607));
    assert(increasing_from(606));
    assert(increasing_from(605));
    assert(increasing_from(604));
    assert(increasing_from(603));
    assert(increasing_from(602));
    assert(increasing_from(601));
    assert(increasing_from(600));
    assert(increasing_from(599));
    assert(increasing_from(598));
    assert(increasing_from(597));
    assert(increasing_from(596));
    assert(increasing_from(595));
    assert(increasing_from(594));
    assert(increasing_from(593));
    assert(increasing_from(592));
    assert(increasing_from(591));
    assert(increasing_from(590));
    assert(increasing_from(589));
    assert(increasing_from(588));
    assert(increasing_from(587));
    assert(increasing_from(586));
    assert(increasing_from(585));
    assert(increasing_from(584));
    assert(increasing_from(583));
    assert(increasing_from(582));
    assert(increasing_from(581));
    assert(increasing_from(580));
    assert(increasing_from(579));
    assert(increasing_from(578));
    assert(increasing_from(577));
    assert(increasing_from(576));
    assert(increasing_from(575));
    assert(increasing_from(574));
    assert(increasing_from(573));
    assert(increasing_from(572));
    assert(increasing_from(571));
    assert(increasing_from(570));
    assert(increasing_from(569));
    assert(increasing_from(568));
    assert(increasing_from(567));
    assert(increasing_from(566));
    assert(increasing_from(565));
    assert(increasing_from(564));
    assert(increasing_from(563));
    assert(increasing_from(562));
    assert(increasing_from(561));
    assert(increasing_from(560));
    assert(increasing_from(559));
    assert(increasing_from(558));
    assert(increasing_from(557));
    assert(increasing_from(556));
    assert(increasing_from(555));
    assert(increasing_from(554));
    assert(increasing_from(553));
    assert(increasing_from(552));
    assert(increasing_from(551));
    assert(increasing_from(550));
    assert(increasing_from(549));
    assert(increasing_from(548));
    assert(increasing_from(547));
    assert(increasing_from(546));
    assert(increasing_from(545));
    assert(increasing_from(544));
    assert(increasing_from(543));
    assert(increasing_from(542));
    assert(increasing_from(541));
    assert(increasing_from(540));
    assert(increasing_from(539));
    assert(increasing_from(538));
    assert(increasing_from(537));
    assert(increasing_from(536));
    assert(increasing_from(535));
    assert(increasing_from(534));
    assert(increasing_from(533));
    assert(increasing_from(532));
    assert(increasing_from(531));
    assert(increasing_from(530));
    assert(increasing_from(529));
    assert(increasing_from(528));
    assert(increasing_from(527));
    assert(increasing_from(526));
    assert(increasing_from(525));
    assert(increasing_from(524));
    assert(increasing_from(523));
    assert(increasing_from(522));
    assert(increasing_from(521));
    assert(increasing_from(520));
    assert(increasing_from(519));
    assert(increasing_from(518));
    assert(increasing_from(517));
    assert(increasing_from(516));
    assert(increasing_from(515));
    assert(increasing_from(514));
    assert(increasing_from(513));
    assert(increasing_from(512));
    assert(increasing_from(511));
    assert(increasing_from(510));
    assert(increasing_from(509));
    assert(increasing_from(508));
    assert(increasing_from(507));
    assert(increasing_from(506));
    assert(increasing_from(505));
    assert(increasing_from(504));
    assert(increasing_from(503));
    assert(increasing_from(502));
    assert(increasing_from(501));
    assert(increasing_from(500));
    assert(increasing_from(499));
    assert(increasing_from(498));
    assert(increasing_from(497));
    assert(increasing_from(496));
    assert(increasing_from(495));
    assert(increasing_from(494));
    assert(increasing_from(493));
    assert(increasing_from(492));
    assert(increasing_from(491));
    assert(increasing_from(490));
    assert(increasing_from(489));
    assert(increasing_from(488));
    assert(increasing_from(487));
    assert(increasing_from(486));
    assert(increasing_from(485));
    assert(increasing_from(484));
    assert(increasing_from(483));
    assert(increasing_from(482));
    assert(increasing_from(481));
    assert(increasing_from(480));
    assert(increasing_from(479));
    assert(increasing_from(478));
    assert(increasing_from(477));
    assert(increasing_from(476));
    assert(increasing_from(475));
    assert(increasing_from(474));
    assert(increasing_from(473));
    assert(increasing_from(472));
    assert(increasing_from(471));
    assert(increasing_from(470));
    assert(increasing_from(469));
    assert(increasing_from(468));
    assert(increasing_from(467));
    assert(increasing_from(466));
    assert(increasing_from(465));
    assert(increasing_from(464));
    assert(increasing_from(463));
    assert(increasing_from(462));
    assert(increasing_from(461));
    assert(increasing_from(460));
    assert(increasing_from(459));
    assert(increasing_from(458));
    assert(increasing_from(457));
    assert(increasing_from(456));
    assert(increasing_from(455));
    assert(increasing_from(454));
    assert(increasing_from(453));
    assert(increasing_from(452));
    assert(increasing_from(451));
    assert(increasing_from(450));
    assert(increasing_from(449));
    assert(increasing_from(448));
    assert(increasing_from(447));
    assert(increasing_from(446));
    assert(increasing_from(445));
    assert(increasing_from(444));
    assert(increasing_from(443));
    assert(increasing_from(442));
    assert(increasing_from(441));
    assert(increasing_from(440));
    assert(increasing_from(439));
    assert(increasing_from(438));
    assert(increasing_from(437));
    assert(increasing_from(436));
    assert(increasing_from(435));
    assert(increasing_from(434));
    assert(increasing_from(433));
    assert(increasing_from(432));
    assert(increasing_from(431));
    assert(increasing_from(430));
    assert(increasing_from(429));
    assert(increasing_from(428));
    assert(increasing_from(427));
    assert(increasing_from(426));
    assert(increasing_from(425));
    assert(increasing_from(424));
    assert(increasing_from(423));
    assert(increasing_from(422));
    assert(increasing_from(421));
    assert(increasing_from(420));
    assert(increasing_from(419));
    assert(increasing_from(418));
    assert(increasing_from(417));
    assert(increasing_from(416));
    assert(increasing_from(415));
    assert(increasing_from(414));
    assert(increasing_from(413));
    assert(increasing_from(412));
    assert(increasing_from(411));
    assert(increasing_from(410));
    assert(increasing_from(409));
    assert(increasing_from(408));
    assert(increasing_from(407));
    assert(increasing_from(406));
    assert(increasing_from(405));
    assert(increasing_from(404));
    assert(increasing_from(403));
    assert(increasing_from(402));
    assert(increasing_from(401));
    assert(increasing_from(400));
    assert(increasing_from(399));
    assert(increasing_from(398));
    assert(increasing_from(397));
    assert(increasing_from(396));
    assert(increasing_from(395));
    assert(increasing_from(394));
    assert(increasing_from(393));
    assert(increasing_from(392));
    assert(increasing_from(391));
    assert(increasing_from(390));
    assert(increasing_from(389));
    assert(increasing_from(388));
    assert(increasing_from(387));
    assert(increasing_from(386));
    assert(increasing_from(385));
    assert(increasing_from(384));
    assert(increasing_from(383));
    assert(increasing_from(382));
    assert(increasing_from(381));
    assert(increasing_from(380));
    assert(increasing_from(379));
    assert(increasing_from(378));
    assert(increasing_from(377));
    assert(increasing_from(376));
    assert(increasing_from(375));
    assert(increasing_from(374));
    assert(increasing_from(373));
    assert(increasing_from(372));
    assert(increasing_from(371));
    assert(increasing_from(370));
    assert(increasing_from(369));
    assert(increasing_from(368));
    assert(increasing_from(367));
    assert(increasing_from(366));
    assert(increasing_from(365));
    assert(increasing_from(364));
    assert(increasing_from(363));
    assert(increasing_from(362));
    assert(increasing_from(361));
    assert(increasing_from(360));
    assert(increasing_from(359));
    assert(increasing_from(358));
    assert(increasing_from(357));
    assert(increasing_from(356));
    assert(increasing_from(355));
    assert(increasing_from(354));
    assert(increasing_from(353));
    assert(increasing_from(352));
    assert(increasing_from(351));
    assert(increasing_from(350));
    assert(increasing_from(349));
    assert(increasing_from(348));
    assert(increasing_from(347));
    assert(increasing_from(346));
    assert(increasing_from(345));
    assert(increasing_from(344));
    assert(increasing_from(343));
    assert(increasing_from(342));
    assert(increasing_from(341));
    assert(increasing_from(340));
    assert(increasing_from(339));
    assert(increasing_from(338));
    assert(increasing_from(337));
    assert(increasing_from(336));
    assert(increasing_from(335));
    assert(increasing_from(334));
    assert(increasing_from(333));
    assert(increasing_from(332));
    assert(increasing_from(331));
    assert(increasing_from(330));
    assert(increasing_from(329));
    assert(increasing_from(328));
    assert(increasing_from(327));
    assert(increasing_from(326));
    assert(increasing_from(325));
    assert(increasing_from(324));
    assert(increasing_from(323));
    assert(increasing_from(322));
    assert(increasing_from(321));
    assert(increasing_from(320));
    assert(increasing_from(319));
    assert(increasing_from(318));
    assert(increasing_from(317));
    assert(increasing_from(316));
    assert(increasing_from(315));
    assert(increasing_from(314));
    assert(increasing_from(313));
    assert(increasing_from(312));
    assert(increasing_from(311));
    assert(increasing_from(310));
    assert(increasing_from(309));
    assert(increasing_from(308));
    assert(increasing_from(307));
    assert(increasing_from(306));
    assert(increasing_from(305));
    assert(increasing_from(304));
    assert(increasing_from(303));
    assert(increasing_from(302));
    assert(increasing_from(301));
    assert(increasing_from(300));
    assert(increasing_from(299));
    assert(increasing_from(298));
    assert(increasing_from(297));
    assert(increasing_from(296));
    assert(increasing_from(295));
    assert(increasing_from(294));
    assert(increasing_from(293));
    assert(increasing_from(292));
    assert(increasing_from(291));
    assert(increasing_from(290));
    assert(increasing_from(289));
    assert(increasing_from(288));
    assert(increasing_from(287));
    assert(increasing_from(286));
    assert(increasing_from(285));
    assert(increasing_from(284));
    assert(increasing_from(283));
    assert(increasing_from(282));
    assert(increasing_from(281));
    assert(increasing_from(280));
    assert(increasing_from(279));
    assert(increasing_from(278));
    assert(increasing_from(277));
    assert(increasing_from(276));
    assert(increasing_from(275));
    assert(increasing_from(274));
    assert(increasing_from(273));
    assert(increasing_from(272));
    assert(increasing_from(271));
    assert(increasing_from(270));
    assert(increasing_from(269));
    assert(increasing_from(268));
    assert(increasing_from(267));
    assert(increasing_from(266));
    assert(increasing_from(265));
    assert(increasing_from(264));
    assert(increasing_from(263));
    assert(increasing_from(262));
    assert(increasing_from(261));
    assert(increasing_from(260));
    assert(increasing_from(259));
    assert(increasing_from(258));
    assert(increasing_from(257));
    assert(increasing_from(256));
    assert(increasing_from(255));
    assert(increasing_from(254));
    assert(increasing_from(253));
    assert(increasing_from(252));
    assert(increasing_from(251));
    assert(increasing_from(250));
    assert(increasing_from(249));
    assert(increasing_from(248));
    assert(increasing_from(247));
    assert(increasing_from(246));
    assert(increasing_from(245));
    assert(increasing_from(244));
    assert(increasing_from(243));
    assert(increasing_from(242));
    assert(increasing_from(241));
    assert(increasing_from(240));
    assert(increasing_from(239));
    assert(increasing_from(238));
    assert(increasing_from(237));
    assert(increasing_from(236));
    assert(increasing_from(235));
    assert(increasing_from(234));
    assert(increasing_from(233));
    assert(increasing_from(232));
    assert(increasing_from(231));
    assert(increasing_from(230));
    assert(increasing_from(229));
    assert(increasing_from(228));
    assert(increasing_from(227));
    assert(increasing_from(226));
    assert(increasing_from(225));
    assert(increasing_from(224));
    assert(increasing_from(223));
    assert(increasing_from(222));
    assert(increasing_from(221));
    assert(increasing_from(220));
    assert(increasing_from(219));
    assert(increasing_from(218));
    assert(increasing_from(217));
    assert(increasing_from(216));
    assert(increasing_from(215));
    assert(increasing_from(214));
    assert(increasing_from(213));
    assert(increasing_from(212));
    assert(increasing_from(211));
    assert(increasing_from(210));
    assert(increasing_from(209));
    assert(increasing_from(208));
    assert(increasing_from(207));
    assert(increasing_from(206));
    assert(increasing_from(205));
    assert(increasing_from(204));
    assert(increasing_from(203));
    assert(increasing_from(202));
    assert(increasing_from(201));
    assert(increasing_from(200));
    assert(increasing_from(199));
    assert(increasing_from(198));
    assert(increasing_from(197));
    assert(increasing_from(196));
    assert(increasing_from(195));
    assert(increasing_from(194));
    assert(increasing_from(193));
    assert(increasing_from(192));
    assert(increasing_from(191));
    assert(increasing_from(190));
    assert(increasing_from(189));
    assert(increasing_from(188));
    assert(increasing_from(187));
    assert(increasing_from(186));
    assert(increasing_from(185));
    assert(increasing_from(184));
    assert(increasing_from(183));
    assert(increasing_from(182));
    assert(increasing_from(181));
    assert(increasing_from(180));
    assert(increasing_from(179));
    assert(increasing_from(178));
    assert(increasing_from(177));
    assert(increasing_from(176));
    assert(increasing_from(175));
    assert(increasing_from(174));
    assert(increasing_from(173));
    assert(increasing_from(172));
    assert(increasing_from(171));
    assert(increasing_from(170));
    assert(increasing_from(169));
    assert(increasing_from(168));
    assert(increasing_from(167));
    assert(increasing_from(166));
    assert(increasing_from(165));
    assert(increasing_from(164));
    assert(increasing_from(163));
    assert(increasing_from(162));
    assert(increasing_from(161));
    assert(increasing_from(160));
    assert(increasing_from(159));
    assert(increasing_from(158));
    assert(increasing_from(157));
    assert(increasing_from(156));
    assert(increasing_from(155));
    assert(increasing_from(154));
    assert(increasing_from(153));
    assert(increasing_from(152));
    assert(increasing_from(151));
    assert(increasing_from(150));
    assert(increasing_from(149));
    assert(increasing_from(148));
    assert(increasing_from(147));
    assert(increasing_from(146));
    assert(increasing_from(145));
    assert(increasing_from(144));
    assert(increasing_from(143));
    assert(increasing_from(142));
    assert(increasing_from(141));
    assert(increasing_from(140));
    assert(increasing_from(139));
    assert(increasing_from(138));
    assert(increasing_from(137));
    assert(increasing_from(136));
    assert(increasing_from(135));
    assert(increasing_from(134));
    assert(increasing_from(133));
    assert(increasing_from(132));
    assert(increasing_from(131));
    assert(increasing_from(130));
    assert(increasing_from(129));
    assert(increasing_from(128));
    assert(increasing_from(127));
    assert(increasing_from(126));
    assert(increasing_from(125));
    assert(increasing_from(124));
    assert(increasing_from(123));
    assert(increasing_from(122));
    assert(increasing_from(121));
    assert(increasing_from(120));
    assert(increasing_from(119));
    assert(increasing_from(118));
    assert(increasing_from(117));
    assert(increasing_from(116));
    assert(increasing_from(115));
    assert(increasing_from(114));
    assert(increasing_from(113));
    assert(increasing_from(112));
    assert(increasing_from(111));
    assert(increasing_from(110));
    assert(increasing_from(109));
    assert(increasing_from(108));
    assert(increasing_from(107));
    assert(increasing_from(106));
    assert(increasing_from(105));
    assert(increasing_from(104));
    assert(increasing_from(103));
    assert(increasing_from(102));
    assert(increasing_from(101));
    assert(increasing_from(100));
    assert(increasing_from(99));
    assert(increasing_from(98));
    assert(increasing_from(97));
    assert(increasing_from(96));
    assert(increasing_from(95));
    assert(increasing_from(94));
    assert(increasing_from(93));
    assert(increasing_from(92));
    assert(increasing_from(91));
    assert(increasing_from(90));
    assert(increasing_from(89));
    assert(increasing_from(88));
    assert(increasing_from(87));
    assert(increasing_from(86));
    assert(increasing_from(85));
    assert(increasing_from(84));
    assert(increasing_from(83));
    assert(increasing_from(82));
    assert(increasing_from(81));
    assert(increasing_from(80));
    assert(increasing_from(79));
    assert(increasing_from(78));
    assert(increasing_from(77));
    assert(increasing_from(76));
    assert(increasing_from(75));
    assert(increasing_from(74));
    assert(increasing_from(73));
    assert(increasing_from(72));
    assert(increasing_from(71));
    assert(increasing_from(70));
    assert(increasing_from(69));
    assert(increasing_from(68));
    assert(increasing_from(67));
    assert(increasing_from(66));
    assert(increasing_from(65));
    assert(increasing_from(64));
    assert(increasing_from(63));
    assert(increasing_from(62));
    assert(increasing_from(61));
    assert(increasing_from(60));
    assert(increasing_from(59));
    assert(increasing_from(58));
    assert(increasing_from(57));
    assert(increasing_from(56));
    assert(increasing_from(55));
    assert(increasing_from(54));
    assert(increasing_from(53));
    assert(increasing_from(52));
    assert(increasing_from(51));
    assert(increasing_from(50));
    assert(increasing_from(49));
    assert(increasing_from(48));
    assert(increasing_from(47));
    assert(increasing_from(46));
    assert(increasing_from(45));
    assert(increasing_from(44));
    assert(increasing_from(43));
    assert(increasing_from(42));
    assert(increasing_from(41));
    assert(increasing_from(40));
    assert(increasing_from(39));
    assert(increasing_from(38));
    assert(increasing_from(37));
    assert(increasing_from(36));
    assert(increasing_from(35));
    assert(increasing_from(34));
    assert(increasing_from(33));
    assert(increasing_from(32));
    assert(increasing_from(31));
    assert(increasing_from(30));
    assert(increasing_from(29));
    assert(increasing_from(28));
    assert(increasing_from(27));
    assert(increasing_from(26));
    assert(increasing_from(25));
    assert(increasing_from(24));
    assert(increasing_from(23));
    assert(increasing_from(22));
    assert(increasing_from(21));
    assert(increasing_from(20));
    assert(increasing_from(19));
    assert(increasing_from(18));
    assert(increasing_from(17));
    assert(increasing_from(16));
    assert(increasing_from(15));
    assert(increasing_from(14));
    assert(increasing_from(13));
    assert(increasing_from(12));
    assert(increasing_from(11));
    assert(increasing_from(10));
    assert(increasing_from(9));
    assert(increasing_from(8));
    assert(increasing_from(7));
    assert(increasing_from(6));
    assert(increasing_from(5));
    assert(increasing_from(4));
    assert(increasing_from(3));
    assert(increasing_from(2));
    assert(increasing_from(1));
    assert(increasing_from(0));
}

proof fn lemma_increasing_step(n: int, k: int)
    requires
        0 <= n <= k,
        k + 1 < REGISTER_COUNT,
        increasing_from(n),
    ensures
        ADDRESSES@[k] < ADDRESSES@[k + 1],
    decreases k - n,
{
    if n < k {
        lemma_increasing_step(n + 1, k);
    }
}

proof fn lemma_increasing_pair(i: int, j: int)
    requires
        0 <= i < j < REGISTER_COUNT,
        increasing_from(0),
    ensures
        ADDRESSES@[i] < ADDRESSES@[j],
    decreases j - i,
{
    lemma_increasing_step(0, j - 1);
    if i < j - 1 {
        lemma_increasing_pair(i, j - 1);
    }
}

/// The last register of the table is at the last known address.
pub proof fn lemma_last_address()
    ensures
        table_address(REGISTER_COUNT - 1) == 30106,
{
}

/// The register table is ordered by address, and no address occurs twice.
pub proof fn lemma_addresses_increasing()
    ensures
        forall|i: int, j: int|
            0 <= i < j < REGISTER_COUNT ==> #[trigger] table_address(i) < #[trigger] table_address(j),
{
    lemma_increasing_from_start();
    assert forall|i: int, j: int| 0 <= i < j < REGISTER_COUNT implies #[trigger] table_address(i)
        < #[trigger] table_address(j) by {
        lemma_increasing_pair(i, j);
    }
}

/// What the table holds for register `i`: its entries in the table's arrays.
pub proof fn lemma_table_entry(i: int)
    requires
        0 <= i < REGISTER_COUNT,
    ensures
        table_address(i) == ADDRESSES@[i],
        table_mode(i) == MODES@[i],
        table_data_type(i) == DATA_TYPES@[i],
        table_minimum(i) == (if HAS_MINIMUM@[i] {
            Some(MINIMUM_RAW@[i])
        } else {
            None
        }),
        table_maximum(i) == (if HAS_MAXIMUM@[i] {
            Some(MAXIMUM_RAW@[i])
        } else {
            None
        }),
        table_name(i) == (if i < 375 {
            NAMES_LOW@[i]
        } else {
            NAMES_HIGH@[i - 375]
        }),
        table_description(i) == (if i < 250 {
            DESCRIPTIONS_1@[i]
        } else if i < 500 {
            DESCRIPTIONS_2@[i - 250]
        } else {
            DESCRIPTIONS_3@[i - 500]
        }),
{
}

/// The address of register `i`.
pub closed spec fn table_address(i: int) -> u16 {
    ADDRESSES@[i]
}

/// The address of register `i`.
pub fn address_at(i: usize) -> (r: u16)
    requires
        i < REGISTER_COUNT,
    ensures
        r == table_address(i as int),
        r <= 30106,
{
    ADDRESSES[i]
}

/// The mode of register `i`.
pub closed spec fn table_mode(i: int) -> Mode {
    MODES@[i]
}

/// The mode of register `i`.
pub fn mode_at(i: usize) -> (r: Mode)
    requires
        i < REGISTER_COUNT,
    ensures
        r == table_mode(i as int),
{
    MODES[i]
}

/// The data type of register `i`.
pub closed spec fn table_data_type(i: int) -> DataType {
    DATA_TYPES@[i]
}

/// The data type of register `i`.
pub fn data_type_at(i: usize) -> (r: DataType)
    requires
        i < REGISTER_COUNT,
    ensures
        r == table_data_type(i as int),
{
    DATA_TYPES[i]
}

/// The documented minimum of register `i`, as a raw number, if there is one.
pub closed spec fn table_minimum(i: int) -> Option<i32> {
    if HAS_MINIMUM@[i] {
        Some(MINIMUM_RAW@[i])
    } else {
        None
    }
}

/// The documented minimum of register `i`, as a raw number, if there is one.
pub fn minimum_at(i: usize) -> (r: Option<i32>)
    requires
        i < REGISTER_COUNT,
    ensures
        r == table_minimum(i as int),
{
    if HAS_MINIMUM[i] {
        Some(MINIMUM_RAW[i])
    } else {
        None
    }
}

/// The documented maximum of register `i`, as a raw number, if there is one.
pub closed spec fn table_maximum(i: int) -> Option<i32> {
    if HAS_MAXIMUM@[i] {
        Some(MAXIMUM_RAW@[i])
    } else {
        None
    }
}

/// The documented maximum of register `i`, as a raw number, if there is one.
pub fn maximum_at(i: usize) -> (r: Option<i32>)
    requires
        i < REGISTER_COUNT,
    ensures
        r == table_maximum(i as int),
{
    if HAS_MAXIMUM[i] {
        Some(MAXIMUM_RAW[i])
    } else {
        None
    }
}

/// The name of register `i`.
pub closed spec fn table_name(i: int) -> &'static str {
    if i < 375 {
        NAMES_LOW@[i]
    } else {
        NAMES_HIGH@[i - 375]
    }
}

/// The description of register `i`.
pub closed spec fn table_description(i: int) -> &'static str {
    if i < 250 {
        DESCRIPTIONS_1@[i]
    } else if i < 500 {
        DESCRIPTIONS_2@[i - 250]
    } else {
        DESCRIPTIONS_3@[i - 500]
    }
}

/// The name of register `i`.
pub fn name_at(i: usize) -> (r: &'static str)
    requires
        i < REGISTER_COUNT,
    ensures
        r == table_name(i as int),
{
    if i < 375 {
        NAMES_LOW[i]
    } else {
        NAMES_HIGH[i - 375]
    }
}

/// The description of register `i`.
pub fn description_at(i: usize) -> (r: &'static str)
    requires
        i < REGISTER_COUNT,
    ensures
        r == table_description(i as int),
{
    if i < 250 {
        DESCRIPTIONS_1[i]
    } else if i < 500 {
        DESCRIPTIONS_2[i - 250]
    } else {
        DESCRIPTIONS_3[i - 500]
    }
}

} // verus!
