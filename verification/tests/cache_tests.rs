use systemair_save_tools::modbus_device_cache::{
    ModbusDeviceValues, RegisterBitmask, SetBitsIterator,
};
use systemair_save_tools::registers::{RegisterIndex, Value};

fn bitmask(addresses: &[u16]) -> RegisterBitmask {
    let mut b = RegisterBitmask::new();
    for &a in addresses {
        b.set(a);
    }
    b
}

fn ranges(b: &RegisterBitmask, max: u16) -> Vec<(u16, u16)> {
    b.find_optimal_ranges(max).into_iter().map(|r| (*r.start(), *r.end())).collect()
}

#[test]
fn bitmask_set_and_is_set() {
    let b = bitmask(&[0, 63, 64, 1001, 65471]);
    assert!(b.is_set(0));
    assert!(b.is_set(63));
    assert!(b.is_set(64));
    assert!(b.is_set(1001));
    assert!(b.is_set(65471));
    assert!(!b.is_set(1));
    assert!(!b.is_set(1000));
    assert!(!RegisterBitmask::new().is_set(5));
}

#[test]
fn bitmask_subset() {
    let small = bitmask(&[3, 200]);
    let large = bitmask(&[3, 4, 200, 9000]);
    assert!(small.is_subset_of(&large));
    assert!(!large.is_subset_of(&small));
    assert!(RegisterBitmask::new().is_subset_of(&small));
    assert!(small.is_subset_of(&small));
}

#[test]
fn set_bits_come_in_increasing_order() {
    let b = bitmask(&[1000, 5, 64, 63, 30000]);
    assert_eq!(b.set_bits(), vec![5, 63, 64, 1000, 30000]);
    let mut it = SetBitsIterator::new(&b);
    assert_eq!(it.next(), Some(5));
    assert_eq!(it.next(), Some(63));
    assert_eq!(it.next(), Some(64));
    assert_eq!(it.next(), Some(1000));
    assert_eq!(it.next(), Some(30000));
    assert_eq!(it.next(), None);
    assert_eq!(it.next(), None);
}

#[test]
fn optimal_ranges_merge_within_limit() {
    let b = bitmask(&[1, 2, 3, 10]);
    assert_eq!(ranges(&b, 5), vec![(1, 3), (10, 10)]);
    assert_eq!(ranges(&b, 10), vec![(1, 10)]);
    assert_eq!(ranges(&b, 0), vec![(1, 1), (2, 2), (3, 3), (10, 10)]);
    assert_eq!(ranges(&RegisterBitmask::new(), 10), vec![]);
}

#[test]
fn optimal_ranges_use_fewest_reads_then_fewest_registers() {
    let b = bitmask(&[1, 4, 6, 12]);
    assert_eq!(ranges(&b, 6), vec![(1, 6), (12, 12)]);
    // Equal costs keep the shortest first range.
    let b = bitmask(&[1, 4, 6, 9]);
    assert_eq!(ranges(&b, 6), vec![(1, 1), (4, 9)]);
    let b = bitmask(&[100, 101, 150, 220, 221]);
    assert_eq!(ranges(&b, 123), vec![(100, 221)]);
    assert_eq!(ranges(&b, 60), vec![(100, 150), (220, 221)]);
}

#[test]
fn device_values_read_after_write() {
    let mut values = Box::new(ModbusDeviceValues::new());
    assert!(!values.contains(1001));
    assert_eq!(values.value_of_address(1001), None);
    assert!(values.set_value(1001, 55));
    assert!(values.contains(1001));
    assert_eq!(values.value_of_address(1001), Some(55));
    assert!(!values.set_value(1001, 55));
    assert!(values.set_value(1001, 56));
    assert_eq!(values.value_of_address(1001), Some(56));
    let r = RegisterIndex::from_address(1001).unwrap();
    assert_eq!(values.value_of(r), Some(Value::U16(56)));
}

#[test]
fn device_values_typed_by_register() {
    let mut values = Box::new(ModbusDeviceValues::new());
    let oat = RegisterIndex::from_name("SENSOR_OAT").unwrap();
    assert_eq!(values.value_of(oat), None);
    values.set_value(oat.address(), 0xff38);
    assert_eq!(values.value_of(oat), Some(Value::Celsius(-200)));
}

#[test]
fn device_values_has_all_values() {
    let mut values = Box::new(ModbusDeviceValues::new());
    let needed = bitmask(&[10, 11]);
    assert!(!values.has_all_values(&needed));
    values.set_value(10, 1);
    assert!(!values.has_all_values(&needed));
    values.set_value(11, 1);
    assert!(values.has_all_values(&needed));
    assert!(values.has_all_values(&RegisterBitmask::new()));
}

#[test]
fn device_values_keep_the_last_write_of_each_register() {
    let mut values = Box::new(ModbusDeviceValues::new());
    for (address, value) in [(10u16, 1u16), (20, 2), (10, 3), (30, 4), (30, 5)] {
        values.set_value(address, value);
    }
    assert_eq!(values.value_of_address(10), Some(3));
    assert_eq!(values.value_of_address(20), Some(2));
    assert_eq!(values.value_of_address(30), Some(5));
    assert_eq!(values.value_of_address(40), None);
    assert!(!values.contains(11));
}
