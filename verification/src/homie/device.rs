//! The decisions of the Homie device: which registers it keeps reading and in which reads, what a
//! read response changes in the register cache, which properties that touches, and whether a
//! property's published value or target changes.
use crate::homie::property::PropertyEntry;
use crate::modbus::{Operation, ResponseKind, MAX_SAFE_READ_COUNT};
use crate::modbus_device_cache::{
    range_pairs, ModbusDeviceValues, RegisterBitmask, BITMASK_CAPACITY,
};
use crate::range_cover::{chosen_ranges, cover_cost, is_cover, lex_le, span_len};
use crate::registers::{be_word, RegisterIndex};
use std::ops::RangeInclusive;
use vstd::prelude::*;

verus! {

/// Some register of `registers` is at `address`.
pub open spec fn has_address(registers: Seq<RegisterIndex>, address: u16) -> bool {
    exists|k: int| 0 <= k < registers.len() && (#[trigger] registers[k]).address_spec() == address
}

/// The addresses of `registers`.
pub fn needed_registers(registers: &Vec<RegisterIndex>) -> (r: RegisterBitmask)
    ensures
        forall|a: u16| #[trigger] r@.contains(a) <==> has_address(registers@, a),
{
    let mut r = RegisterBitmask::new();
    let mut k: usize = 0;
    while k < registers.len()
        invariant
            k <= registers@.len(),
            forall|a: u16|
                #[trigger] r@.contains(a) <==> has_address(registers@.take(k as int), a),
        decreases registers@.len() - k,
    {
        let address = registers[k].address();
        r.set(address);
        assert forall|a: u16| #[trigger] r@.contains(a) <==> has_address(
            registers@.take(k + 1),
            a,
        ) by {
            if has_address(registers@.take(k as int), a) {
                let m = choose|m: int|
                    0 <= m < k && (#[trigger] registers@.take(k as int)[m]).address_spec() == a;
                assert(registers@.take(k + 1)[m] == registers@.take(k as int)[m]);
            }
            if has_address(registers@.take(k + 1), a) {
                let m = choose|m: int|
                    0 <= m < k + 1 && (#[trigger] registers@.take(k + 1)[m]).address_spec() == a;
                if m < k {
                    assert(registers@.take(k as int)[m] == registers@.take(k + 1)[m]);
                }
            }
            assert(registers@.take(k + 1)[k as int] == registers@[k as int]);
        }
        k = k + 1;
    }
    assert(registers@.take(registers@.len() as int) =~= registers@);
    r
}

/// The lower bound of an inclusive range.
///
/// Trusted: calls `RangeInclusive::start`, which returns the range's lower bound.
#[verifier::external_body]
fn range_start(r: &RangeInclusive<u16>) -> (s: u16)
    ensures
        s == r@.start,
{
    *r.start()
}

/// The upper bound of an inclusive range.
///
/// Trusted: calls `RangeInclusive::end`, which returns the range's upper bound.
#[verifier::external_body]
fn range_end(r: &RangeInclusive<u16>) -> (e: u16)
    ensures
        e == r@.end,
{
    *r.end()
}

/// The inclusive address ranges of reads given by first address and count.
pub open spec fn read_ranges(reads: Seq<(u16, u16)>) -> Seq<(u16, u16)> {
    Seq::new(reads.len(), |k: int| (reads[k].0, (reads[k].0 + reads[k].1 - 1) as u16))
}

/// The reads that keep the `needed` registers up to date: each a first address and a count of
/// at most `MAX_SAFE_READ_COUNT` registers, together covering every needed register, with the
/// fewest reads possible and, among those, the fewest registers read.
pub fn read_schedule(needed: &RegisterBitmask) -> (r: Vec<(u16, u16)>)
    ensures
        read_ranges(r@) == chosen_ranges(needed.elements(), MAX_SAFE_READ_COUNT as int, 0),
        is_cover(needed@, MAX_SAFE_READ_COUNT as int, read_ranges(r@)),
        forall|other: Seq<(u16, u16)>|
            #[trigger] is_cover(needed@, MAX_SAFE_READ_COUNT as int, other) ==> lex_le(
                cover_cost(read_ranges(r@)),
                cover_cost(other),
            ),
        forall|k: int| 0 <= k < r@.len() ==> 1 <= (#[trigger] r@[k]).1 <= MAX_SAFE_READ_COUNT,
{
    let ranges = needed.find_optimal_ranges(MAX_SAFE_READ_COUNT);
    let ghost pairs = range_pairs(ranges@);
    let mut r: Vec<(u16, u16)> = Vec::new();
    let mut k: usize = 0;
    while k < ranges.len()
        invariant
            pairs == range_pairs(ranges@),
            is_cover(needed@, MAX_SAFE_READ_COUNT as int, pairs),
            k <= ranges@.len(),
            r@.len() == k,
            forall|m: int| 0 <= m < k ==> #[trigger] read_ranges(r@)[m] == pairs[m],
            forall|m: int| 0 <= m < k ==> 1 <= (#[trigger] r@[m]).1 <= MAX_SAFE_READ_COUNT,
        decreases ranges@.len() - k,
    {
        let start = range_start(&ranges[k]);
        let end = range_end(&ranges[k]);
        assert(pairs[k as int] == (start, end));
        assert(start <= end && span_len(pairs[k as int]) <= MAX_SAFE_READ_COUNT) by {
            reveal(is_cover);
            assert(pairs[k as int].0 <= pairs[k as int].1);
        }
        let count = end - start + 1;
        let ghost prev = r@;
        r.push((start, count));
        assert forall|m: int| 0 <= m < k + 1 implies #[trigger] read_ranges(r@)[m] == pairs[m] by {
            if m < k {
                assert(r@[m] == prev[m]);
                assert(read_ranges(prev)[m] == pairs[m]);
            } else {
                assert(r@[m] == (start, count));
            }
        }
        k = k + 1;
    }
    assert(read_ranges(r@) =~= pairs);
    r
}

/// The word of register `k` of a read response.
pub open spec fn response_word(values: Seq<u8>, k: int) -> u16 {
    be_word(values[2 * k], values[2 * k + 1])
}

/// The number of complete words of a read response; a trailing odd byte is ignored.
pub open spec fn word_count(values: Seq<u8>) -> int {
    (values.len() / 2) as int
}

/// The register cache after storing a read response from `address` on.
pub open spec fn stored(cache: Map<u16, u16>, address: u16, values: Seq<u8>) -> Map<u16, u16> {
    Map::new(
        |a: u16| cache.dom().contains(a) || (address <= a < address + word_count(values)),
        |a: u16|
            if address <= a < address + word_count(values) {
                response_word(values, a - address)
            } else {
                cache[a]
            },
    )
}

/// The registers of a read response from `address` on whose word differs from the cached one,
/// or that have none cached.
pub open spec fn changed_set(cache: Map<u16, u16>, address: u16, values: Seq<u8>) -> Set<u16> {
    Set::new(
        |a: u16|
            address <= a < address + word_count(values) && !(cache.dom().contains(a) && cache[a]
                == response_word(values, a - address)),
    )
}

/// The registers that a read response from `address` changes.
pub fn changed_registers(cache: &ModbusDeviceValues, address: u16, values: &[u8]) -> (r:
    RegisterBitmask)
    requires
        address + word_count(values@) <= BITMASK_CAPACITY,
    ensures
        r@ == changed_set(cache@, address, values@),
{
    let mut r = RegisterBitmask::new();
    let n = values.len() / 2;
    let mut k: usize = 0;
    while k < n
        invariant
            n == word_count(values@),
            address + n <= BITMASK_CAPACITY,
            k <= n,
            r@ == changed_set(cache@, address, values@.take(2 * k)),
        decreases n - k,
    {
        let word = (values[2 * k] as u16) * 256 + values[2 * k + 1] as u16;
        let a = address + k as u16;
        let ghost before = r@;
        if cache.value_of_address(a) != Some(word) {
            r.set(a);
        }
        assert(r@ =~= changed_set(cache@, address, values@.take(2 * (k + 1)))) by {
            assert forall|b: u16| #[trigger] r@.contains(b) == changed_set(
                cache@,
                address,
                values@.take(2 * (k + 1)),
            ).contains(b) by {
                if address <= b < address + k {
                    let j = b - address;
                    assert(values@.take(2 * (k + 1))[2 * j] == values@.take(2 * k)[2 * j]);
                    assert(values@.take(2 * (k + 1))[2 * j + 1] == values@.take(2 * k)[2 * j + 1]);
                }
                if b == a {
                    assert(values@.take(2 * (k + 1))[2 * k] == values@[2 * k]);
                    assert(values@.take(2 * (k + 1))[2 * k + 1] == values@[2 * k + 1]);
                }
            }
        }
        k = k + 1;
    }
    assert(changed_set(cache@, address, values@.take(2 * n)) =~= changed_set(
        cache@,
        address,
        values@,
    )) by {
        assert forall|b: u16| address <= b < address + n implies #[trigger] response_word(
            values@.take(2 * n),
            b - address,
        ) == response_word(values@, b - address) by {
            let j = b - address;
            assert(values@.take(2 * n)[2 * j] == values@[2 * j]);
            assert(values@.take(2 * n)[2 * j + 1] == values@[2 * j + 1]);
        }
    }
    r
}

/// Stores the words of a read response from `address` on in the register cache.
pub fn store_response(cache: &mut ModbusDeviceValues, address: u16, values: &[u8])
    requires
        address + word_count(values@) <= BITMASK_CAPACITY,
    ensures
        final(cache)@ == stored(old(cache)@, address, values@),
{
    let n = values.len() / 2;
    let mut k: usize = 0;
    while k < n
        invariant
            n == word_count(values@),
            address + n <= BITMASK_CAPACITY,
            k <= n,
            cache@ == stored(old(cache)@, address, values@.take(2 * k)),
        decreases n - k,
    {
        let word = (values[2 * k] as u16) * 256 + values[2 * k + 1] as u16;
        let a = address + k as u16;
        cache.set_value(a, word);
        assert(cache@ =~= stored(old(cache)@, address, values@.take(2 * (k + 1)))) by {
            assert forall|b: u16| address <= b < address + k implies #[trigger] response_word(
                values@.take(2 * (k + 1)),
                b - address,
            ) == response_word(values@.take(2 * k), b - address) by {
                let j = b - address;
                assert(values@.take(2 * (k + 1))[2 * j] == values@.take(2 * k)[2 * j]);
                assert(values@.take(2 * (k + 1))[2 * j + 1] == values@.take(2 * k)[2 * j + 1]);
            }
            assert(values@.take(2 * (k + 1))[2 * k] == values@[2 * k]);
            assert(values@.take(2 * (k + 1))[2 * k + 1] == values@[2 * k + 1]);
        }
        k = k + 1;
    }
    assert(stored(old(cache)@, address, values@.take(2 * n)) =~= stored(
        old(cache)@,
        address,
        values@,
    )) by {
        assert forall|b: u16| address <= b < address + n implies #[trigger] response_word(
            values@.take(2 * n),
            b - address,
        ) == response_word(values@, b - address) by {
            let j = b - address;
            assert(values@.take(2 * n)[2 * j] == values@[2 * j]);
            assert(values@.take(2 * n)[2 * j + 1] == values@[2 * j + 1]);
        }
    }
}

/// A register is reported changed by a read response exactly when storing the response gives it
/// a value that it did not hold before.
pub proof fn lemma_changed_iff_stored_differs(
    cache: Map<u16, u16>,
    address: u16,
    values: Seq<u8>,
    a: u16,
)
    ensures
        changed_set(cache, address, values).contains(a) <==> (stored(
            cache,
            address,
            values,
        ).dom().contains(a) && !(cache.dom().contains(a) && cache[a] == stored(
            cache,
            address,
            values,
        )[a])),
{
}

/// After a read response is stored, the cache holds each of the response's words at its
/// register, and every other register as it was.
pub proof fn lemma_stored_reads_back(cache: Map<u16, u16>, address: u16, values: Seq<u8>, a: u16)
    ensures
        address <= a < address + word_count(values) ==> stored(cache, address, values).dom().contains(
            a,
        ) && stored(cache, address, values)[a] == response_word(values, a - address),
        !(address <= a < address + word_count(values)) ==> stored(
            cache,
            address,
            values,
        ).dom().contains(a) == cache.dom().contains(a) && (cache.dom().contains(a) ==> stored(
            cache,
            address,
            values,
        )[a] == cache[a]),
{
}

/// Every register that the schedule is made for is read by one of its reads.
pub proof fn lemma_schedule_reads_needed(needed: Set<u16>, reads: Seq<(u16, u16)>, a: u16)
    requires
        is_cover(needed, MAX_SAFE_READ_COUNT as int, read_ranges(reads)),
        forall|k: int| 0 <= k < reads.len() ==> 1 <= (#[trigger] reads[k]).1,
        needed.contains(a),
    ensures
        exists|k: int| 0 <= k < reads.len() && reads[k].0 <= a < reads[k].0 + (#[trigger] reads[k]).1,
{
    reveal(is_cover);
    let k = crate::range_cover::witness_range(read_ranges(reads), a);
    assert(read_ranges(reads)[k] == (reads[k].0, (reads[k].0 + reads[k].1 - 1) as u16));
    assert(reads[k].0 <= a < reads[k].0 + reads[k].1);
}

/// Whether a register change touches a property: some of its registers changed.
pub open spec fn touches(changed: Set<u16>, registers: Seq<RegisterIndex>) -> bool {
    exists|k: int|
        0 <= k < registers.len() && changed.contains((#[trigger] registers[k]).address_spec())
}

/// The properties, by position, that a register change touches, in order.
pub fn touched_properties(changed: &RegisterBitmask, registers: &Vec<Vec<RegisterIndex>>) -> (r:
    Vec<usize>)
    ensures
        forall|i: int|
            0 <= i < registers@.len() ==> (r@.contains(i as usize) <==> touches(
                changed@,
                #[trigger] registers@[i]@,
            )),
        forall|j: int| 0 <= j < r@.len() ==> (#[trigger] r@[j]) < registers@.len(),
        forall|j1: int, j2: int| 0 <= j1 < j2 < r@.len() ==> #[trigger] r@[j1] < #[trigger] r@[j2],
{
    let mut r: Vec<usize> = Vec::new();
    let mut i: usize = 0;
    while i < registers.len()
        invariant
            i <= registers@.len(),
            forall|p: int|
                0 <= p < i ==> (r@.contains(p as usize) <==> touches(
                    changed@,
                    #[trigger] registers@[p]@,
                )),
            forall|j: int| 0 <= j < r@.len() ==> (#[trigger] r@[j]) < i,
            forall|j1: int, j2: int|
                0 <= j1 < j2 < r@.len() ==> #[trigger] r@[j1] < #[trigger] r@[j2],
        decreases registers@.len() - i,
    {
        let regs = &registers[i];
        let mut k: usize = 0;
        let mut hit = false;
        while k < regs.len()
            invariant
                k <= regs@.len(),
                hit == exists|m: int|
                    0 <= m < k && changed@.contains((#[trigger] regs@[m]).address_spec()),
            decreases regs@.len() - k,
        {
            let address = regs[k].address();
            if changed.is_set(address) {
                hit = true;
            }
            k = k + 1;
        }
        let ghost before = r@;
        if hit {
            r.push(i);
        }
        assert forall|p: int|
            0 <= p < i + 1 implies (r@.contains(p as usize) <==> touches(
            changed@,
            #[trigger] registers@[p]@,
        )) by {
            if p < i {
                if r@.contains(p as usize) && !before.contains(p as usize) {
                    let j = choose|j: int| 0 <= j < r@.len() && r@[j] == p as usize;
                    assert(j == before.len());
                }
                if before.contains(p as usize) {
                    let j = choose|j: int| 0 <= j < before.len() && before[j] == p as usize;
                    assert(r@[j] == p as usize);
                }
            } else {
                if hit {
                    assert(r@[before.len() as int] == i);
                } else {
                    assert(r@ == before);
                    if before.contains(i) {
                        let j = choose|j: int| 0 <= j < before.len() && before[j] == i;
                    }
                }
            }
        }
        i = i + 1;
    }
    r
}

/// The position of the first property with id `prop_id`, if any.
pub fn find_property(properties: &Vec<PropertyEntry>, prop_id: &str) -> (r: Option<usize>)
    ensures
        r matches Some(i) ==> i < properties@.len() && properties@[i as int].prop_id@ == prop_id@
            && forall|j: int| 0 <= j < i ==> properties@[j].prop_id@ != prop_id@,
        r is None ==> forall|j: int|
            0 <= j < properties@.len() ==> properties@[j].prop_id@ != prop_id@,
{
    let mut i: usize = 0;
    while i < properties.len()
        invariant
            i <= properties@.len(),
            forall|j: int| 0 <= j < i ==> properties@[j].prop_id@ != prop_id@,
        decreases properties@.len() - i,
    {
        if crate::text::str_eq(properties[i].prop_id, prop_id) {
            return Some(i);
        }
        i = i + 1;
    }
    None
}

/// A property's published reading: its value, and its target where it has one.
pub struct PropertyReading {
    pub value: String,
    pub target: Option<String>,
}

/// The value text of a reading.
pub open spec fn value_text(r: PropertyReading) -> Seq<char> {
    r.value@
}

/// The target text of a reading, if it has a target.
pub open spec fn target_text(r: PropertyReading) -> Option<Seq<char>> {
    match r.target {
        Some(t) => Some(t@),
        None => None,
    }
}

/// Whether a property's published value changes, and whether its target changes, between the
/// reading before a register change and the reading after it. A reading is absent while its
/// registers have not all been read, and an error when the registers do not make a value.
pub open spec fn change_of(
    old: Option<Result<PropertyReading, ()>>,
    new: Option<Result<PropertyReading, ()>>,
) -> (bool, bool) {
    match new {
        None => (false, false),
        Some(Err(_)) => (false, false),
        Some(Ok(n)) => match old {
            Some(Ok(o)) => (
                value_text(o) != value_text(n),
                target_text(n) is Some && target_text(n) != target_text(o),
            ),
            _ => (true, target_text(n) is Some),
        },
    }
}

/// Whether a property's published value changes, and whether its target changes. A reading
/// cannot go away once there was one.
pub fn property_change(
    old: &Option<Result<PropertyReading, ()>>,
    new: &Option<Result<PropertyReading, ()>>,
) -> (r: (bool, bool))
    requires
        !(old is Some && new is None),
    ensures
        r == change_of(*old, *new),
{
    match new {
        None => (false, false),
        Some(Err(_)) => (false, false),
        Some(Ok(n)) => match old {
            Some(Ok(o)) => {
                let value_changed = !(o.value == n.value);
                let target_changed = match (&n.target, &o.target) {
                    (Some(nt), Some(ot)) => !(*nt == *ot),
                    (Some(_), None) => true,
                    (None, _) => false,
                };
                (value_changed, target_changed)
            },
            _ => (true, n.target.is_some()),
        },
    }
}

/// Where a device event comes from: a periodic read, or the read-back after a Homie `set`.
#[derive(Clone, Copy, PartialEq, Eq, Debug, Structural)]
pub enum EventOrigin {
    Periodic,
    HomieSet,
}

/// What the device does with the outcome of a device request.
#[derive(Clone, Copy, PartialEq, Eq, Debug, Structural)]
pub enum EventStep {
    /// A periodic read met a server exception: report it.
    ReportException(u8),
    /// A periodic read answered: store the registers from `address` on and publish the
    /// properties whose value or target changed.
    StoreAndPublishChanges(u16),
    /// A `set` met a server exception: report it and publish the property's value and target
    /// again, as they were.
    ReportExceptionAndRepublish(u8),
    /// A `set` was read back: store the registers from `address` on without publishing the
    /// changes, then publish the property's new value and target.
    StoreAndPublishProperty(u16),
    /// An action answered: publish the property's value and nothing else.
    PublishValue,
}

/// Whether a step stores registers in the cache.
pub open spec fn stores_registers(step: EventStep) -> bool {
    step is StoreAndPublishChanges || step is StoreAndPublishProperty
}

/// Whether a step publishes a property's target.
pub open spec fn publishes_target(step: EventStep) -> bool {
    step is StoreAndPublishChanges || step is ReportExceptionAndRepublish
        || step is StoreAndPublishProperty
}

/// An event of the device: the outcome of a periodic read, the outcome of a request behind a
/// Homie `set`, or the answer of an action (filter replacement, clock synchronisation).
#[derive(Debug)]
pub enum DeviceEvent {
    Periodic { operation: Operation, response: ResponseKind },
    HomieSet { operation: Operation, response: ResponseKind },
    ActionResponse,
}

/// Whether an outcome is one that a request of this origin can have: a server exception, or
/// register values answering a read.
pub open spec fn expected_outcome(operation: Operation, response: ResponseKind) -> bool {
    response is ErrorCode || (operation is GetHoldings && response is GetHoldings)
}

/// What to do with the outcome of a device request of `origin`.
pub open spec fn event_outcome(origin: EventOrigin, operation: Operation, response: ResponseKind) -> EventStep {
    match (origin, response) {
        (EventOrigin::Periodic, ResponseKind::ErrorCode(c)) => EventStep::ReportException(c),
        (EventOrigin::HomieSet, ResponseKind::ErrorCode(c)) => EventStep::ReportExceptionAndRepublish(c),
        (EventOrigin::Periodic, _) => EventStep::StoreAndPublishChanges(
            crate::modbus::operation_address(operation),
        ),
        (EventOrigin::HomieSet, _) => EventStep::StoreAndPublishProperty(
            crate::modbus::operation_address(operation),
        ),
    }
}

/// What to do with the outcome of a device request.
pub fn event_step(origin: EventOrigin, operation: &Operation, response: &ResponseKind) -> (r:
    EventStep)
    requires
        expected_outcome(*operation, *response),
    ensures
        r == event_outcome(origin, *operation, *response),
{
    match response {
        ResponseKind::ErrorCode(c) => match origin {
            EventOrigin::Periodic => EventStep::ReportException(*c),
            EventOrigin::HomieSet => EventStep::ReportExceptionAndRepublish(*c),
        },
        _ => {
            let address = match operation {
                Operation::GetHoldings { address, count: _ } => *address,
                Operation::SetHolding { address, value: _ } => *address,
            };
            match origin {
                EventOrigin::Periodic => EventStep::StoreAndPublishChanges(address),
                EventOrigin::HomieSet => EventStep::StoreAndPublishProperty(address),
            }
        },
    }
}

/// What to do with a device event. A request's outcome goes by [`event_step`]; an action's
/// answer only publishes the property's value: nothing is stored and no target is published.
pub fn device_event_step(event: &DeviceEvent) -> (r: EventStep)
    requires
        *event matches DeviceEvent::Periodic { operation, response } ==> expected_outcome(
            operation,
            response,
        ),
        *event matches DeviceEvent::HomieSet { operation, response } ==> expected_outcome(
            operation,
            response,
        ),
    ensures
        r == match *event {
            DeviceEvent::Periodic { operation, response } => event_outcome(
                EventOrigin::Periodic,
                operation,
                response,
            ),
            DeviceEvent::HomieSet { operation, response } => event_outcome(
                EventOrigin::HomieSet,
                operation,
                response,
            ),
            DeviceEvent::ActionResponse => EventStep::PublishValue,
        },
        event is ActionResponse ==> !stores_registers(r) && !publishes_target(r),
{
    match event {
        DeviceEvent::Periodic { operation, response } => event_step(
            EventOrigin::Periodic,
            operation,
            response,
        ),
        DeviceEvent::HomieSet { operation, response } => event_step(
            EventOrigin::HomieSet,
            operation,
            response,
        ),
        DeviceEvent::ActionResponse => EventStep::PublishValue,
    }
}

/// What the device does with a Homie `set` command.
#[derive(Clone, Copy, PartialEq, Eq, Debug, Structural)]
pub enum CommandStep {
    /// The device is not ready yet: the command is dropped.
    Ignore,
    /// The command names another device, or a node or property that the device lacks.
    Reject,
    /// The value cannot be parsed: publish the property's value and target again, as they are.
    RepublishCurrent,
    /// Write the value to the device.
    Apply,
}

/// What to do with a Homie `set` command, from what is known of it.
pub fn command_step(
    ready: bool,
    device_matches: bool,
    node_found: bool,
    property_found: bool,
    value_parsed: bool,
) -> (r: CommandStep)
    ensures
        r == if !ready {
            CommandStep::Ignore
        } else if !device_matches || !node_found || !property_found {
            CommandStep::Reject
        } else if !value_parsed {
            CommandStep::RepublishCurrent
        } else {
            CommandStep::Apply
        },
{
    if !ready {
        CommandStep::Ignore
    } else if !device_matches || !node_found || !property_found {
        CommandStep::Reject
    } else if !value_parsed {
        CommandStep::RepublishCurrent
    } else {
        CommandStep::Apply
    }
}

} // verus!
