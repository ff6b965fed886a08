//! The device requests behind Homie `set` commands and property reactions.
use crate::homie::enums::AlarmValue;
use crate::modbus::{exception_of, Operation, ResponseKind};
use crate::registers::RegisterIndex;
use vstd::prelude::*;

verus! {

/// A write and the read that reads the written register back.
pub struct WritePlan {
    pub write: Operation,
    pub read_back: Operation,
}

/// Setting a property that mirrors a register: write the value, then read the register back.
pub fn register_set_plan(address: u16, value: u16) -> (r: WritePlan)
    ensures
        r.write == (Operation::SetHolding { address, value }),
        r.read_back == (Operation::GetHoldings { address, count: 1 }),
{
    WritePlan {
        write: Operation::SetHolding { address, value },
        read_back: Operation::GetHoldings { address, count: 1 },
    }
}

/// What a Homie `set` does once its write has been answered.
#[derive(Clone, Copy, PartialEq, Eq, Debug, Structural)]
pub enum SetStep {
    /// The write met a server exception: the `set` ends with the write and its answer as its
    /// outcome, and nothing more is sent.
    Finish { operation: Operation },
    /// Send the read-back; the `set` ends with the read-back and its answer as its outcome.
    ReadBack { operation: Operation },
}

/// The step of a `set` after the device answered its write: the read-back, unless the answer is
/// a server exception.
pub fn after_write(plan: &WritePlan, answer: &ResponseKind) -> (r: SetStep)
    ensures
        r == if exception_of(answer@) is Some {
            SetStep::Finish { operation: plan.write }
        } else {
            SetStep::ReadBack { operation: plan.read_back }
        },
{
    match answer {
        ResponseKind::ErrorCode(_) => SetStep::Finish { operation: plan.write },
        _ => SetStep::ReadBack { operation: plan.read_back },
    }
}

/// The register words that set the device clock to a local time, written from the `TIME_YEAR`
/// register on: year, month, day, hour, minute and second, each taken as a 16-bit word.
pub fn clock_words(year: i16, month: i8, day: i8, hour: i8, minute: i8, second: i8) -> (r: Vec<
    u16,
>)
    ensures
        r@ == seq![
            year as u16,
            month as u16,
            day as u16,
            hour as u16,
            minute as u16,
            second as u16,
        ],
{
    let mut r: Vec<u16> = Vec::new();
    r.push(year as u16);
    r.push(month as u16);
    r.push(day as u16);
    r.push(hour as u16);
    r.push(minute as u16);
    r.push(second as u16);
    r
}

/// Synchronising the clock is read back as the six clock registers from `TIME_YEAR` on.
pub fn clock_read_back(time_year: RegisterIndex) -> (r: Operation)
    ensures
        r == (Operation::GetHoldings { address: time_year.address_spec(), count: 6 }),
{
    Operation::GetHoldings { address: time_year.address(), count: 6 }
}

/// Why an alarm cannot be set to a state other than clear.
pub const ALARM_NOT_CLEARABLE: &'static str =
    "can only clear alarms, why would you want something to be broken?";

/// Setting an alarm whose state register is at `alarm_address`: only clearing is allowed; it
/// writes 1 to the clear register, which follows the state register, then reads the state back.
pub fn alarm_set_plan(target: AlarmValue, alarm_address: u16) -> (r: Result<WritePlan, &'static str>)
    requires
        alarm_address < u16::MAX,
    ensures
        target != AlarmValue::Clear ==> r == Err::<WritePlan, &'static str>(ALARM_NOT_CLEARABLE),
        target == AlarmValue::Clear ==> (r matches Ok(plan) && plan.write == (Operation::SetHolding {
            address: (alarm_address + 1) as u16,
            value: 1,
        }) && plan.read_back == (Operation::GetHoldings { address: alarm_address, count: 1 })),
{
    if target != AlarmValue::Clear {
        return Err(ALARM_NOT_CLEARABLE);
    }
    let address = alarm_address + 1;
    Ok(
        WritePlan {
            write: Operation::SetHolding { address, value: 1 },
            read_back: Operation::GetHoldings { address: address - 1, count: 1 },
        },
    )
}

/// Replacing the filter: write 1 to the filter period reset register, then read it and the two
/// registers after it back.
pub fn filter_replace_plan(period_set: RegisterIndex) -> (r: WritePlan)
    ensures
        r.write == (Operation::SetHolding { address: period_set.address_spec(), value: 1 }),
        r.read_back == (Operation::GetHoldings { address: period_set.address_spec(), count: 3 }),
{
    let address = period_set.address();
    WritePlan {
        write: Operation::SetHolding { address, value: 1 },
        read_back: Operation::GetHoldings { address, count: 3 },
    }
}

/// When the summary alarm changes, every alarm register is read out at once: the reads of the
/// three alarm blocks, from their first registers.
pub fn alarm_readout(first: RegisterIndex, second: RegisterIndex, third: RegisterIndex) -> (r: Vec<
    Operation,
>)
    ensures
        r@ == seq![
            Operation::GetHoldings { address: first.address_spec(), count: 119 },
            Operation::GetHoldings { address: second.address_spec(), count: 57 },
            Operation::GetHoldings { address: third.address_spec(), count: 42 },
        ],
{
    let mut r: Vec<Operation> = Vec::new();
    r.push(Operation::GetHoldings { address: first.address(), count: 119 });
    r.push(Operation::GetHoldings { address: second.address(), count: 57 });
    r.push(Operation::GetHoldings { address: third.address(), count: 42 });
    r
}

} // verus!
