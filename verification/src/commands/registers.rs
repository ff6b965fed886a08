//! Listing and searching the known registers.
use crate::register_table::{
    address_at, data_type_at, description_at, maximum_at, minimum_at, mode_at, name_at,
    table_address, table_data_type, table_description, table_maximum, table_minimum, table_mode,
    table_name, REGISTER_COUNT,
};
use crate::registers::{value_of_raw, DataType, Mode, Value};
use crate::text::{
    chars_of, contains_chars, contains_seq, decimal, decimal_chars, spec_to_uppercase,
    to_uppercase,
};
use vstd::prelude::*;

verus! {

/// How the register listing is printed.
#[derive(Clone, Copy, PartialEq, Eq, Debug, Structural)]
pub enum Format {
    Table,
    Json,
    Csv,
}

/// Everything the register table says about one register.
pub struct RegisterSchema {
    pub address: u16,
    pub name: &'static str,
    pub mode: Mode,
    pub signed: bool,
    pub scale: u8,
    pub minimum: Option<Value>,
    pub maximum: Option<Value>,
    pub description: &'static str,
}

/// A limit of the register table, as a value of the register's data type.
pub open spec fn limit_value(dt: DataType, raw: Option<i32>) -> Option<Value> {
    match raw {
        Some(r) => Some(value_of_raw(dt, r)),
        None => None,
    }
}

/// What the register table says about register `i`.
pub open spec fn schema_at(i: int) -> RegisterSchema {
    RegisterSchema {
        address: table_address(i),
        name: table_name(i),
        mode: table_mode(i),
        signed: table_data_type(i) == DataType::I16 || table_data_type(i) == DataType::CEL,
        scale: if table_data_type(i) == DataType::CEL || table_data_type(i) == DataType::SPH {
            10u8
        } else {
            1u8
        },
        minimum: limit_value(table_data_type(i), table_minimum(i)),
        maximum: limit_value(table_data_type(i), table_maximum(i)),
        description: table_description(i),
    }
}

/// Whether a register matches a search pattern, as `RegisterSchema::is_match` decides.
pub open spec fn schema_matches(s: RegisterSchema, pattern: Seq<char>) -> bool {
    contains_seq(s.name@, spec_to_uppercase(pattern)) || contains_seq(
        spec_to_uppercase(s.description@),
        spec_to_uppercase(pattern),
    ) || contains_seq(decimal(s.address as nat), spec_to_uppercase(pattern))
}

/// The registers among the first `n` of the table that match `pattern` (all of them without a
/// pattern), in table order.
pub open spec fn matching_prefix(pattern: Option<Seq<char>>, n: int) -> Seq<RegisterSchema>
    decreases n,
{
    if n <= 0 {
        Seq::empty()
    } else {
        let rest = matching_prefix(pattern, n - 1);
        match pattern {
            Some(p) => if schema_matches(schema_at(n - 1), p) {
                rest.push(schema_at(n - 1))
            } else {
                rest
            },
            None => rest.push(schema_at(n - 1)),
        }
    }
}

/// `s` describes register `i` of the register table.
pub open spec fn describes(s: RegisterSchema, i: int) -> bool {
    &&& s.address == table_address(i)
    &&& s.name == table_name(i)
    &&& s.mode == table_mode(i)
    &&& s.signed == (table_data_type(i) == DataType::I16 || table_data_type(i) == DataType::CEL)
    &&& s.scale == (if table_data_type(i) == DataType::CEL || table_data_type(i)
        == DataType::SPH {
        10u8
    } else {
        1u8
    })
    &&& s.minimum == limit_value(table_data_type(i), table_minimum(i))
    &&& s.maximum == limit_value(table_data_type(i), table_maximum(i))
    &&& s.description == table_description(i)
}

impl RegisterSchema {
    /// Every known register, in the order of the register table.
    pub fn all_registers() -> (r: Vec<RegisterSchema>)
        ensures
            r.len() == REGISTER_COUNT,
            forall|i: int| 0 <= i < REGISTER_COUNT ==> describes(#[trigger] r@[i], i),
    {
        let mut r: Vec<RegisterSchema> = Vec::new();
        let mut i: usize = 0;
        while i < REGISTER_COUNT
            invariant
                i <= REGISTER_COUNT,
                r.len() == i,
                forall|k: int| 0 <= k < i ==> describes(#[trigger] r@[k], k),
            decreases REGISTER_COUNT - i,
        {
            let data_type = data_type_at(i);
            let minimum = match minimum_at(i) {
                Some(raw) => Some(data_type.value_from_raw(raw)),
                None => None,
            };
            let maximum = match maximum_at(i) {
                Some(raw) => Some(data_type.value_from_raw(raw)),
                None => None,
            };
            r.push(
                RegisterSchema {
                    address: address_at(i),
                    name: name_at(i),
                    mode: mode_at(i),
                    signed: data_type.is_signed(),
                    scale: data_type.scale(),
                    minimum,
                    maximum,
                    description: description_at(i),
                },
            );
            i = i + 1;
        }
        r
    }

    /// The registers to list: those that match `filter`, or all of them without one, in table
    /// order.
    pub fn matching_registers(filter: Option<&str>) -> (r: Vec<RegisterSchema>)
        ensures
            r@ == matching_prefix(
                match filter {
                    Some(p) => Some(p@),
                    None => None,
                },
                REGISTER_COUNT as int,
            ),
    {
        let ghost pattern = match filter {
            Some(p) => Some(p@),
            None => None,
        };
        let all = RegisterSchema::all_registers();
        let mut r: Vec<RegisterSchema> = Vec::new();
        let mut i: usize = 0;
        while i < REGISTER_COUNT
            invariant
                all@.len() == REGISTER_COUNT,
                forall|k: int| 0 <= k < REGISTER_COUNT ==> describes(#[trigger] all@[k], k),
                pattern == match filter {
                    Some(p) => Some(p@),
                    None => None,
                },
                i <= REGISTER_COUNT,
                r@ == matching_prefix(pattern, i as int),
            decreases REGISTER_COUNT - i,
        {
            let register = &all[i];
            assert(describes(all@[i as int], i as int));
            assert(*register == schema_at(i as int));
            let keep = match filter {
                Some(p) => register.is_match(p),
                None => true,
            };
            if keep {
                r.push(
                    RegisterSchema {
                        address: register.address,
                        name: register.name,
                        mode: register.mode,
                        signed: register.signed,
                        scale: register.scale,
                        minimum: register.minimum,
                        maximum: register.maximum,
                        description: register.description,
                    },
                );
            }
            i = i + 1;
        }
        r
    }

    /// Whether the uppercased `pattern` occurs in the register's name, in its uppercased
    /// description, or in its address written in decimal.
    pub fn is_match(&self, pattern: &str) -> (r: bool)
        ensures
            r == (contains_seq(self.name@, spec_to_uppercase(pattern@)) || contains_seq(
                spec_to_uppercase(self.description@),
                spec_to_uppercase(pattern@),
            ) || contains_seq(decimal(self.address as nat), spec_to_uppercase(pattern@))),
    {
        let pattern = to_uppercase(pattern);
        let pattern = chars_of(pattern.as_str());
        let name = chars_of(self.name);
        if contains_chars(&name, &pattern) {
            return true;
        }
        let description = to_uppercase(self.description);
        let description = chars_of(description.as_str());
        if contains_chars(&description, &pattern) {
            return true;
        }
        let address = decimal_chars(self.address);
        contains_chars(&address, &pattern)
    }
}

} // verus!
