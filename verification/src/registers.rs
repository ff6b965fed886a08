//! Modbus register descriptions and the values they hold.
use crate::register_table::{
    address_at, data_type_at, description_at, lemma_addresses_increasing, lemma_last_address,
    maximum_at, minimum_at, mode_at, name_at, table_address, table_data_type, table_description,
    table_maximum, table_minimum, table_mode, table_name, REGISTER_COUNT,
};
use crate::text::{decimal, decimal_chars, str_eq, string_of_chars};
use vstd::prelude::*;

verus! {

/// How a register encodes its value in its 16-bit word.
#[derive(Clone, Copy, PartialEq, Eq, Debug, Structural)]
pub enum DataType {
    /// Unsigned integer.
    U16,
    /// Signed integer.
    I16,
    /// Degrees Celsius times 10, signed.
    CEL,
    /// Specific humidity (g/kg) times 10, unsigned.
    SPH,
}

/// The value of a register.
#[derive(Clone, Copy, PartialEq, Eq, Debug, Structural)]
pub enum Value {
    U16(u16),
    I16(i16),
    /// This data type contains a value multiplied by 10.
    Celsius(i16),
    /// This data type contains a value multiplied by 10.
    SpecificHumidity(u16),
}

/// The word that two big-endian bytes make.
pub open spec fn be_word(hi: u8, lo: u8) -> u16 {
    (hi * 256 + lo) as u16
}

/// The value that `word` holds for data type `dt`.
pub open spec fn value_of_word(dt: DataType, word: u16) -> Value {
    match dt {
        DataType::U16 => Value::U16(word),
        DataType::I16 => Value::I16(word as i16),
        DataType::CEL => Value::Celsius(word as i16),
        DataType::SPH => Value::SpecificHumidity(word),
    }
}

/// The values of the complete big-endian words of `bs`; a trailing odd byte is ignored.
pub open spec fn values_of_bytes(dt: DataType, bs: Seq<u8>) -> Seq<Value> {
    Seq::new((bs.len() / 2) as nat, |k: int| value_of_word(dt, be_word(bs[2 * k], bs[2 * k + 1])))
}

/// The value that the raw number `raw` stands for in data type `dt`.
pub open spec fn value_of_raw(dt: DataType, raw: i32) -> Value {
    match dt {
        DataType::U16 => Value::U16(raw as u16),
        DataType::I16 => Value::I16(raw as i16),
        DataType::CEL => Value::Celsius(raw as i16),
        DataType::SPH => Value::SpecificHumidity(raw as u16),
    }
}

impl DataType {
    /// Decodes the big-endian words of `bs`, one value each; a trailing odd byte is ignored.
    pub fn from_bytes(self, bs: &[u8]) -> (r: Vec<Value>)
        ensures
            r@ == values_of_bytes(self, bs@),
    {
        let mut r: Vec<Value> = Vec::new();
        let mut i: usize = 0;
        let len = bs.len();
        let count = len / 2;
        while i < count
            invariant
                len == bs@.len(),
                count == bs@.len() / 2,
                i <= count,
                r@ == values_of_bytes(self, bs@).take(i as int),
            decreases count - i,
        {
            assert(2 * i + 1 < bs@.len());
            let hi = bs[2 * i] as u16;
            let lo = bs[2 * i + 1] as u16;
            assert(hi < 256 && lo < 256);
            let word = hi * 256 + lo;
            r.push(self.from_word(word));
            assert(r@ =~= values_of_bytes(self, bs@).take(i + 1));
            i = i + 1;
        }
        assert(r@ =~= values_of_bytes(self, bs@));
        r
    }

    /// The value that a register word holds.
    pub fn from_word(self, word: u16) -> (r: Value)
        ensures
            r == value_of_word(self, word),
    {
        match self {
            DataType::I16 => Value::I16(word as i16),
            DataType::U16 => Value::U16(word),
            DataType::CEL => Value::CEL(word as i16),
            DataType::SPH => Value::SPH(word),
        }
    }

    /// Whether values of this type are signed.
    pub fn is_signed(&self) -> (r: bool)
        ensures
            r == (*self == DataType::I16 || *self == DataType::CEL),
    {
        match self {
            DataType::I16 | DataType::CEL => true,
            DataType::U16 | DataType::SPH => false,
        }
    }

    /// The factor by which values of this type are multiplied.
    pub fn scale(&self) -> (r: u8)
        ensures
            r == (if *self == DataType::CEL || *self == DataType::SPH {
                10u8
            } else {
                1u8
            }),
    {
        match self {
            DataType::CEL | DataType::SPH => 10,
            DataType::U16 | DataType::I16 => 1,
        }
    }

    /// The type as the register documentation writes it: `S/` for signed or `U/` for unsigned,
    /// then the scale.
    pub fn label(&self) -> (r: String)
        ensures
            r@ == seq![
                if *self == DataType::I16 || *self == DataType::CEL {
                    'S'
                } else {
                    'U'
                },
                '/',
            ] + decimal(
                (if *self == DataType::CEL || *self == DataType::SPH {
                    10nat
                } else {
                    1nat
                }),
            ),
    {
        let mut chars: Vec<char> = Vec::new();
        chars.push(if self.is_signed() { 'S' } else { 'U' });
        chars.push('/');
        let digits = decimal_chars(self.scale() as u16);
        let mut i: usize = 0;
        let ghost prefix = chars@;
        while i < digits.len()
            invariant
                i <= digits@.len(),
                chars@ == prefix + digits@.take(i as int),
            decreases digits@.len() - i,
        {
            chars.push(digits[i]);
            assert(chars@ =~= prefix + digits@.take(i + 1));
            i = i + 1;
        }
        assert(digits@.take(digits@.len() as int) =~= digits@);
        string_of_chars(&chars)
    }

    /// The number of bytes that a value of this type takes.
    pub fn bytes(&self) -> (r: usize)
        ensures
            r == 2,
    {
        2
    }

    /// The value that the raw number `raw` stands for.
    pub fn value_from_raw(self, raw: i32) -> (r: Value)
        ensures
            r == value_of_raw(self, raw),
    {
        match self {
            DataType::U16 => Value::U16(raw as u16),
            DataType::I16 => Value::I16(raw as i16),
            DataType::CEL => Value::CEL(raw as i16),
            DataType::SPH => Value::SPH(raw as u16),
        }
    }
}

/// The register word that a value is stored as.
pub open spec fn word_of_value(v: Value) -> u16 {
    match v {
        Value::U16(n) => n,
        Value::I16(n) => n as u16,
        Value::Celsius(n) => n as u16,
        Value::SpecificHumidity(n) => n,
    }
}

impl Value {
    #[allow(non_snake_case)]
    fn CEL(val: i16) -> (r: Self)
        ensures
            r == Value::Celsius(val),
    {
        Self::Celsius(val)
    }

    #[allow(non_snake_case)]
    fn SPH(val: u16) -> (r: Self)
        ensures
            r == Value::SpecificHumidity(val),
    {
        Self::SpecificHumidity(val)
    }

    /// The register word that holds this value.
    pub fn into_inner(self) -> (r: u16)
        ensures
            r == word_of_value(self),
    {
        match self {
            Value::U16(n) => n,
            Value::I16(n) => n as u16,
            Value::Celsius(n) => n as u16,
            Value::SpecificHumidity(n) => n,
        }
    }
}

/// A register word read as a value of any data type is stored back as the same word.
pub proof fn lemma_word_of_value_of_word(dt: DataType, w: u16)
    ensures
        word_of_value(value_of_word(dt, w)) == w,
{
    assert((w as i16) as u16 == w) by (bit_vector);
}

/// Whether a register can be read and whether it can be written.
#[derive(Clone, Copy, PartialEq, Eq, Debug, Structural)]
pub enum Mode {
    /// Readable.
    R,
    /// Writable.
    W,
    /// Readable and writable.
    RW,
}

impl Mode {
    /// The register can be read.
    pub open spec fn readable(self) -> bool {
        self == Mode::R || self == Mode::RW
    }

    /// The register can be written.
    pub open spec fn writable(self) -> bool {
        self == Mode::W || self == Mode::RW
    }

    /// Whether the register can be written.
    pub fn is_writable(&self) -> (r: bool)
        ensures
            r == self.writable(),
    {
        match self {
            Mode::W | Mode::RW => true,
            Mode::R => false,
        }
    }

    /// Two characters: `R` or `-` for reading, then `W` or `-` for writing.
    pub fn label(&self) -> (r: &'static str)
        ensures
            r@ == seq![
                if self.readable() {
                    'R'
                } else {
                    '-'
                },
                if self.writable() {
                    'W'
                } else {
                    '-'
                },
            ],
    {
        proof {
            reveal_strlit("RW");
            reveal_strlit("R-");
            reveal_strlit("-W");
        }
        match self {
            Mode::RW => "RW",
            Mode::R => "R-",
            Mode::W => "-W",
        }
    }
}

/// Some register is at address `a`.
pub open spec fn is_known_address(a: u16) -> bool {
    exists|i: int| 0 <= i < REGISTER_COUNT && table_address(i) == a
}

/// The position of the first register at address `a` from position `i` on (`REGISTER_COUNT`
/// when there is none).
pub open spec fn first_index_from(a: u16, i: int) -> int
    decreases REGISTER_COUNT - i,
{
    if i < 0 || i >= REGISTER_COUNT {
        REGISTER_COUNT as int
    } else if table_address(i) == a {
        i
    } else {
        first_index_from(a, i + 1)
    }
}

/// How the register at address `a` encodes its value.
pub open spec fn data_type_at_address(a: u16) -> DataType {
    table_data_type(first_index_from(a, 0))
}

proof fn lemma_first_index_from(a: u16, i: int, k: int)
    requires
        0 <= i <= k < REGISTER_COUNT,
        table_address(k) == a,
        forall|j: int| i <= j < k ==> table_address(j) != a,
    ensures
        first_index_from(a, i) == k,
    decreases k - i,
{
    if i < k {
        lemma_first_index_from(a, i + 1, k);
    }
}

/// The address of the last known register.
pub const LAST_ADDRESS: u16 = 30106;

/// A text that is a decimal number names an address no higher than the last known register's;
/// looking up a higher address is out of the register table's bounds.
pub open spec fn parsed_address_fits(text: Seq<char>) -> bool {
    crate::text::parsed_u16(text) matches Some(a) ==> a <= LAST_ADDRESS
}

/// A known register, by its position in the register tables.
#[derive(Clone, Copy)]
pub struct RegisterIndex(usize);

impl RegisterIndex {
    #[verifier::type_invariant]
    spec fn in_table(self) -> bool {
        self.0 < REGISTER_COUNT
    }

    /// The position of the register in the register tables.
    pub closed spec fn index(self) -> int {
        self.0 as int
    }

    /// The known register at `address`, found by binary search over the table, which is
    /// ordered by address: the first position whose address is not below `address`.
    pub fn from_address(address: u16) -> (r: Option<RegisterIndex>)
        requires
            address <= LAST_ADDRESS,
        ensures
            r matches Some(i) ==> {
                &&& 0 <= i.index() < REGISTER_COUNT
                &&& table_address(i.index()) == address
                &&& forall|j: int| 0 <= j < i.index() ==> table_address(j) != address
                &&& i.index() == first_index_from(address, 0)
            },
            r is None ==> forall|j: int| 0 <= j < REGISTER_COUNT ==> table_address(j) != address,
            r is None <==> !is_known_address(address),
    {
        proof {
            lemma_addresses_increasing();
            lemma_last_address();
        }
        let mut lo: usize = 0;
        let mut hi: usize = REGISTER_COUNT;
        while lo < hi
            invariant
                lo <= hi <= REGISTER_COUNT,
                forall|j: int| 0 <= j < lo ==> table_address(j) < address,
                forall|j: int| hi <= j < REGISTER_COUNT ==> table_address(j) >= address,
                forall|i: int, j: int|
                    0 <= i < j < REGISTER_COUNT ==> #[trigger] table_address(i)
                        < #[trigger] table_address(j),
            decreases hi - lo,
        {
            let mid = lo + (hi - lo) / 2;
            if address_at(mid) < address {
                lo = mid + 1;
            } else {
                hi = mid;
            }
        }
        assert(lo < REGISTER_COUNT) by {
            if lo == REGISTER_COUNT {
                assert(table_address(REGISTER_COUNT - 1) < address);
            }
        }
        if address_at(lo) == address {
            proof {
                lemma_first_index_from(address, 0, lo as int);
            }
            Some(RegisterIndex(lo))
        } else {
            assert forall|j: int| 0 <= j < REGISTER_COUNT implies table_address(j) != address by {
                if j > lo {
                    assert(table_address(lo as int) < table_address(j));
                }
            }
            None
        }
    }

    /// The register found at the address of the register at position `i` of the table is that
    /// register.
    pub proof fn lemma_address_round_trip(i: int)
        requires
            0 <= i < REGISTER_COUNT,
        ensures
            first_index_from(table_address(i), 0) == i,
            is_known_address(table_address(i)),
    {
        lemma_addresses_increasing();
        assert forall|j: int| 0 <= j < i implies table_address(j) != table_address(i) by {
            assert(table_address(j) < table_address(i));
        }
        lemma_first_index_from(table_address(i), 0, i);
    }

    /// The known register called `name`.
    pub fn from_name(name: &str) -> (r: Option<RegisterIndex>)
        ensures
            r matches Some(i) ==> {
                &&& 0 <= i.index() < REGISTER_COUNT
                &&& table_name(i.index())@ == name@
                &&& forall|j: int| 0 <= j < i.index() ==> table_name(j)@ != name@
            },
            r is None ==> forall|j: int| 0 <= j < REGISTER_COUNT ==> table_name(j)@ != name@,
    {
        let mut i: usize = 0;
        while i < REGISTER_COUNT
            invariant
                i <= REGISTER_COUNT,
                forall|j: int| 0 <= j < i ==> table_name(j)@ != name@,
            decreases REGISTER_COUNT - i,
        {
            if str_eq(name_at(i), name) {
                return Some(RegisterIndex(i));
            }
            i = i + 1;
        }
        None
    }

    /// The register's address.
    pub closed spec fn address_spec(self) -> u16 {
        table_address(self.index())
    }

    /// How the register encodes its value.
    pub closed spec fn data_type_spec(self) -> DataType {
        table_data_type(self.index())
    }

    /// The register's address.
    pub fn address(&self) -> (r: u16)
        ensures
            r == table_address(self.index()),
            r == self.address_spec(),
            r <= LAST_ADDRESS,
    {
        proof {
            use_type_invariant(self);
        }
        address_at(self.0)
    }

    /// The register's name.
    pub fn name(&self) -> (r: &'static str)
        ensures
            r == table_name(self.index()),
    {
        proof {
            use_type_invariant(self);
        }
        name_at(self.0)
    }

    /// How the register encodes its value.
    pub fn data_type(&self) -> (r: DataType)
        ensures
            r == table_data_type(self.index()),
            r == self.data_type_spec(),
    {
        proof {
            use_type_invariant(self);
        }
        data_type_at(self.0)
    }

    /// Whether the register can be read and written.
    pub fn mode(&self) -> (r: Mode)
        ensures
            r == table_mode(self.index()),
    {
        proof {
            use_type_invariant(self);
        }
        mode_at(self.0)
    }

    /// The documented minimum value of the register, if any.
    pub fn minimum_value(&self) -> (r: Option<Value>)
        ensures
            r == (match table_minimum(self.index()) {
                Some(raw) => Some(value_of_raw(table_data_type(self.index()), raw)),
                None => None,
            }),
    {
        proof {
            use_type_invariant(self);
        }
        match minimum_at(self.0) {
            Some(raw) => Some(data_type_at(self.0).value_from_raw(raw)),
            None => None,
        }
    }

    /// The documented maximum value of the register, if any.
    pub fn maximum_value(&self) -> (r: Option<Value>)
        ensures
            r == (match table_maximum(self.index()) {
                Some(raw) => Some(value_of_raw(table_data_type(self.index()), raw)),
                None => None,
            }),
    {
        proof {
            use_type_invariant(self);
        }
        match maximum_at(self.0) {
            Some(raw) => Some(data_type_at(self.0).value_from_raw(raw)),
            None => None,
        }
    }

    /// A description of the register.
    pub fn description(&self) -> (r: &'static str)
        ensures
            r == table_description(self.index()),
    {
        proof {
            use_type_invariant(self);
        }
        description_at(self.0)
    }
}

} // verus!
