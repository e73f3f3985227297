//! The scalar kinds: the values that stand on their own, without a borrow.

use vstd::prelude::*;
use vstd::std_specs::convert::FromSpecImpl;

verus! {

/// A terminal colour. It is carried and compared, never computed with.
#[derive(Clone, Copy, Debug, PartialEq, Eq, Structural)]
pub enum Color {
    Reset,
    Black,
    DarkGrey,
    Red,
    DarkRed,
    Green,
    DarkGreen,
    Yellow,
    DarkYellow,
    Blue,
    DarkBlue,
    Magenta,
    DarkMagenta,
    Cyan,
    DarkCyan,
    White,
    Grey,
    Rgb { r: u8, g: u8, b: u8 },
    AnsiValue(u8),
}

/// A number. A float is held by the sixty-four bits of its binary64
/// encoding, sign bit first.
#[derive(Clone, Copy, Debug)]
pub enum Num {
    Signed(i64),
    Unsigned(u64),
    Float(u64),
}

/// Whether the bits encode a value that is not a number: all exponent bits
/// set and a mantissa other than zero.
pub open spec fn is_nan_bits(bits: u64) -> bool {
    (bits & 0x7fff_ffff_ffff_ffff) > 0x7ff0_0000_0000_0000
}

/// Whether the bits encode zero, of either sign.
pub open spec fn is_zero_bits(bits: u64) -> bool {
    (bits & 0x7fff_ffff_ffff_ffff) == 0
}

/// Equality of two floats given by their bits: no value equals one that is
/// not a number, the two zeros are equal, and otherwise the bits decide.
pub open spec fn float_bits_equal(a: u64, b: u64) -> bool {
    !is_nan_bits(a) && !is_nan_bits(b) && (a == b || (is_zero_bits(a) && is_zero_bits(b)))
}

/// Compares two floats given by their bits.
pub fn float_bits_eq(a: u64, b: u64) -> (r: bool)
    ensures
        r == float_bits_equal(a, b),
{
    let mag_a: u64 = a & 0x7fff_ffff_ffff_ffff;
    let mag_b: u64 = b & 0x7fff_ffff_ffff_ffff;
    mag_a <= 0x7ff0_0000_0000_0000 && mag_b <= 0x7ff0_0000_0000_0000 && (a == b || (mag_a == 0
        && mag_b == 0))
}

impl Num {
    /// Whether the number is above zero. A float never is.
    pub open spec fn is_positive(self) -> bool {
        match self {
            Num::Signed(n) => n > 0,
            Num::Unsigned(n) => n > 0,
            Num::Float(_) => false,
        }
    }

    /// Equality of numbers: the same kind and the same value. A signed and
    /// an unsigned number are never equal.
    pub open spec fn same(self, other: Num) -> bool {
        match (self, other) {
            (Num::Signed(a), Num::Signed(b)) => a == b,
            (Num::Unsigned(a), Num::Unsigned(b)) => a == b,
            (Num::Float(a), Num::Float(b)) => float_bits_equal(a, b),
            _ => false,
        }
    }

    /// Makes a float from the bits of its encoding.
    pub fn from_float_bits(bits: u64) -> (n: Num)
        ensures
            n == Num::Float(bits),
    {
        Num::Float(bits)
    }
}

impl PartialEq for Num {
    fn eq(&self, other: &Num) -> (r: bool) {
        match (*self, *other) {
            (Num::Signed(a), Num::Signed(b)) => a == b,
            (Num::Unsigned(a), Num::Unsigned(b)) => a == b,
            (Num::Float(a), Num::Float(b)) => float_bits_eq(a, b),
            _ => false,
        }
    }
}

impl vstd::std_specs::cmp::PartialEqSpecImpl for Num {
    open spec fn obeys_eq_spec() -> bool {
        true
    }

    open spec fn eq_spec(&self, other: &Num) -> bool {
        self.same(*other)
    }
}

/// A value that owns what it holds.
#[derive(Clone, Copy, Debug)]
pub enum Owned {
    Bool(bool),
    Char(char),
    Color(Color),
    Num(Num),
}

impl Owned {
    /// Equality of scalars: the same kind and equal payloads.
    pub open spec fn same(self, other: Owned) -> bool {
        match (self, other) {
            (Owned::Bool(a), Owned::Bool(b)) => a == b,
            (Owned::Char(a), Owned::Char(b)) => a == b,
            (Owned::Color(a), Owned::Color(b)) => a == b,
            (Owned::Num(a), Owned::Num(b)) => a.same(b),
            _ => false,
        }
    }

    /// Whether the scalar counts as true: a boolean by its value, a number
    /// where it is above zero, nothing else.
    pub open spec fn is_truthy(self) -> bool {
        match self {
            Owned::Bool(b) => b,
            Owned::Num(n) => n.is_positive(),
            _ => false,
        }
    }
}

impl PartialEq for Owned {
    fn eq(&self, other: &Owned) -> (r: bool) {
        match (*self, *other) {
            (Owned::Bool(a), Owned::Bool(b)) => a == b,
            (Owned::Char(a), Owned::Char(b)) => a == b,
            (Owned::Color(a), Owned::Color(b)) => a == b,
            (Owned::Num(a), Owned::Num(b)) => a == b,
            _ => false,
        }
    }
}

impl vstd::std_specs::cmp::PartialEqSpecImpl for Owned {
    open spec fn obeys_eq_spec() -> bool {
        true
    }

    open spec fn eq_spec(&self, other: &Owned) -> bool {
        self.same(*other)
    }
}

impl From<Num> for Owned {
    fn from(n: Num) -> (r: Owned) {
        Owned::Num(n)
    }
}

impl FromSpecImpl<Num> for Owned {
    open spec fn obeys_from_spec() -> bool {
        true
    }

    open spec fn from_spec(n: Num) -> Owned {
        Owned::Num(n)
    }
}

impl From<bool> for Owned {
    fn from(b: bool) -> (r: Owned) {
        Owned::Bool(b)
    }
}

impl FromSpecImpl<bool> for Owned {
    open spec fn obeys_from_spec() -> bool {
        true
    }

    open spec fn from_spec(b: bool) -> Owned {
        Owned::Bool(b)
    }
}

impl From<char> for Owned {
    fn from(c: char) -> (r: Owned) {
        Owned::Char(c)
    }
}

impl FromSpecImpl<char> for Owned {
    open spec fn obeys_from_spec() -> bool {
        true
    }

    open spec fn from_spec(c: char) -> Owned {
        Owned::Char(c)
    }
}

impl From<Color> for Owned {
    fn from(color: Color) -> (r: Owned) {
        Owned::Color(color)
    }
}

impl FromSpecImpl<Color> for Owned {
    open spec fn obeys_from_spec() -> bool {
        true
    }

    open spec fn from_spec(color: Color) -> Owned {
        Owned::Color(color)
    }
}

impl From<u8> for Num {
    fn from(n: u8) -> (r: Num) {
        Num::Unsigned(n as u64)
    }
}

impl FromSpecImpl<u8> for Num {
    open spec fn obeys_from_spec() -> bool {
        true
    }

    open spec fn from_spec(n: u8) -> Num {
        Num::Unsigned(n as u64)
    }
}

impl From<u8> for Owned {
    fn from(n: u8) -> (r: Owned) {
        Owned::Num(Num::Unsigned(n as u64))
    }
}

impl FromSpecImpl<u8> for Owned {
    open spec fn obeys_from_spec() -> bool {
        true
    }

    open spec fn from_spec(n: u8) -> Owned {
        Owned::Num(Num::Unsigned(n as u64))
    }
}

impl From<u16> for Num {
    fn from(n: u16) -> (r: Num) {
        Num::Unsigned(n as u64)
    }
}

impl FromSpecImpl<u16> for Num {
    open spec fn obeys_from_spec() -> bool {
        true
    }

    open spec fn from_spec(n: u16) -> Num {
        Num::Unsigned(n as u64)
    }
}

impl From<u16> for Owned {
    fn from(n: u16) -> (r: Owned) {
        Owned::Num(Num::Unsigned(n as u64))
    }
}

impl FromSpecImpl<u16> for Owned {
    open spec fn obeys_from_spec() -> bool {
        true
    }

    open spec fn from_spec(n: u16) -> Owned {
        Owned::Num(Num::Unsigned(n as u64))
    }
}

impl From<u32> for Num {
    fn from(n: u32) -> (r: Num) {
        Num::Unsigned(n as u64)
    }
}

impl FromSpecImpl<u32> for Num {
    open spec fn obeys_from_spec() -> bool {
        true
    }

    open spec fn from_spec(n: u32) -> Num {
        Num::Unsigned(n as u64)
    }
}

impl From<u32> for Owned {
    fn from(n: u32) -> (r: Owned) {
        Owned::Num(Num::Unsigned(n as u64))
    }
}

impl FromSpecImpl<u32> for Owned {
    open spec fn obeys_from_spec() -> bool {
        true
    }

    open spec fn from_spec(n: u32) -> Owned {
        Owned::Num(Num::Unsigned(n as u64))
    }
}

impl From<u64> for Num {
    fn from(n: u64) -> (r: Num) {
        Num::Unsigned(n)
    }
}

impl FromSpecImpl<u64> for Num {
    open spec fn obeys_from_spec() -> bool {
        true
    }

    open spec fn from_spec(n: u64) -> Num {
        Num::Unsigned(n)
    }
}

impl From<u64> for Owned {
    fn from(n: u64) -> (r: Owned) {
        Owned::Num(Num::Unsigned(n))
    }
}

impl FromSpecImpl<u64> for Owned {
    open spec fn obeys_from_spec() -> bool {
        true
    }

    open spec fn from_spec(n: u64) -> Owned {
        Owned::Num(Num::Unsigned(n))
    }
}

impl From<usize> for Num {
    fn from(n: usize) -> (r: Num) {
        Num::Unsigned(n as u64)
    }
}

impl FromSpecImpl<usize> for Num {
    open spec fn obeys_from_spec() -> bool {
        true
    }

    open spec fn from_spec(n: usize) -> Num {
        Num::Unsigned(n as u64)
    }
}

impl From<usize> for Owned {
    fn from(n: usize) -> (r: Owned) {
        Owned::Num(Num::Unsigned(n as u64))
    }
}

impl FromSpecImpl<usize> for Owned {
    open spec fn obeys_from_spec() -> bool {
        true
    }

    open spec fn from_spec(n: usize) -> Owned {
        Owned::Num(Num::Unsigned(n as u64))
    }
}

impl From<i8> for Num {
    fn from(n: i8) -> (r: Num) {
        Num::Signed(n as i64)
    }
}

impl FromSpecImpl<i8> for Num {
    open spec fn obeys_from_spec() -> bool {
        true
    }

    open spec fn from_spec(n: i8) -> Num {
        Num::Signed(n as i64)
    }
}

impl From<i8> for Owned {
    fn from(n: i8) -> (r: Owned) {
        Owned::Num(Num::Signed(n as i64))
    }
}

impl FromSpecImpl<i8> for Owned {
    open spec fn obeys_from_spec() -> bool {
        true
    }

    open spec fn from_spec(n: i8) -> Owned {
        Owned::Num(Num::Signed(n as i64))
    }
}

impl From<i16> for Num {
    fn from(n: i16) -> (r: Num) {
        Num::Signed(n as i64)
    }
}

impl FromSpecImpl<i16> for Num {
    open spec fn obeys_from_spec() -> bool {
        true
    }

    open spec fn from_spec(n: i16) -> Num {
        Num::Signed(n as i64)
    }
}

impl From<i16> for Owned {
    fn from(n: i16) -> (r: Owned) {
        Owned::Num(Num::Signed(n as i64))
    }
}

impl FromSpecImpl<i16> for Owned {
    open spec fn obeys_from_spec() -> bool {
        true
    }

    open spec fn from_spec(n: i16) -> Owned {
        Owned::Num(Num::Signed(n as i64))
    }
}

impl From<i32> for Num {
    fn from(n: i32) -> (r: Num) {
        Num::Signed(n as i64)
    }
}

impl FromSpecImpl<i32> for Num {
    open spec fn obeys_from_spec() -> bool {
        true
    }

    open spec fn from_spec(n: i32) -> Num {
        Num::Signed(n as i64)
    }
}

impl From<i32> for Owned {
    fn from(n: i32) -> (r: Owned) {
        Owned::Num(Num::Signed(n as i64))
    }
}

impl FromSpecImpl<i32> for Owned {
    open spec fn obeys_from_spec() -> bool {
        true
    }

    open spec fn from_spec(n: i32) -> Owned {
        Owned::Num(Num::Signed(n as i64))
    }
}

impl From<i64> for Num {
    fn from(n: i64) -> (r: Num) {
        Num::Signed(n)
    }
}

impl FromSpecImpl<i64> for Num {
    open spec fn obeys_from_spec() -> bool {
        true
    }

    open spec fn from_spec(n: i64) -> Num {
        Num::Signed(n)
    }
}

impl From<i64> for Owned {
    fn from(n: i64) -> (r: Owned) {
        Owned::Num(Num::Signed(n))
    }
}

impl FromSpecImpl<i64> for Owned {
    open spec fn obeys_from_spec() -> bool {
        true
    }

    open spec fn from_spec(n: i64) -> Owned {
        Owned::Num(Num::Signed(n))
    }
}

impl From<isize> for Num {
    fn from(n: isize) -> (r: Num) {
        Num::Signed(n as i64)
    }
}

impl FromSpecImpl<isize> for Num {
    open spec fn obeys_from_spec() -> bool {
        true
    }

    open spec fn from_spec(n: isize) -> Num {
        Num::Signed(n as i64)
    }
}

impl From<isize> for Owned {
    fn from(n: isize) -> (r: Owned) {
        Owned::Num(Num::Signed(n as i64))
    }
}

impl FromSpecImpl<isize> for Owned {
    open spec fn obeys_from_spec() -> bool {
        true
    }

    open spec fn from_spec(n: isize) -> Owned {
        Owned::Num(Num::Signed(n as i64))
    }
}

} // verus!
