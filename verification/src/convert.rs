//! From a value reference to a concrete type.
//!
//! A conversion succeeds only where the reference holds the kind that the
//! target stands for. An integer target takes a signed or an unsigned
//! number and casts it to its own width as `as` does, keeping the low bits.
//! Every other pairing fails, with an error that says nothing more.

use vstd::prelude::*;
use vstd::std_specs::convert::{FromSpec, TryFromSpec, TryFromSpecImpl};
use crate::scalar::{Color, Num, Owned};
use crate::value::ValueRef;

verus! {

impl<'a, S: ?Sized, C: ?Sized> ValueRef<'a, S, C> {
    /// The integer that the reference holds, signed or unsigned.
    pub open spec fn integer(self) -> Option<int> {
        match self {
            ValueRef::Owned(Owned::Num(Num::Signed(n))) => Some(n as int),
            ValueRef::Owned(Owned::Num(Num::Unsigned(n))) => Some(n as int),
            _ => None,
        }
    }

    /// The bits of the float that the reference holds.
    pub open spec fn float_bits_of(self) -> Result<u64, ()> {
        match self {
            ValueRef::Owned(Owned::Num(Num::Float(bits))) => Ok(bits),
            _ => Err(()),
        }
    }

    /// The bits of the float that the reference holds. Only a float
    /// converts: an integer is not widened to one.
    pub fn float_bits(self) -> (r: Result<u64, ()>)
        ensures
            r == self.float_bits_of(),
    {
        match self {
            ValueRef::Owned(Owned::Num(Num::Float(bits))) => Ok(bits),
            _ => Err(()),
        }
    }
}

impl<'a, S: ?Sized, C: ?Sized> TryFrom<ValueRef<'a, S, C>> for bool {
    type Error = ();

    fn try_from(value: ValueRef<'a, S, C>) -> (r: Result<bool, ()>) {
        match value {
            ValueRef::Owned(Owned::Bool(val)) => Ok(val),
            _ => Err(()),
        }
    }
}

impl<'a, S: ?Sized, C: ?Sized> TryFromSpecImpl<ValueRef<'a, S, C>> for bool {
    open spec fn obeys_try_from_spec() -> bool {
        true
    }

    open spec fn try_from_spec(value: ValueRef<'a, S, C>) -> Result<bool, ()> {
        match value {
            ValueRef::Owned(Owned::Bool(val)) => Ok(val),
            _ => Err(()),
        }
    }
}

impl<'a, S: ?Sized, C: ?Sized> TryFrom<ValueRef<'a, S, C>> for char {
    type Error = ();

    fn try_from(value: ValueRef<'a, S, C>) -> (r: Result<char, ()>) {
        match value {
            ValueRef::Owned(Owned::Char(val)) => Ok(val),
            _ => Err(()),
        }
    }
}

impl<'a, S: ?Sized, C: ?Sized> TryFromSpecImpl<ValueRef<'a, S, C>> for char {
    open spec fn obeys_try_from_spec() -> bool {
        true
    }

    open spec fn try_from_spec(value: ValueRef<'a, S, C>) -> Result<char, ()> {
        match value {
            ValueRef::Owned(Owned::Char(val)) => Ok(val),
            _ => Err(()),
        }
    }
}

impl<'a, S: ?Sized, C: ?Sized> TryFrom<ValueRef<'a, S, C>> for Color {
    type Error = ();

    fn try_from(value: ValueRef<'a, S, C>) -> (r: Result<Color, ()>) {
        match value {
            ValueRef::Owned(Owned::Color(val)) => Ok(val),
            _ => Err(()),
        }
    }
}

impl<'a, S: ?Sized, C: ?Sized> TryFromSpecImpl<ValueRef<'a, S, C>> for Color {
    open spec fn obeys_try_from_spec() -> bool {
        true
    }

    open spec fn try_from_spec(value: ValueRef<'a, S, C>) -> Result<Color, ()> {
        match value {
            ValueRef::Owned(Owned::Color(val)) => Ok(val),
            _ => Err(()),
        }
    }
}

impl<'a, S: ?Sized, C: ?Sized> TryFrom<ValueRef<'a, S, C>> for usize {
    type Error = ();

    fn try_from(value: ValueRef<'a, S, C>) -> (r: Result<usize, ()>) {
        match value {
            ValueRef::Owned(Owned::Num(Num::Signed(num))) => Ok(#[verifier::truncate] (num as usize)),
            ValueRef::Owned(Owned::Num(Num::Unsigned(num))) => Ok(#[verifier::truncate] (num as usize)),
            _ => Err(()),
        }
    }
}

impl<'a, S: ?Sized, C: ?Sized> TryFromSpecImpl<ValueRef<'a, S, C>> for usize {
    open spec fn obeys_try_from_spec() -> bool {
        true
    }

    open spec fn try_from_spec(value: ValueRef<'a, S, C>) -> Result<usize, ()> {
        match value {
            ValueRef::Owned(Owned::Num(Num::Signed(num))) => Ok(num as usize),
            ValueRef::Owned(Owned::Num(Num::Unsigned(num))) => Ok(num as usize),
            _ => Err(()),
        }
    }
}

impl<'a, S: ?Sized, C: ?Sized> TryFrom<ValueRef<'a, S, C>> for u64 {
    type Error = ();

    fn try_from(value: ValueRef<'a, S, C>) -> (r: Result<u64, ()>) {
        match value {
            ValueRef::Owned(Owned::Num(Num::Signed(num))) => Ok(#[verifier::truncate] (num as u64)),
            ValueRef::Owned(Owned::Num(Num::Unsigned(num))) => Ok(num),
            _ => Err(()),
        }
    }
}

impl<'a, S: ?Sized, C: ?Sized> TryFromSpecImpl<ValueRef<'a, S, C>> for u64 {
    open spec fn obeys_try_from_spec() -> bool {
        true
    }

    open spec fn try_from_spec(value: ValueRef<'a, S, C>) -> Result<u64, ()> {
        match value {
            ValueRef::Owned(Owned::Num(Num::Signed(num))) => Ok(num as u64),
            ValueRef::Owned(Owned::Num(Num::Unsigned(num))) => Ok(num),
            _ => Err(()),
        }
    }
}

impl<'a, S: ?Sized, C: ?Sized> TryFrom<ValueRef<'a, S, C>> for u32 {
    type Error = ();

    fn try_from(value: ValueRef<'a, S, C>) -> (r: Result<u32, ()>) {
        match value {
            ValueRef::Owned(Owned::Num(Num::Signed(num))) => Ok(#[verifier::truncate] (num as u32)),
            ValueRef::Owned(Owned::Num(Num::Unsigned(num))) => Ok(#[verifier::truncate] (num as u32)),
            _ => Err(()),
        }
    }
}

impl<'a, S: ?Sized, C: ?Sized> TryFromSpecImpl<ValueRef<'a, S, C>> for u32 {
    open spec fn obeys_try_from_spec() -> bool {
        true
    }

    open spec fn try_from_spec(value: ValueRef<'a, S, C>) -> Result<u32, ()> {
        match value {
            ValueRef::Owned(Owned::Num(Num::Signed(num))) => Ok(num as u32),
            ValueRef::Owned(Owned::Num(Num::Unsigned(num))) => Ok(num as u32),
            _ => Err(()),
        }
    }
}

impl<'a, S: ?Sized, C: ?Sized> TryFrom<ValueRef<'a, S, C>> for u16 {
    type Error = ();

    fn try_from(value: ValueRef<'a, S, C>) -> (r: Result<u16, ()>) {
        match value {
            ValueRef::Owned(Owned::Num(Num::Signed(num))) => Ok(#[verifier::truncate] (num as u16)),
            ValueRef::Owned(Owned::Num(Num::Unsigned(num))) => Ok(#[verifier::truncate] (num as u16)),
            _ => Err(()),
        }
    }
}

impl<'a, S: ?Sized, C: ?Sized> TryFromSpecImpl<ValueRef<'a, S, C>> for u16 {
    open spec fn obeys_try_from_spec() -> bool {
        true
    }

    open spec fn try_from_spec(value: ValueRef<'a, S, C>) -> Result<u16, ()> {
        match value {
            ValueRef::Owned(Owned::Num(Num::Signed(num))) => Ok(num as u16),
            ValueRef::Owned(Owned::Num(Num::Unsigned(num))) => Ok(num as u16),
            _ => Err(()),
        }
    }
}

impl<'a, S: ?Sized, C: ?Sized> TryFrom<ValueRef<'a, S, C>> for u8 {
    type Error = ();

    fn try_from(value: ValueRef<'a, S, C>) -> (r: Result<u8, ()>) {
        match value {
            ValueRef::Owned(Owned::Num(Num::Signed(num))) => Ok(#[verifier::truncate] (num as u8)),
            ValueRef::Owned(Owned::Num(Num::Unsigned(num))) => Ok(#[verifier::truncate] (num as u8)),
            _ => Err(()),
        }
    }
}

impl<'a, S: ?Sized, C: ?Sized> TryFromSpecImpl<ValueRef<'a, S, C>> for u8 {
    open spec fn obeys_try_from_spec() -> bool {
        true
    }

    open spec fn try_from_spec(value: ValueRef<'a, S, C>) -> Result<u8, ()> {
        match value {
            ValueRef::Owned(Owned::Num(Num::Signed(num))) => Ok(num as u8),
            ValueRef::Owned(Owned::Num(Num::Unsigned(num))) => Ok(num as u8),
            _ => Err(()),
        }
    }
}

impl<'a, S: ?Sized, C: ?Sized> TryFrom<ValueRef<'a, S, C>> for isize {
    type Error = ();

    fn try_from(value: ValueRef<'a, S, C>) -> (r: Result<isize, ()>) {
        match value {
            ValueRef::Owned(Owned::Num(Num::Signed(num))) => Ok(#[verifier::truncate] (num as isize)),
            ValueRef::Owned(Owned::Num(Num::Unsigned(num))) => Ok(#[verifier::truncate] (num as isize)),
            _ => Err(()),
        }
    }
}

impl<'a, S: ?Sized, C: ?Sized> TryFromSpecImpl<ValueRef<'a, S, C>> for isize {
    open spec fn obeys_try_from_spec() -> bool {
        true
    }

    open spec fn try_from_spec(value: ValueRef<'a, S, C>) -> Result<isize, ()> {
        match value {
            ValueRef::Owned(Owned::Num(Num::Signed(num))) => Ok(num as isize),
            ValueRef::Owned(Owned::Num(Num::Unsigned(num))) => Ok(num as isize),
            _ => Err(()),
        }
    }
}

impl<'a, S: ?Sized, C: ?Sized> TryFrom<ValueRef<'a, S, C>> for i64 {
    type Error = ();

    fn try_from(value: ValueRef<'a, S, C>) -> (r: Result<i64, ()>) {
        match value {
            ValueRef::Owned(Owned::Num(Num::Signed(num))) => Ok(num),
            ValueRef::Owned(Owned::Num(Num::Unsigned(num))) => Ok(#[verifier::truncate] (num as i64)),
            _ => Err(()),
        }
    }
}

impl<'a, S: ?Sized, C: ?Sized> TryFromSpecImpl<ValueRef<'a, S, C>> for i64 {
    open spec fn obeys_try_from_spec() -> bool {
        true
    }

    open spec fn try_from_spec(value: ValueRef<'a, S, C>) -> Result<i64, ()> {
        match value {
            ValueRef::Owned(Owned::Num(Num::Signed(num))) => Ok(num),
            ValueRef::Owned(Owned::Num(Num::Unsigned(num))) => Ok(num as i64),
            _ => Err(()),
        }
    }
}

impl<'a, S: ?Sized, C: ?Sized> TryFrom<ValueRef<'a, S, C>> for i32 {
    type Error = ();

    fn try_from(value: ValueRef<'a, S, C>) -> (r: Result<i32, ()>) {
        match value {
            ValueRef::Owned(Owned::Num(Num::Signed(num))) => Ok(#[verifier::truncate] (num as i32)),
            ValueRef::Owned(Owned::Num(Num::Unsigned(num))) => Ok(#[verifier::truncate] (num as i32)),
            _ => Err(()),
        }
    }
}

impl<'a, S: ?Sized, C: ?Sized> TryFromSpecImpl<ValueRef<'a, S, C>> for i32 {
    open spec fn obeys_try_from_spec() -> bool {
        true
    }

    open spec fn try_from_spec(value: ValueRef<'a, S, C>) -> Result<i32, ()> {
        match value {
            ValueRef::Owned(Owned::Num(Num::Signed(num))) => Ok(num as i32),
            ValueRef::Owned(Owned::Num(Num::Unsigned(num))) => Ok(num as i32),
            _ => Err(()),
        }
    }
}

impl<'a, S: ?Sized, C: ?Sized> TryFrom<ValueRef<'a, S, C>> for i16 {
    type Error = ();

    fn try_from(value: ValueRef<'a, S, C>) -> (r: Result<i16, ()>) {
        match value {
            ValueRef::Owned(Owned::Num(Num::Signed(num))) => Ok(#[verifier::truncate] (num as i16)),
            ValueRef::Owned(Owned::Num(Num::Unsigned(num))) => Ok(#[verifier::truncate] (num as i16)),
            _ => Err(()),
        }
    }
}

impl<'a, S: ?Sized, C: ?Sized> TryFromSpecImpl<ValueRef<'a, S, C>> for i16 {
    open spec fn obeys_try_from_spec() -> bool {
        true
    }

    open spec fn try_from_spec(value: ValueRef<'a, S, C>) -> Result<i16, ()> {
        match value {
            ValueRef::Owned(Owned::Num(Num::Signed(num))) => Ok(num as i16),
            ValueRef::Owned(Owned::Num(Num::Unsigned(num))) => Ok(num as i16),
            _ => Err(()),
        }
    }
}

impl<'a, S: ?Sized, C: ?Sized> TryFrom<ValueRef<'a, S, C>> for i8 {
    type Error = ();

    fn try_from(value: ValueRef<'a, S, C>) -> (r: Result<i8, ()>) {
        match value {
            ValueRef::Owned(Owned::Num(Num::Signed(num))) => Ok(#[verifier::truncate] (num as i8)),
            ValueRef::Owned(Owned::Num(Num::Unsigned(num))) => Ok(#[verifier::truncate] (num as i8)),
            _ => Err(()),
        }
    }
}

impl<'a, S: ?Sized, C: ?Sized> TryFromSpecImpl<ValueRef<'a, S, C>> for i8 {
    open spec fn obeys_try_from_spec() -> bool {
        true
    }

    open spec fn try_from_spec(value: ValueRef<'a, S, C>) -> Result<i8, ()> {
        match value {
            ValueRef::Owned(Owned::Num(Num::Signed(num))) => Ok(num as i8),
            ValueRef::Owned(Owned::Num(Num::Unsigned(num))) => Ok(num as i8),
            _ => Err(()),
        }
    }
}

impl<'a, S: ?Sized, C: ?Sized> TryFrom<ValueRef<'a, S, C>> for &'a str {
    type Error = ();

    fn try_from(value: ValueRef<'a, S, C>) -> (r: Result<&'a str, ()>) {
        match value {
            ValueRef::Str(s) => Ok(s),
            _ => Err(()),
        }
    }
}

impl<'a, S: ?Sized, C: ?Sized> TryFromSpecImpl<ValueRef<'a, S, C>> for &'a str {
    open spec fn obeys_try_from_spec() -> bool {
        true
    }

    open spec fn try_from_spec(value: ValueRef<'a, S, C>) -> Result<&'a str, ()> {
        match value {
            ValueRef::Str(s) => Ok(s),
            _ => Err(()),
        }
    }
}

impl<'a, S: ?Sized, C: ?Sized> TryFrom<ValueRef<'a, S, C>> for String {
    type Error = ();

    /// A string reference gives an owned copy of its characters; nothing
    /// else converts.
    fn try_from(value: ValueRef<'a, S, C>) -> (r: Result<String, ()>)
        ensures
            value matches ValueRef::Str(s) ==> r matches Ok(t) && t@ == s@,
            !(value is Str) ==> r is Err,
    {
        match value {
            ValueRef::Str(s) => Ok(s.to_owned()),
            _ => Err(()),
        }
    }
}

impl<'a, S: ?Sized, C: ?Sized> TryFromSpecImpl<ValueRef<'a, S, C>> for String {
    /// Two owned strings with the same characters are not one value, so the
    /// result is stated on `try_from` itself, by its characters.
    open spec fn obeys_try_from_spec() -> bool {
        false
    }

    open spec fn try_from_spec(value: ValueRef<'a, S, C>) -> Result<String, ()> {
        match value {
            ValueRef::Str(s) => Ok(choose|t: String| t@ == s@),
            _ => Err(()),
        }
    }
}

/// Where the integer held fits the target, the conversion gives that
/// integer; a reference that holds no integer does not convert.
pub proof fn integer_conversion_keeps_fitting_values<'a, S: ?Sized, C: ?Sized>(value: ValueRef<'a, S, C>)
    ensures
        value.integer() matches Some(n) ==> (usize::MIN <= n <= usize::MAX ==> <usize as TryFromSpec<ValueRef<'a, S, C>>>::try_from_spec(value) == Ok::<usize, ()>(n as usize)),
        value.integer() is None ==> <usize as TryFromSpec<ValueRef<'a, S, C>>>::try_from_spec(value) == Err::<usize, ()>(()),
        value.integer() matches Some(n) ==> (u64::MIN <= n <= u64::MAX ==> <u64 as TryFromSpec<ValueRef<'a, S, C>>>::try_from_spec(value) == Ok::<u64, ()>(n as u64)),
        value.integer() is None ==> <u64 as TryFromSpec<ValueRef<'a, S, C>>>::try_from_spec(value) == Err::<u64, ()>(()),
        value.integer() matches Some(n) ==> (u32::MIN <= n <= u32::MAX ==> <u32 as TryFromSpec<ValueRef<'a, S, C>>>::try_from_spec(value) == Ok::<u32, ()>(n as u32)),
        value.integer() is None ==> <u32 as TryFromSpec<ValueRef<'a, S, C>>>::try_from_spec(value) == Err::<u32, ()>(()),
        value.integer() matches Some(n) ==> (u16::MIN <= n <= u16::MAX ==> <u16 as TryFromSpec<ValueRef<'a, S, C>>>::try_from_spec(value) == Ok::<u16, ()>(n as u16)),
        value.integer() is None ==> <u16 as TryFromSpec<ValueRef<'a, S, C>>>::try_from_spec(value) == Err::<u16, ()>(()),
        value.integer() matches Some(n) ==> (u8::MIN <= n <= u8::MAX ==> <u8 as TryFromSpec<ValueRef<'a, S, C>>>::try_from_spec(value) == Ok::<u8, ()>(n as u8)),
        value.integer() is None ==> <u8 as TryFromSpec<ValueRef<'a, S, C>>>::try_from_spec(value) == Err::<u8, ()>(()),
        value.integer() matches Some(n) ==> (isize::MIN <= n <= isize::MAX ==> <isize as TryFromSpec<ValueRef<'a, S, C>>>::try_from_spec(value) == Ok::<isize, ()>(n as isize)),
        value.integer() is None ==> <isize as TryFromSpec<ValueRef<'a, S, C>>>::try_from_spec(value) == Err::<isize, ()>(()),
        value.integer() matches Some(n) ==> (i64::MIN <= n <= i64::MAX ==> <i64 as TryFromSpec<ValueRef<'a, S, C>>>::try_from_spec(value) == Ok::<i64, ()>(n as i64)),
        value.integer() is None ==> <i64 as TryFromSpec<ValueRef<'a, S, C>>>::try_from_spec(value) == Err::<i64, ()>(()),
        value.integer() matches Some(n) ==> (i32::MIN <= n <= i32::MAX ==> <i32 as TryFromSpec<ValueRef<'a, S, C>>>::try_from_spec(value) == Ok::<i32, ()>(n as i32)),
        value.integer() is None ==> <i32 as TryFromSpec<ValueRef<'a, S, C>>>::try_from_spec(value) == Err::<i32, ()>(()),
        value.integer() matches Some(n) ==> (i16::MIN <= n <= i16::MAX ==> <i16 as TryFromSpec<ValueRef<'a, S, C>>>::try_from_spec(value) == Ok::<i16, ()>(n as i16)),
        value.integer() is None ==> <i16 as TryFromSpec<ValueRef<'a, S, C>>>::try_from_spec(value) == Err::<i16, ()>(()),
        value.integer() matches Some(n) ==> (i8::MIN <= n <= i8::MAX ==> <i8 as TryFromSpec<ValueRef<'a, S, C>>>::try_from_spec(value) == Ok::<i8, ()>(n as i8)),
        value.integer() is None ==> <i8 as TryFromSpec<ValueRef<'a, S, C>>>::try_from_spec(value) == Err::<i8, ()>(()),
{
}

/// The number that the low bits of `n` stand for when read as unsigned:
/// `n` modulo `modulus`, which is two to the number of bits kept.
pub open spec fn low_bits(n: int, modulus: int) -> int {
    n % modulus
}

/// The number that the low bits of `n` stand for when read as signed in
/// two's complement.
pub open spec fn signed_low_bits(n: int, modulus: int) -> int {
    let low = n % modulus;
    if 2 * low >= modulus {
        low - modulus
    } else {
        low
    }
}

/// A cast to an integer type of fixed width keeps the low bits of the
/// number and reads them in two's complement: a negative number cast to an
/// unsigned type wraps round, and a number too large for a signed type may
/// come out negative. This is what a conversion gives for a number that
/// does not fit its target. The pointer-wide types follow the same rule at
/// the width of the machine.
pub proof fn narrowing_keeps_low_bits(signed: i64, unsigned: u64)
    ensures
        (signed as u8) as int == low_bits(signed as int, 0x100),
        (signed as i8) as int == signed_low_bits(signed as int, 0x100),
        (signed as u16) as int == low_bits(signed as int, 0x1_0000),
        (signed as i16) as int == signed_low_bits(signed as int, 0x1_0000),
        (signed as u32) as int == low_bits(signed as int, 0x1_0000_0000),
        (signed as i32) as int == signed_low_bits(signed as int, 0x1_0000_0000),
        (signed as u64) as int == low_bits(signed as int, 0x1_0000_0000_0000_0000),
        (unsigned as u8) as int == low_bits(unsigned as int, 0x100),
        (unsigned as i8) as int == signed_low_bits(unsigned as int, 0x100),
        (unsigned as u16) as int == low_bits(unsigned as int, 0x1_0000),
        (unsigned as i16) as int == signed_low_bits(unsigned as int, 0x1_0000),
        (unsigned as u32) as int == low_bits(unsigned as int, 0x1_0000_0000),
        (unsigned as i32) as int == signed_low_bits(unsigned as int, 0x1_0000_0000),
        (unsigned as i64) as int == signed_low_bits(unsigned as int, 0x1_0000_0000_0000_0000),
{
    assert(signed as u8 == (signed as int) % 0x100) by (bit_vector);
    assert((signed as i8) as int == if 2 * ((signed as int) % 0x100) >= 0x100 {
        (signed as int) % 0x100 - 0x100
    } else {
        (signed as int) % 0x100
    }) by (bit_vector);
    assert(signed as u16 == (signed as int) % 0x1_0000) by (bit_vector);
    assert((signed as i16) as int == if 2 * ((signed as int) % 0x1_0000) >= 0x1_0000 {
        (signed as int) % 0x1_0000 - 0x1_0000
    } else {
        (signed as int) % 0x1_0000
    }) by (bit_vector);
    assert(signed as u32 == (signed as int) % 0x1_0000_0000) by (bit_vector);
    assert((signed as i32) as int == if 2 * ((signed as int) % 0x1_0000_0000) >= 0x1_0000_0000 {
        (signed as int) % 0x1_0000_0000 - 0x1_0000_0000
    } else {
        (signed as int) % 0x1_0000_0000
    }) by (bit_vector);
    assert(signed as u64 == (signed as int) % 0x1_0000_0000_0000_0000) by (bit_vector);
    assert(unsigned as u8 == (unsigned as int) % 0x100) by (bit_vector);
    assert((unsigned as i8) as int == if 2 * ((unsigned as int) % 0x100) >= 0x100 {
        (unsigned as int) % 0x100 - 0x100
    } else {
        (unsigned as int) % 0x100
    }) by (bit_vector);
    assert(unsigned as u16 == (unsigned as int) % 0x1_0000) by (bit_vector);
    assert((unsigned as i16) as int == if 2 * ((unsigned as int) % 0x1_0000) >= 0x1_0000 {
        (unsigned as int) % 0x1_0000 - 0x1_0000
    } else {
        (unsigned as int) % 0x1_0000
    }) by (bit_vector);
    assert(unsigned as u32 == (unsigned as int) % 0x1_0000_0000) by (bit_vector);
    assert((unsigned as i32) as int == if 2 * ((unsigned as int) % 0x1_0000_0000) >= 0x1_0000_0000 {
        (unsigned as int) % 0x1_0000_0000 - 0x1_0000_0000
    } else {
        (unsigned as int) % 0x1_0000_0000
    }) by (bit_vector);
    assert((unsigned as i64) as int == if 2 * ((unsigned as int) % 0x1_0000_0000_0000_0000) >= 0x1_0000_0000_0000_0000 {
        (unsigned as int) % 0x1_0000_0000_0000_0000 - 0x1_0000_0000_0000_0000
    } else {
        (unsigned as int) % 0x1_0000_0000_0000_0000
    }) by (bit_vector);
}

/// A `bool` made into a scalar and read back from a reference to it is
/// the `bool` that went in.
pub proof fn round_trip_bool<'a, S: ?Sized, C: ?Sized>(x: bool)
    ensures
        <bool as TryFromSpec<ValueRef<'a, S, C>>>::try_from_spec(
            ValueRef::Owned(<Owned as FromSpec<bool>>::from_spec(x)),
        ) == Ok::<bool, ()>(x),
{
}

/// A `char` made into a scalar and read back from a reference to it is
/// the `char` that went in.
pub proof fn round_trip_char<'a, S: ?Sized, C: ?Sized>(x: char)
    ensures
        <char as TryFromSpec<ValueRef<'a, S, C>>>::try_from_spec(
            ValueRef::Owned(<Owned as FromSpec<char>>::from_spec(x)),
        ) == Ok::<char, ()>(x),
{
}

/// A `Color` made into a scalar and read back from a reference to it is
/// the `Color` that went in.
pub proof fn round_trip_color<'a, S: ?Sized, C: ?Sized>(x: Color)
    ensures
        <Color as TryFromSpec<ValueRef<'a, S, C>>>::try_from_spec(
            ValueRef::Owned(<Owned as FromSpec<Color>>::from_spec(x)),
        ) == Ok::<Color, ()>(x),
{
}

/// A `usize` made into a scalar and read back from a reference to it is
/// the `usize` that went in.
pub proof fn round_trip_usize<'a, S: ?Sized, C: ?Sized>(x: usize)
    ensures
        <usize as TryFromSpec<ValueRef<'a, S, C>>>::try_from_spec(
            ValueRef::Owned(<Owned as FromSpec<usize>>::from_spec(x)),
        ) == Ok::<usize, ()>(x),
{
}

/// A `u64` made into a scalar and read back from a reference to it is
/// the `u64` that went in.
pub proof fn round_trip_u64<'a, S: ?Sized, C: ?Sized>(x: u64)
    ensures
        <u64 as TryFromSpec<ValueRef<'a, S, C>>>::try_from_spec(
            ValueRef::Owned(<Owned as FromSpec<u64>>::from_spec(x)),
        ) == Ok::<u64, ()>(x),
{
}

/// A `u32` made into a scalar and read back from a reference to it is
/// the `u32` that went in.
pub proof fn round_trip_u32<'a, S: ?Sized, C: ?Sized>(x: u32)
    ensures
        <u32 as TryFromSpec<ValueRef<'a, S, C>>>::try_from_spec(
            ValueRef::Owned(<Owned as FromSpec<u32>>::from_spec(x)),
        ) == Ok::<u32, ()>(x),
{
}

/// A `u16` made into a scalar and read back from a reference to it is
/// the `u16` that went in.
pub proof fn round_trip_u16<'a, S: ?Sized, C: ?Sized>(x: u16)
    ensures
        <u16 as TryFromSpec<ValueRef<'a, S, C>>>::try_from_spec(
            ValueRef::Owned(<Owned as FromSpec<u16>>::from_spec(x)),
        ) == Ok::<u16, ()>(x),
{
}

/// A `u8` made into a scalar and read back from a reference to it is
/// the `u8` that went in.
pub proof fn round_trip_u8<'a, S: ?Sized, C: ?Sized>(x: u8)
    ensures
        <u8 as TryFromSpec<ValueRef<'a, S, C>>>::try_from_spec(
            ValueRef::Owned(<Owned as FromSpec<u8>>::from_spec(x)),
        ) == Ok::<u8, ()>(x),
{
}

/// A `isize` made into a scalar and read back from a reference to it is
/// the `isize` that went in.
pub proof fn round_trip_isize<'a, S: ?Sized, C: ?Sized>(x: isize)
    ensures
        <isize as TryFromSpec<ValueRef<'a, S, C>>>::try_from_spec(
            ValueRef::Owned(<Owned as FromSpec<isize>>::from_spec(x)),
        ) == Ok::<isize, ()>(x),
{
}

/// A `i64` made into a scalar and read back from a reference to it is
/// the `i64` that went in.
pub proof fn round_trip_i64<'a, S: ?Sized, C: ?Sized>(x: i64)
    ensures
        <i64 as TryFromSpec<ValueRef<'a, S, C>>>::try_from_spec(
            ValueRef::Owned(<Owned as FromSpec<i64>>::from_spec(x)),
        ) == Ok::<i64, ()>(x),
{
}

/// A `i32` made into a scalar and read back from a reference to it is
/// the `i32` that went in.
pub proof fn round_trip_i32<'a, S: ?Sized, C: ?Sized>(x: i32)
    ensures
        <i32 as TryFromSpec<ValueRef<'a, S, C>>>::try_from_spec(
            ValueRef::Owned(<Owned as FromSpec<i32>>::from_spec(x)),
        ) == Ok::<i32, ()>(x),
{
}

/// A `i16` made into a scalar and read back from a reference to it is
/// the `i16` that went in.
pub proof fn round_trip_i16<'a, S: ?Sized, C: ?Sized>(x: i16)
    ensures
        <i16 as TryFromSpec<ValueRef<'a, S, C>>>::try_from_spec(
            ValueRef::Owned(<Owned as FromSpec<i16>>::from_spec(x)),
        ) == Ok::<i16, ()>(x),
{
}

/// A `i8` made into a scalar and read back from a reference to it is
/// the `i8` that went in.
pub proof fn round_trip_i8<'a, S: ?Sized, C: ?Sized>(x: i8)
    ensures
        <i8 as TryFromSpec<ValueRef<'a, S, C>>>::try_from_spec(
            ValueRef::Owned(<Owned as FromSpec<i8>>::from_spec(x)),
        ) == Ok::<i8, ()>(x),
{
}

/// A string slice seen through a reference and read back is the slice
/// that went in.
pub proof fn round_trip_str<'a, S: ?Sized, C: ?Sized>(s: &'a str)
    ensures
        <&'a str as TryFromSpec<ValueRef<'a, S, C>>>::try_from_spec(ValueRef::Str(s)) == Ok::<&'a str, ()>(s),
{
}

/// The bits of a float made into a scalar are read back unchanged.
pub proof fn round_trip_float_bits<'a, S: ?Sized, C: ?Sized>(bits: u64)
    ensures
        (ValueRef::<'a, S, C>::Owned(Owned::Num(Num::Float(bits)))).float_bits_of() == Ok::<u64, ()>(bits),
{
}

/// A conversion never crosses kinds: a string gives no number and no
/// boolean, a boolean gives no number.
pub proof fn conversions_do_not_coerce<'a, S: ?Sized, C: ?Sized>(s: &'a str, b: bool)
    ensures
        <u64 as TryFromSpec<ValueRef<'a, S, C>>>::try_from_spec(ValueRef::Str(s)) is Err,
        <i64 as TryFromSpec<ValueRef<'a, S, C>>>::try_from_spec(ValueRef::Str(s)) is Err,
        <bool as TryFromSpec<ValueRef<'a, S, C>>>::try_from_spec(ValueRef::Str(s)) is Err,
        <u64 as TryFromSpec<ValueRef<'a, S, C>>>::try_from_spec(ValueRef::Owned(Owned::Bool(b))) is Err,
        <i64 as TryFromSpec<ValueRef<'a, S, C>>>::try_from_spec(ValueRef::Owned(Owned::Bool(b))) is Err,
{
}

} // verus!
