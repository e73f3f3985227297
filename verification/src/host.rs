//! From a borrowed host value to a value reference, in one step.
//!
//! The scalar is made from the value behind the borrow and owns it: the
//! reference that comes out borrows nothing.

use vstd::prelude::*;
use vstd::std_specs::convert::{FromSpec, FromSpecImpl, TryFromSpec};
use crate::scalar::{Color, Num, Owned};
use crate::value::ValueRef;

verus! {

impl<'a, S: ?Sized, C: ?Sized> From<&'a bool> for ValueRef<'a, S, C> {
    fn from(x: &'a bool) -> (r: Self) {
        ValueRef::Owned(Owned::Bool(*x))
    }
}

impl<'a, S: ?Sized, C: ?Sized> FromSpecImpl<&'a bool> for ValueRef<'a, S, C> {
    open spec fn obeys_from_spec() -> bool {
        true
    }

    open spec fn from_spec(x: &'a bool) -> Self {
        ValueRef::Owned(Owned::Bool(*x))
    }
}

impl<'a, S: ?Sized, C: ?Sized> From<&'a char> for ValueRef<'a, S, C> {
    fn from(x: &'a char) -> (r: Self) {
        ValueRef::Owned(Owned::Char(*x))
    }
}

impl<'a, S: ?Sized, C: ?Sized> FromSpecImpl<&'a char> for ValueRef<'a, S, C> {
    open spec fn obeys_from_spec() -> bool {
        true
    }

    open spec fn from_spec(x: &'a char) -> Self {
        ValueRef::Owned(Owned::Char(*x))
    }
}

impl<'a, S: ?Sized, C: ?Sized> From<&'a Color> for ValueRef<'a, S, C> {
    fn from(x: &'a Color) -> (r: Self) {
        ValueRef::Owned(Owned::Color(*x))
    }
}

impl<'a, S: ?Sized, C: ?Sized> FromSpecImpl<&'a Color> for ValueRef<'a, S, C> {
    open spec fn obeys_from_spec() -> bool {
        true
    }

    open spec fn from_spec(x: &'a Color) -> Self {
        ValueRef::Owned(Owned::Color(*x))
    }
}

impl<'a, S: ?Sized, C: ?Sized> From<&'a Num> for ValueRef<'a, S, C> {
    fn from(x: &'a Num) -> (r: Self) {
        ValueRef::Owned(Owned::Num(*x))
    }
}

impl<'a, S: ?Sized, C: ?Sized> FromSpecImpl<&'a Num> for ValueRef<'a, S, C> {
    open spec fn obeys_from_spec() -> bool {
        true
    }

    open spec fn from_spec(x: &'a Num) -> Self {
        ValueRef::Owned(Owned::Num(*x))
    }
}

impl<'a, S: ?Sized, C: ?Sized> From<&'a Owned> for ValueRef<'a, S, C> {
    fn from(x: &'a Owned) -> (r: Self) {
        ValueRef::Owned(*x)
    }
}

impl<'a, S: ?Sized, C: ?Sized> FromSpecImpl<&'a Owned> for ValueRef<'a, S, C> {
    open spec fn obeys_from_spec() -> bool {
        true
    }

    open spec fn from_spec(x: &'a Owned) -> Self {
        ValueRef::Owned(*x)
    }
}

impl<'a, S: ?Sized, C: ?Sized> From<&'a u8> for ValueRef<'a, S, C> {
    fn from(x: &'a u8) -> (r: Self) {
        ValueRef::Owned(Owned::Num(Num::Unsigned(*x as u64)))
    }
}

impl<'a, S: ?Sized, C: ?Sized> FromSpecImpl<&'a u8> for ValueRef<'a, S, C> {
    open spec fn obeys_from_spec() -> bool {
        true
    }

    open spec fn from_spec(x: &'a u8) -> Self {
        ValueRef::Owned(Owned::Num(Num::Unsigned(*x as u64)))
    }
}

impl<'a, S: ?Sized, C: ?Sized> From<&'a u16> for ValueRef<'a, S, C> {
    fn from(x: &'a u16) -> (r: Self) {
        ValueRef::Owned(Owned::Num(Num::Unsigned(*x as u64)))
    }
}

impl<'a, S: ?Sized, C: ?Sized> FromSpecImpl<&'a u16> for ValueRef<'a, S, C> {
    open spec fn obeys_from_spec() -> bool {
        true
    }

    open spec fn from_spec(x: &'a u16) -> Self {
        ValueRef::Owned(Owned::Num(Num::Unsigned(*x as u64)))
    }
}

impl<'a, S: ?Sized, C: ?Sized> From<&'a u32> for ValueRef<'a, S, C> {
    fn from(x: &'a u32) -> (r: Self) {
        ValueRef::Owned(Owned::Num(Num::Unsigned(*x as u64)))
    }
}

impl<'a, S: ?Sized, C: ?Sized> FromSpecImpl<&'a u32> for ValueRef<'a, S, C> {
    open spec fn obeys_from_spec() -> bool {
        true
    }

    open spec fn from_spec(x: &'a u32) -> Self {
        ValueRef::Owned(Owned::Num(Num::Unsigned(*x as u64)))
    }
}

impl<'a, S: ?Sized, C: ?Sized> From<&'a u64> for ValueRef<'a, S, C> {
    fn from(x: &'a u64) -> (r: Self) {
        ValueRef::Owned(Owned::Num(Num::Unsigned(*x)))
    }
}

impl<'a, S: ?Sized, C: ?Sized> FromSpecImpl<&'a u64> for ValueRef<'a, S, C> {
    open spec fn obeys_from_spec() -> bool {
        true
    }

    open spec fn from_spec(x: &'a u64) -> Self {
        ValueRef::Owned(Owned::Num(Num::Unsigned(*x)))
    }
}

impl<'a, S: ?Sized, C: ?Sized> From<&'a usize> for ValueRef<'a, S, C> {
    fn from(x: &'a usize) -> (r: Self) {
        ValueRef::Owned(Owned::Num(Num::Unsigned(*x as u64)))
    }
}

impl<'a, S: ?Sized, C: ?Sized> FromSpecImpl<&'a usize> for ValueRef<'a, S, C> {
    open spec fn obeys_from_spec() -> bool {
        true
    }

    open spec fn from_spec(x: &'a usize) -> Self {
        ValueRef::Owned(Owned::Num(Num::Unsigned(*x as u64)))
    }
}

impl<'a, S: ?Sized, C: ?Sized> From<&'a i8> for ValueRef<'a, S, C> {
    fn from(x: &'a i8) -> (r: Self) {
        ValueRef::Owned(Owned::Num(Num::Signed(*x as i64)))
    }
}

impl<'a, S: ?Sized, C: ?Sized> FromSpecImpl<&'a i8> for ValueRef<'a, S, C> {
    open spec fn obeys_from_spec() -> bool {
        true
    }

    open spec fn from_spec(x: &'a i8) -> Self {
        ValueRef::Owned(Owned::Num(Num::Signed(*x as i64)))
    }
}

impl<'a, S: ?Sized, C: ?Sized> From<&'a i16> for ValueRef<'a, S, C> {
    fn from(x: &'a i16) -> (r: Self) {
        ValueRef::Owned(Owned::Num(Num::Signed(*x as i64)))
    }
}

impl<'a, S: ?Sized, C: ?Sized> FromSpecImpl<&'a i16> for ValueRef<'a, S, C> {
    open spec fn obeys_from_spec() -> bool {
        true
    }

    open spec fn from_spec(x: &'a i16) -> Self {
        ValueRef::Owned(Owned::Num(Num::Signed(*x as i64)))
    }
}

impl<'a, S: ?Sized, C: ?Sized> From<&'a i32> for ValueRef<'a, S, C> {
    fn from(x: &'a i32) -> (r: Self) {
        ValueRef::Owned(Owned::Num(Num::Signed(*x as i64)))
    }
}

impl<'a, S: ?Sized, C: ?Sized> FromSpecImpl<&'a i32> for ValueRef<'a, S, C> {
    open spec fn obeys_from_spec() -> bool {
        true
    }

    open spec fn from_spec(x: &'a i32) -> Self {
        ValueRef::Owned(Owned::Num(Num::Signed(*x as i64)))
    }
}

impl<'a, S: ?Sized, C: ?Sized> From<&'a i64> for ValueRef<'a, S, C> {
    fn from(x: &'a i64) -> (r: Self) {
        ValueRef::Owned(Owned::Num(Num::Signed(*x)))
    }
}

impl<'a, S: ?Sized, C: ?Sized> FromSpecImpl<&'a i64> for ValueRef<'a, S, C> {
    open spec fn obeys_from_spec() -> bool {
        true
    }

    open spec fn from_spec(x: &'a i64) -> Self {
        ValueRef::Owned(Owned::Num(Num::Signed(*x)))
    }
}

impl<'a, S: ?Sized, C: ?Sized> From<&'a isize> for ValueRef<'a, S, C> {
    fn from(x: &'a isize) -> (r: Self) {
        ValueRef::Owned(Owned::Num(Num::Signed(*x as i64)))
    }
}

impl<'a, S: ?Sized, C: ?Sized> FromSpecImpl<&'a isize> for ValueRef<'a, S, C> {
    open spec fn obeys_from_spec() -> bool {
        true
    }

    open spec fn from_spec(x: &'a isize) -> Self {
        ValueRef::Owned(Owned::Num(Num::Signed(*x as i64)))
    }
}

/// The one-step conversion of a borrowed host value is the conversion of
/// the value to a scalar, followed by the reference to that scalar.
pub proof fn one_step_is_two_steps<'a, S: ?Sized, C: ?Sized>(
    b: &'a bool,
    c: &'a char,
    color: &'a Color,
    u: &'a u64,
    i: &'a i64,
    small: &'a u8,
    negative: &'a i8,
)
    ensures
        <ValueRef<'a, S, C> as FromSpec<&'a bool>>::from_spec(b) == ValueRef::<'a, S, C>::Owned(
            <Owned as FromSpec<bool>>::from_spec(*b),
        ),
        <ValueRef<'a, S, C> as FromSpec<&'a char>>::from_spec(c) == ValueRef::<'a, S, C>::Owned(
            <Owned as FromSpec<char>>::from_spec(*c),
        ),
        <ValueRef<'a, S, C> as FromSpec<&'a Color>>::from_spec(color) == ValueRef::<'a, S, C>::Owned(
            <Owned as FromSpec<Color>>::from_spec(*color),
        ),
        <ValueRef<'a, S, C> as FromSpec<&'a u64>>::from_spec(u) == ValueRef::<'a, S, C>::Owned(
            <Owned as FromSpec<u64>>::from_spec(*u),
        ),
        <ValueRef<'a, S, C> as FromSpec<&'a i64>>::from_spec(i) == ValueRef::<'a, S, C>::Owned(
            <Owned as FromSpec<i64>>::from_spec(*i),
        ),
        <ValueRef<'a, S, C> as FromSpec<&'a u8>>::from_spec(small) == ValueRef::<'a, S, C>::Owned(
            <Owned as FromSpec<u8>>::from_spec(*small),
        ),
        <ValueRef<'a, S, C> as FromSpec<&'a i8>>::from_spec(negative) == ValueRef::<'a, S, C>::Owned(
            <Owned as FromSpec<i8>>::from_spec(*negative),
        ),
{
}

/// A borrowed `bool` seen through a reference and read back is the `bool`
/// behind the borrow.
pub proof fn borrowed_round_trip_bool<'a, S: ?Sized, C: ?Sized>(x: &'a bool)
    ensures
        <bool as TryFromSpec<ValueRef<'a, S, C>>>::try_from_spec(<ValueRef<'a, S, C> as FromSpec<&'a bool>>::from_spec(x))
            == Ok::<bool, ()>(*x),
{
}

/// A borrowed `char` seen through a reference and read back is the `char`
/// behind the borrow.
pub proof fn borrowed_round_trip_char<'a, S: ?Sized, C: ?Sized>(x: &'a char)
    ensures
        <char as TryFromSpec<ValueRef<'a, S, C>>>::try_from_spec(<ValueRef<'a, S, C> as FromSpec<&'a char>>::from_spec(x))
            == Ok::<char, ()>(*x),
{
}

/// A borrowed `Color` seen through a reference and read back is the `Color`
/// behind the borrow.
pub proof fn borrowed_round_trip_color<'a, S: ?Sized, C: ?Sized>(x: &'a Color)
    ensures
        <Color as TryFromSpec<ValueRef<'a, S, C>>>::try_from_spec(<ValueRef<'a, S, C> as FromSpec<&'a Color>>::from_spec(x))
            == Ok::<Color, ()>(*x),
{
}

/// A borrowed `u8` seen through a reference and read back is the `u8`
/// behind the borrow.
pub proof fn borrowed_round_trip_u8<'a, S: ?Sized, C: ?Sized>(x: &'a u8)
    ensures
        <u8 as TryFromSpec<ValueRef<'a, S, C>>>::try_from_spec(<ValueRef<'a, S, C> as FromSpec<&'a u8>>::from_spec(x))
            == Ok::<u8, ()>(*x),
{
}

/// A borrowed `u16` seen through a reference and read back is the `u16`
/// behind the borrow.
pub proof fn borrowed_round_trip_u16<'a, S: ?Sized, C: ?Sized>(x: &'a u16)
    ensures
        <u16 as TryFromSpec<ValueRef<'a, S, C>>>::try_from_spec(<ValueRef<'a, S, C> as FromSpec<&'a u16>>::from_spec(x))
            == Ok::<u16, ()>(*x),
{
}

/// A borrowed `u32` seen through a reference and read back is the `u32`
/// behind the borrow.
pub proof fn borrowed_round_trip_u32<'a, S: ?Sized, C: ?Sized>(x: &'a u32)
    ensures
        <u32 as TryFromSpec<ValueRef<'a, S, C>>>::try_from_spec(<ValueRef<'a, S, C> as FromSpec<&'a u32>>::from_spec(x))
            == Ok::<u32, ()>(*x),
{
}

/// A borrowed `u64` seen through a reference and read back is the `u64`
/// behind the borrow.
pub proof fn borrowed_round_trip_u64<'a, S: ?Sized, C: ?Sized>(x: &'a u64)
    ensures
        <u64 as TryFromSpec<ValueRef<'a, S, C>>>::try_from_spec(<ValueRef<'a, S, C> as FromSpec<&'a u64>>::from_spec(x))
            == Ok::<u64, ()>(*x),
{
}

/// A borrowed `usize` seen through a reference and read back is the `usize`
/// behind the borrow.
pub proof fn borrowed_round_trip_usize<'a, S: ?Sized, C: ?Sized>(x: &'a usize)
    ensures
        <usize as TryFromSpec<ValueRef<'a, S, C>>>::try_from_spec(<ValueRef<'a, S, C> as FromSpec<&'a usize>>::from_spec(x))
            == Ok::<usize, ()>(*x),
{
}

/// A borrowed `i8` seen through a reference and read back is the `i8`
/// behind the borrow.
pub proof fn borrowed_round_trip_i8<'a, S: ?Sized, C: ?Sized>(x: &'a i8)
    ensures
        <i8 as TryFromSpec<ValueRef<'a, S, C>>>::try_from_spec(<ValueRef<'a, S, C> as FromSpec<&'a i8>>::from_spec(x))
            == Ok::<i8, ()>(*x),
{
}

/// A borrowed `i16` seen through a reference and read back is the `i16`
/// behind the borrow.
pub proof fn borrowed_round_trip_i16<'a, S: ?Sized, C: ?Sized>(x: &'a i16)
    ensures
        <i16 as TryFromSpec<ValueRef<'a, S, C>>>::try_from_spec(<ValueRef<'a, S, C> as FromSpec<&'a i16>>::from_spec(x))
            == Ok::<i16, ()>(*x),
{
}

/// A borrowed `i32` seen through a reference and read back is the `i32`
/// behind the borrow.
pub proof fn borrowed_round_trip_i32<'a, S: ?Sized, C: ?Sized>(x: &'a i32)
    ensures
        <i32 as TryFromSpec<ValueRef<'a, S, C>>>::try_from_spec(<ValueRef<'a, S, C> as FromSpec<&'a i32>>::from_spec(x))
            == Ok::<i32, ()>(*x),
{
}

/// A borrowed `i64` seen through a reference and read back is the `i64`
/// behind the borrow.
pub proof fn borrowed_round_trip_i64<'a, S: ?Sized, C: ?Sized>(x: &'a i64)
    ensures
        <i64 as TryFromSpec<ValueRef<'a, S, C>>>::try_from_spec(<ValueRef<'a, S, C> as FromSpec<&'a i64>>::from_spec(x))
            == Ok::<i64, ()>(*x),
{
}

/// A borrowed `isize` seen through a reference and read back is the `isize`
/// behind the borrow.
pub proof fn borrowed_round_trip_isize<'a, S: ?Sized, C: ?Sized>(x: &'a isize)
    ensures
        <isize as TryFromSpec<ValueRef<'a, S, C>>>::try_from_spec(<ValueRef<'a, S, C> as FromSpec<&'a isize>>::from_spec(x))
            == Ok::<isize, ()>(*x),
{
}

} // verus!
