//! The value reference: what a reader sees of one value during one frame.
//!
//! A reference either owns a scalar or borrows from the template or from
//! the state, and the borrow ends with the frame.

use std::collections::HashMap;
use vstd::prelude::*;
use vstd::std_specs::convert::FromSpecImpl;
use vstd::string::{to_string_from_display_ensures, StringExecFns};
use crate::scalar::Owned;

verus! {

/// A compiled expression, named by its place in the template's expression
/// pool. The pool and the evaluation belong to the compiler.
#[derive(Clone, Copy, Debug, PartialEq, Eq, Structural)]
pub struct ValueExpr {
    pub id: usize,
}

/// What this library asks of state that answers lookups by position: how
/// many values it holds. An implementor gives `length` the number that
/// `len` returns.
pub trait Collection {
    /// The number of values held, as contracts speak of it.
    spec fn length(&self) -> usize;

    /// The number of values held.
    fn len(&self) -> (n: usize)
        ensures
            n == self.length(),
    ;
}

/// A borrowed run of compiled expressions.
#[derive(Clone, Copy, Debug)]
pub struct Expressions<'a>(pub &'a [ValueExpr]);

impl<'a> Expressions<'a> {
    pub fn new(inner: &'a [ValueExpr]) -> (r: Self)
        ensures
            r.0 == inner,
    {
        Self(inner)
    }

    /// The expression at `index`, or none past the end.
    pub fn get(&self, index: usize) -> (r: Option<&'a ValueExpr>)
        ensures
            index < self.0@.len() ==> r == Some(&self.0@[index as int]),
            index >= self.0@.len() ==> r is None,
    {
        if index < self.0.len() {
            Some(&self.0[index])
        } else {
            None
        }
    }
}

/// A borrowed table of compiled expressions by name.
#[derive(Clone, Copy, Debug)]
pub struct ExpressionMap<'a>(pub &'a HashMap<String, ValueExpr>);

impl<'a> ExpressionMap<'a> {
    pub fn new(inner: &'a HashMap<String, ValueExpr>) -> (r: Self)
        ensures
            r.0 == inner,
    {
        Self(inner)
    }
}

/// A value as one frame sees it. Exactly one of the kinds is present.
///
/// `S` is the kind of state that answers lookups by name, `C` the kind that
/// answers lookups by position. The reference borrows them and never looks
/// inside, so either may be a trait object.
pub enum ValueRef<'a, S: ?Sized, C: ?Sized> {
    /// A borrowed string.
    Str(&'a str),
    /// Borrowed state with lookups by name.
    StateMap(&'a S),
    /// Borrowed state with lookups by position.
    List(&'a C),
    /// Borrowed expressions that are not evaluated yet.
    Expressions(Expressions<'a>),
    /// Borrowed expressions by name.
    ExpressionMap(ExpressionMap<'a>),
    /// A scalar, free of any borrow.
    Owned(Owned),
    /// Evaluation was put off by the resolver. State never hands this out.
    Deferred,
    /// No value.
    Empty,
}

/// Compares two string slices with `str`'s own `==`: true exactly when
/// they hold the same characters.
#[verifier::external_body]
fn str_eq(a: &str, b: &str) -> (r: bool)
    ensures
        r == (a@ == b@),
{
    a == b
}

impl<'a, S: ?Sized, C: ?Sized> Clone for ValueRef<'a, S, C> {
    fn clone(&self) -> (r: Self)
        ensures
            r == *self,
    {
        *self
    }
}

impl<'a, S: ?Sized, C: ?Sized> Copy for ValueRef<'a, S, C> {

}

impl<'a, S: ?Sized, C: ?Sized> ValueRef<'a, S, C> {
    /// Whether the value counts as true: a string that is not empty, a true
    /// boolean, a signed or unsigned number above zero. Everything else,
    /// floats included, is false.
    pub open spec fn truthy(self) -> bool {
        match self {
            ValueRef::Str(s) => s@.len() > 0,
            ValueRef::Owned(o) => o.is_truthy(),
            _ => false,
        }
    }

    /// Equality of value references: two strings with the same characters,
    /// or two equal scalars. No other pair is equal, not even a reference
    /// and itself.
    pub open spec fn same(self, other: ValueRef<'a, S, C>) -> bool {
        match (self, other) {
            (ValueRef::Str(a), ValueRef::Str(b)) => a@ == b@,
            (ValueRef::Owned(a), ValueRef::Owned(b)) => a.same(b),
            _ => false,
        }
    }

    /// A reference to state that answers lookups by name.
    pub fn from_state(state: &'a S) -> (r: Self)
        ensures
            r == ValueRef::<'a, S, C>::StateMap(state),
    {
        ValueRef::StateMap(state)
    }

    /// A reference to state that answers lookups by position.
    pub fn from_list(list: &'a C) -> (r: Self)
        ensures
            r == ValueRef::<'a, S, C>::List(list),
    {
        ValueRef::List(list)
    }

    /// Tells whether the value counts as true.
    pub fn is_true(&self) -> (r: bool)
        ensures
            r == self.truthy(),
    {
        match self {
            ValueRef::Str(s) => !s.is_empty(),
            ValueRef::Owned(Owned::Bool(b)) => *b,
            ValueRef::Owned(Owned::Num(crate::scalar::Num::Unsigned(n))) => *n > 0,
            ValueRef::Owned(Owned::Num(crate::scalar::Num::Signed(n))) => *n > 0,
            _ => false,
        }
    }
}

/// The text that `{:?}` gives for a scalar: the names of its variants
/// around the payload, as the derived `Debug` writes them.
pub uninterp spec fn owned_debug_text(scalar: Owned) -> Seq<char>;

/// The text that `{:?}` gives for a run of expressions with these
/// elements.
pub uninterp spec fn expressions_debug_text(elements: Seq<ValueExpr>) -> Seq<char>;

/// Formats a scalar with `format!("{:?}", ..)`. The text depends on the
/// scalar alone; it is known here only by its name.
#[verifier::external_body]
fn owned_debug(scalar: &Owned) -> (r: String)
    ensures
        r@ == owned_debug_text(*scalar),
{
    format!("{:?}", scalar)
}

/// Formats a run of expressions with `format!("{:?}", ..)`. The text
/// depends on the elements alone; it is known here only by its name.
#[verifier::external_body]
fn expressions_debug(expressions: &Expressions<'_>) -> (r: String)
    ensures
        r@ == expressions_debug_text(expressions.0@),
{
    format!("{:?}", expressions)
}

/// Formats a table of expressions with `format!("{:?}", ..)`. The entries
/// come in the order in which the table is walked, which is not fixed, so
/// nothing is stated of the text.
#[verifier::external_body]
fn expression_map_debug(table: &ExpressionMap<'_>) -> (r: String) {
    format!("{:?}", table)
}

/// Whether `text` stands for a list of `len` values: the length in decimal
/// between `<dyn Collection(` and `)>`.
pub open spec fn is_list_text(text: Seq<char>, len: usize) -> bool {
    exists|digits: String| #[trigger]
        to_string_from_display_ensures::<usize>(&len, digits) && text == "<dyn Collection("@
            + digits@ + ")>"@
}

/// The text that stands for a list of `len` values.
pub fn list_text(len: usize) -> (r: String)
    ensures
        is_list_text(r@, len),
{
    let digits = len.to_string();
    let mut text = String::from_str("<dyn Collection(");
    text.append(digits.as_str());
    text.append(")>");
    text
}

impl<'a, S: ?Sized, C: Collection + ?Sized> ValueRef<'a, S, C> {
    /// A short text for the value, for logs and for failed assertions: the
    /// name of a marker, the characters of a string, a fixed text for state
    /// by name, the length for state by position, and the `Debug` form of
    /// expressions and scalars.
    pub fn debug_text(&self) -> (r: String)
        ensures
            *self is Empty ==> r@ == "Empty"@,
            *self is Deferred ==> r@ == "Deferred"@,
            *self matches ValueRef::Str(s) ==> r@ == s@,
            *self is StateMap ==> r@ == "<dyn Map>"@,
            *self matches ValueRef::List(list) ==> is_list_text(r@, list.length()),
            *self matches ValueRef::Owned(scalar) ==> r@ == owned_debug_text(scalar),
            *self matches ValueRef::Expressions(expressions) ==> r@ == expressions_debug_text(
                expressions.0@,
            ),
    {
        match self {
            ValueRef::Empty => "Empty".to_owned(),
            ValueRef::Deferred => "Deferred".to_owned(),
            ValueRef::Str(s) => (*s).to_owned(),
            ValueRef::List(list) => list_text(list.len()),
            ValueRef::StateMap(_) => "<dyn Map>".to_owned(),
            ValueRef::Expressions(expressions) => expressions_debug(expressions),
            ValueRef::ExpressionMap(table) => expression_map_debug(table),
            ValueRef::Owned(scalar) => owned_debug(scalar),
        }
    }
}

impl<'a, S: ?Sized, C: ?Sized> Default for ValueRef<'a, S, C> {
    fn default() -> (r: Self)
        ensures
            r is Empty,
    {
        ValueRef::Empty
    }
}

impl<'a, S: ?Sized, C: ?Sized> PartialEq for ValueRef<'a, S, C> {
    fn eq(&self, other: &Self) -> (r: bool) {
        match (*self, *other) {
            (ValueRef::Str(lhs), ValueRef::Str(rhs)) => str_eq(lhs, rhs),
            (ValueRef::Owned(lhs), ValueRef::Owned(rhs)) => lhs == rhs,
            _ => false,
        }
    }
}

impl<'a, S: ?Sized, C: ?Sized> vstd::std_specs::cmp::PartialEqSpecImpl for ValueRef<'a, S, C> {
    open spec fn obeys_eq_spec() -> bool {
        true
    }

    open spec fn eq_spec(&self, other: &Self) -> bool {
        self.same(*other)
    }
}

impl<'a, S: ?Sized, C: ?Sized> From<&'a str> for ValueRef<'a, S, C> {
    fn from(s: &'a str) -> (r: Self) {
        ValueRef::Str(s)
    }
}

impl<'a, S: ?Sized, C: ?Sized> FromSpecImpl<&'a str> for ValueRef<'a, S, C> {
    open spec fn obeys_from_spec() -> bool {
        true
    }

    open spec fn from_spec(s: &'a str) -> Self {
        ValueRef::Str(s)
    }
}

impl<'a, S: ?Sized, C: ?Sized> From<&'a String> for ValueRef<'a, S, C> {
    /// A borrowed `String` is seen as the string slice it holds.
    fn from(s: &'a String) -> (r: Self)
        ensures
            r matches ValueRef::Str(t) && t@ == s@,
    {
        ValueRef::Str(s.as_str())
    }
}

impl<'a, S: ?Sized, C: ?Sized> FromSpecImpl<&'a String> for ValueRef<'a, S, C> {
    /// Which slice comes out is known by its characters only, so the
    /// result is stated on `from` itself.
    open spec fn obeys_from_spec() -> bool {
        false
    }

    open spec fn from_spec(s: &'a String) -> Self {
        ValueRef::Str(choose|t: &'a str| t@ == s@)
    }
}

impl<'a, S: ?Sized, C: ?Sized> From<Owned> for ValueRef<'a, S, C> {
    fn from(o: Owned) -> (r: Self) {
        ValueRef::Owned(o)
    }
}

impl<'a, S: ?Sized, C: ?Sized> FromSpecImpl<Owned> for ValueRef<'a, S, C> {
    open spec fn obeys_from_spec() -> bool {
        true
    }

    open spec fn from_spec(o: Owned) -> Self {
        ValueRef::Owned(o)
    }
}

} // verus!
