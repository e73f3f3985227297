use anathema_frame::scalar::float_bits_eq;
use anathema_frame::{Color, ExpressionMap, Expressions, Num, Owned, ValueExpr, ValueRef};
use std::collections::HashMap;

type Value<'a> = ValueRef<'a, (), ()>;

fn float(x: f64) -> Owned {
    Owned::Num(Num::from_float_bits(x.to_bits()))
}

#[test]
fn truth_table() {
    assert!(!Value::Str("").is_true());
    assert!(Value::Str("x").is_true());
    assert!(Value::Owned(Owned::Bool(true)).is_true());
    assert!(!Value::Owned(Owned::Bool(false)).is_true());
    assert!(!Value::Owned(Owned::Num(Num::Signed(-1))).is_true());
    assert!(!Value::Owned(Owned::Num(Num::Signed(0))).is_true());
    assert!(Value::Owned(Owned::Num(Num::Signed(1))).is_true());
    assert!(Value::Owned(Owned::Num(Num::Unsigned(1))).is_true());
    assert!(!Value::Owned(Owned::Num(Num::Unsigned(0))).is_true());
    assert!(Value::Owned(Owned::Num(Num::Unsigned(u64::MAX))).is_true());
    assert!(!Value::Owned(float(2.0)).is_true());
    assert!(!Value::Owned(Owned::Char('a')).is_true());
    assert!(!Value::Owned(Owned::Color(Color::Red)).is_true());
    assert!(!Value::Empty.is_true());
    assert!(!Value::Deferred.is_true());
    assert!(!Value::StateMap(&()).is_true());
    assert!(!Value::List(&()).is_true());
    let exprs = [ValueExpr { id: 1 }];
    assert!(!Value::Expressions(Expressions::new(&exprs)).is_true());
    let table: HashMap<String, ValueExpr> = HashMap::new();
    assert!(!Value::ExpressionMap(ExpressionMap::new(&table)).is_true());
}

#[test]
fn references_to_state() {
    let unit = ();
    assert!(matches!(Value::from_state(&unit), ValueRef::StateMap(_)));
    assert!(matches!(Value::from_list(&unit), ValueRef::List(_)));
    assert!(!Value::from_state(&unit).is_true());
}

#[test]
fn default_is_empty() {
    assert!(matches!(Value::default(), ValueRef::Empty));
}

#[test]
fn equality_of_strings_and_scalars() {
    let owned = String::from("abc");
    assert!(Value::Str("abc") == Value::Str(owned.as_str()));
    assert!(Value::Str("abc") != Value::Str("abd"));
    assert!(Value::Str("") != Value::Str("a"));
    assert!(Value::Owned(Owned::Bool(true)) == Value::Owned(Owned::Bool(true)));
    assert!(Value::Owned(Owned::Bool(true)) != Value::Owned(Owned::Bool(false)));
    assert!(Value::Owned(Owned::Char('x')) == Value::Owned(Owned::Char('x')));
    assert!(Value::Owned(Owned::Color(Color::Rgb { r: 1, g: 2, b: 3 }))
        == Value::Owned(Owned::Color(Color::Rgb { r: 1, g: 2, b: 3 })));
    assert!(Value::Owned(Owned::Color(Color::AnsiValue(1)))
        != Value::Owned(Owned::Color(Color::AnsiValue(2))));
    assert!(Value::Owned(Owned::Num(Num::Signed(1))) != Value::Owned(Owned::Num(Num::Unsigned(1))));
    assert!(Value::Owned(Owned::Num(Num::Signed(-3))) == Value::Owned(Owned::Num(Num::Signed(-3))));
    assert!(Value::Str("1") != Value::Owned(Owned::Num(Num::Unsigned(1))));
}

#[test]
fn other_kinds_are_never_equal() {
    let unit = ();
    assert!(Value::Empty != Value::Empty);
    assert!(Value::Deferred != Value::Deferred);
    assert!(Value::StateMap(&unit) != Value::StateMap(&unit));
    assert!(Value::List(&unit) != Value::List(&unit));
    let exprs = [ValueExpr { id: 1 }];
    assert!(Value::Expressions(Expressions::new(&exprs)) != Value::Expressions(Expressions::new(&exprs)));
}

#[test]
fn float_equality_follows_the_encoding() {
    assert!(float_bits_eq(1.5f64.to_bits(), 1.5f64.to_bits()));
    assert!(!float_bits_eq(1.5f64.to_bits(), 2.5f64.to_bits()));
    assert!(float_bits_eq(0.0f64.to_bits(), (-0.0f64).to_bits()));
    assert!(!float_bits_eq(f64::NAN.to_bits(), f64::NAN.to_bits()));
    assert!(float_bits_eq(f64::INFINITY.to_bits(), f64::INFINITY.to_bits()));
    assert!(!float_bits_eq(f64::INFINITY.to_bits(), f64::NEG_INFINITY.to_bits()));
    assert!(float(2.0) == float(2.0));
    assert!(float(f64::NAN) != float(f64::NAN));
    assert!(Value::Owned(float(0.0)) == Value::Owned(float(-0.0)));
}

#[test]
fn expressions_get() {
    let exprs = [ValueExpr { id: 7 }, ValueExpr { id: 9 }];
    let e = Expressions::new(&exprs);
    assert_eq!(e.get(0), Some(&ValueExpr { id: 7 }));
    assert_eq!(e.get(1), Some(&ValueExpr { id: 9 }));
    assert_eq!(e.get(2), None);
    let mut table: HashMap<String, ValueExpr> = HashMap::new();
    table.insert(String::from("a"), ValueExpr { id: 3 });
    let m = ExpressionMap::new(&table);
    assert_eq!(m.0.get("a"), Some(&ValueExpr { id: 3 }));
}

#[test]
fn into_value_ref() {
    let text = String::from("hi");
    let from_string: Value = (&text).into();
    assert!(from_string == Value::Str("hi"));
    let from_str: Value = "hi".into();
    assert!(from_str == Value::Str("hi"));
    let from_owned: Value = Owned::from(3u8).into();
    assert!(from_owned == Value::Owned(Owned::Num(Num::Unsigned(3))));
}

#[test]
fn scalars_from_host_types() {
    assert!(Owned::from(true) == Owned::Bool(true));
    assert!(Owned::from('c') == Owned::Char('c'));
    assert!(Owned::from(Color::Blue) == Owned::Color(Color::Blue));
    assert!(Owned::from(5u16) == Owned::Num(Num::Unsigned(5)));
    assert!(Owned::from(-5i8) == Owned::Num(Num::Signed(-5)));
    assert!(Owned::from(usize::MAX) == Owned::Num(Num::Unsigned(usize::MAX as u64)));
    assert!(Owned::from(i64::MIN) == Owned::Num(Num::Signed(i64::MIN)));
    assert!(Num::from(7u32) == Num::Unsigned(7));
    assert!(Owned::from(Num::Signed(2)) == Owned::Num(Num::Signed(2)));
}

#[test]
fn unsigned_from_signed_and_not_from_string() {
    assert_eq!(u64::try_from(Value::Owned(Owned::Num(Num::Signed(5)))), Ok(5));
    assert_eq!(usize::try_from(Value::Owned(Owned::Num(Num::Signed(5)))), Ok(5));
    assert_eq!(u64::try_from(Value::Str("5")), Err(()));
    assert_eq!(u8::try_from(Value::Str("5")), Err(()));
}

#[test]
fn signed_from_unsigned() {
    assert_eq!(i64::try_from(Value::Owned(Owned::Num(Num::Unsigned(5)))), Ok(5));
    assert_eq!(i8::try_from(Value::Owned(Owned::Num(Num::Unsigned(127)))), Ok(127));
    assert_eq!(isize::try_from(Value::Owned(Owned::Num(Num::Signed(-9)))), Ok(-9));
}

#[test]
fn narrowing_keeps_low_bits() {
    assert_eq!(u8::try_from(Value::Owned(Owned::Num(Num::Signed(-1)))), Ok(255));
    assert_eq!(u8::try_from(Value::Owned(Owned::Num(Num::Unsigned(257)))), Ok(1));
    assert_eq!(u16::try_from(Value::Owned(Owned::Num(Num::Signed(65536 + 2)))), Ok(2));
    assert_eq!(u32::try_from(Value::Owned(Owned::Num(Num::Signed(-2)))), Ok(u32::MAX - 1));
    assert_eq!(u64::try_from(Value::Owned(Owned::Num(Num::Signed(-1)))), Ok(u64::MAX));
    assert_eq!(i64::try_from(Value::Owned(Owned::Num(Num::Unsigned(u64::MAX)))), Ok(-1));
    assert_eq!(i8::try_from(Value::Owned(Owned::Num(Num::Unsigned(128)))), Ok(-128));
    assert_eq!(i16::try_from(Value::Owned(Owned::Num(Num::Signed(32768)))), Ok(-32768));
    assert_eq!(i32::try_from(Value::Owned(Owned::Num(Num::Unsigned(1 << 32)))), Ok(0));
}

#[test]
fn exact_kinds_only() {
    assert_eq!(bool::try_from(Value::Owned(Owned::Bool(true))), Ok(true));
    assert_eq!(bool::try_from(Value::Owned(Owned::Num(Num::Unsigned(1)))), Err(()));
    assert_eq!(char::try_from(Value::Owned(Owned::Char('z'))), Ok('z'));
    assert_eq!(char::try_from(Value::Str("z")), Err(()));
    assert_eq!(Color::try_from(Value::Owned(Owned::Color(Color::Green))), Ok(Color::Green));
    assert_eq!(Color::try_from(Value::Empty), Err(()));
    assert_eq!(u32::try_from(Value::Owned(Owned::Bool(true))), Err(()));
    assert_eq!(i32::try_from(Value::Owned(float(1.0))), Err(()));
    assert_eq!(u64::try_from(Value::Deferred), Err(()));
    assert_eq!(i64::try_from(Value::Empty), Err(()));
}

#[test]
fn floats_only_from_floats() {
    assert_eq!(Value::Owned(float(2.5)).float_bits().map(f64::from_bits), Ok(2.5));
    assert_eq!(Value::Owned(Owned::Num(Num::Signed(2))).float_bits(), Err(()));
    assert_eq!(Value::Owned(Owned::Num(Num::Unsigned(2))).float_bits(), Err(()));
    assert_eq!(Value::Str("2.5").float_bits(), Err(()));
}

#[test]
fn strings_only_from_strings() {
    assert_eq!(String::try_from(Value::Str("abc")), Ok(String::from("abc")));
    assert_eq!(String::try_from(Value::Str("")), Ok(String::new()));
    assert_eq!(String::try_from(Value::Owned(Owned::Char('a'))), Err(()));
    assert_eq!(<&str>::try_from(Value::Str("abc")), Ok("abc"));
    assert_eq!(<&str>::try_from(Value::Empty), Err(()));
}

#[test]
fn round_trips() {
    assert_eq!(bool::try_from(Value::Owned(Owned::from(false))), Ok(false));
    assert_eq!(char::try_from(Value::Owned(Owned::from('q'))), Ok('q'));
    assert_eq!(Color::try_from(Value::Owned(Owned::from(Color::DarkGrey))), Ok(Color::DarkGrey));
    assert_eq!(u8::try_from(Value::Owned(Owned::from(200u8))), Ok(200));
    assert_eq!(u16::try_from(Value::Owned(Owned::from(u16::MAX))), Ok(u16::MAX));
    assert_eq!(u32::try_from(Value::Owned(Owned::from(u32::MAX))), Ok(u32::MAX));
    assert_eq!(u64::try_from(Value::Owned(Owned::from(u64::MAX))), Ok(u64::MAX));
    assert_eq!(usize::try_from(Value::Owned(Owned::from(usize::MAX))), Ok(usize::MAX));
    assert_eq!(i8::try_from(Value::Owned(Owned::from(i8::MIN))), Ok(i8::MIN));
    assert_eq!(i16::try_from(Value::Owned(Owned::from(-300i16))), Ok(-300));
    assert_eq!(i32::try_from(Value::Owned(Owned::from(i32::MIN))), Ok(i32::MIN));
    assert_eq!(i64::try_from(Value::Owned(Owned::from(i64::MIN))), Ok(i64::MIN));
    assert_eq!(isize::try_from(Value::Owned(Owned::from(isize::MIN))), Ok(isize::MIN));
    let through: Value = "text".into();
    assert_eq!(<&str>::try_from(through), Ok("text"));
}

struct Three;

impl anathema_frame::Collection for Three {
    fn length(&self) -> usize {
        3
    }

    fn len(&self) -> usize {
        3
    }
}

#[test]
fn debug_text_of_each_kind() {
    type Shown<'a> = ValueRef<'a, (), Three>;
    assert_eq!(Shown::Empty.debug_text(), "Empty");
    assert_eq!(Shown::Deferred.debug_text(), "Deferred");
    assert_eq!(Shown::Str("some text").debug_text(), "some text");
    assert_eq!(Shown::StateMap(&()).debug_text(), "<dyn Map>");
    assert_eq!(Shown::List(&Three).debug_text(), "<dyn Collection(3)>");
    assert_eq!(Shown::Owned(Owned::Bool(true)).debug_text(), "Bool(true)");
    assert_eq!(Shown::Owned(Owned::Num(Num::Signed(-4))).debug_text(), "Num(Signed(-4))");
    let exprs = [ValueExpr { id: 1 }];
    assert_eq!(
        Shown::Expressions(Expressions::new(&exprs)).debug_text(),
        "Expressions([ValueExpr { id: 1 }])"
    );
    let table: HashMap<String, ValueExpr> = HashMap::new();
    assert_eq!(Shown::ExpressionMap(ExpressionMap::new(&table)).debug_text(), "ExpressionMap({})");
}

#[test]
fn list_text_holds_the_length() {
    assert_eq!(anathema_frame::value::list_text(0), "<dyn Collection(0)>");
    assert_eq!(anathema_frame::value::list_text(1234), "<dyn Collection(1234)>");
}

#[test]
fn borrowed_host_values_in_one_step() {
    let flag = true;
    let letter = 'k';
    let tint = Color::Cyan;
    let small = 7u8;
    let wide = u64::MAX;
    let negative = -7i16;
    let size = 9usize;
    assert!(Value::from(&flag) == Value::Owned(Owned::Bool(true)));
    assert!(Value::from(&letter) == Value::Owned(Owned::Char('k')));
    assert!(Value::from(&tint) == Value::Owned(Owned::Color(Color::Cyan)));
    assert!(Value::from(&small) == Value::Owned(Owned::Num(Num::Unsigned(7))));
    assert!(Value::from(&wide) == Value::Owned(Owned::Num(Num::Unsigned(u64::MAX))));
    assert!(Value::from(&negative) == Value::Owned(Owned::Num(Num::Signed(-7))));
    assert!(Value::from(&size) == Value::Owned(Owned::Num(Num::Unsigned(9))));
    let number = Num::Signed(3);
    let scalar = Owned::Char('s');
    assert!(Value::from(&number) == Value::Owned(Owned::Num(Num::Signed(3))));
    assert!(Value::from(&scalar) == Value::Owned(Owned::Char('s')));
    assert_eq!(i16::try_from(Value::from(&negative)), Ok(-7));
    assert_eq!(u8::try_from(Value::from(&small)), Ok(7));
    assert_eq!(bool::try_from(Value::from(&flag)), Ok(true));
}

#[test]
fn debug_text_of_scalars() {
    type Shown<'a> = ValueRef<'a, (), Three>;
    assert_eq!(Shown::Owned(Owned::Char('x')).debug_text(), "Char('x')");
    assert_eq!(Shown::Owned(Owned::Color(Color::Red)).debug_text(), "Color(Red)");
    assert_eq!(Shown::Owned(Owned::Num(Num::Unsigned(8))).debug_text(), "Num(Unsigned(8))");
    let two = [ValueExpr { id: 1 }, ValueExpr { id: 2 }];
    assert_eq!(
        Shown::Expressions(Expressions::new(&two)).debug_text(),
        "Expressions([ValueExpr { id: 1 }, ValueExpr { id: 2 }])"
    );
}
