//! The values that a generated form parser reads from the request's
//! parameters: integers and booleans as their `FromStr` reads them, dates and
//! times in the fixed formats, text as it is. Floating-point fields and fields
//! of other types are handed on as text for their own conversion.

use vstd::prelude::*;
use crate::codegen::{field_parse, field_parse_spec, invalid_message, invalid_message_spec, is_required, required_message,
    required_message_spec, FieldParse, ScalarType};
use crate::text::{decimal, decimal_digits, digit_char, remove_all, remove_all_spec, str_eq};
use crate::extract::{form_pairs, form_param, last_value, pair_views, parse_form_params};
use chrono::{Datelike, NaiveDate, NaiveDateTime, Timelike};

verus! {

/// The integer types a form field may have.
#[derive(PartialEq, Eq, Structural, Clone, Copy, Debug)]
pub enum IntType {
    I8,
    U8,
    I16,
    U16,
    I32,
    U32,
    I64,
    U64,
    I128,
    U128,
    Isize,
    Usize,
}

pub open spec fn is_signed(t: IntType) -> bool {
    t is I8 || t is I16 || t is I32 || t is I64 || t is I128 || t is Isize
}

/// The least value of an integer type.
pub open spec fn int_min(t: IntType) -> int {
    match t {
        IntType::I8 => i8::MIN as int,
        IntType::I16 => i16::MIN as int,
        IntType::I32 => i32::MIN as int,
        IntType::I64 => i64::MIN as int,
        IntType::I128 => i128::MIN as int,
        IntType::Isize => isize::MIN as int,
        _ => 0,
    }
}

/// The greatest value of an integer type.
pub open spec fn int_max(t: IntType) -> int {
    match t {
        IntType::I8 => i8::MAX as int,
        IntType::U8 => u8::MAX as int,
        IntType::I16 => i16::MAX as int,
        IntType::U16 => u16::MAX as int,
        IntType::I32 => i32::MAX as int,
        IntType::U32 => u32::MAX as int,
        IntType::I64 => i64::MAX as int,
        IntType::U64 => u64::MAX as int,
        IntType::I128 => i128::MAX as int,
        IntType::U128 => u128::MAX as int,
        IntType::Isize => isize::MAX as int,
        IntType::Usize => usize::MAX as int,
    }
}

pub open spec fn is_digit(c: char) -> bool {
    '0' <= c && c <= '9'
}

/// Whether the text is one or more decimal digits.
pub open spec fn all_digits(d: Seq<char>) -> bool {
    d.len() > 0 && forall|i: int| 0 <= i < d.len() ==> is_digit(#[trigger] d[i])
}

/// The value of a run of decimal digits.
pub open spec fn digits_value(d: Seq<char>) -> int
    decreases d.len(),
{
    if d.len() == 0 {
        0
    } else {
        digits_value(d.drop_last()) * 10 + (d.last() as int - '0' as int)
    }
}

/// Whether an integer text begins with a `-` that the type accepts.
pub open spec fn int_negative(s: Seq<char>, signed: bool) -> bool {
    s.len() > 0 && s[0] == '-' && signed
}

/// The digits of an integer text: the text without its accepted sign.
pub open spec fn int_digits(s: Seq<char>, signed: bool) -> Seq<char> {
    if s.len() > 0 && (s[0] == '+' || int_negative(s, signed)) {
        s.skip(1)
    } else {
        s
    }
}

/// What an integer's `FromStr` reads from a text, before its range is
/// checked: an optional `+` (or `-` for a signed type) and at least one
/// decimal digit, nothing else.
pub open spec fn int_text_value(s: Seq<char>, signed: bool) -> Option<int> {
    let digits = int_digits(s, signed);
    if all_digits(digits) {
        Some(if int_negative(s, signed) {
            -digits_value(digits)
        } else {
            digits_value(digits)
        })
    } else {
        None
    }
}

/// What `FromStr` of an integer type reads from a text: the value when the
/// text is an integer within the type's range.
pub open spec fn int_parse_spec(t: IntType, s: Seq<char>) -> Option<int> {
    match int_text_value(s, is_signed(t)) {
        Some(v) => if int_min(t) <= v <= int_max(t) {
            Some(v)
        } else {
            None
        },
        None => None,
    }
}

proof fn lemma_digits_prefix(d: Seq<char>, k: int)
    requires
        0 <= k <= d.len(),
        forall|i: int| 0 <= i < d.len() ==> is_digit(#[trigger] d[i]),
    ensures
        digits_value(d.take(k)) <= digits_value(d),
        0 <= digits_value(d.take(k)),
    decreases d.len() - k,
{
    if k < d.len() {
        lemma_digits_prefix(d, k + 1);
        assert(d.take(k + 1).drop_last() =~= d.take(k));
        assert(is_digit(d[k]));
    } else {
        assert(d.take(k) =~= d);
        lemma_digits_nonneg(d);
    }
}

proof fn lemma_digits_nonneg(d: Seq<char>)
    requires
        forall|i: int| 0 <= i < d.len() ==> is_digit(#[trigger] d[i]),
    ensures
        0 <= digits_value(d),
    decreases d.len(),
{
    if d.len() > 0 {
        assert forall|i: int| 0 <= i < d.drop_last().len() implies is_digit(#[trigger] d.drop_last()[i]) by {
            assert(d.drop_last()[i] == d[i]);
        }
        lemma_digits_nonneg(d.drop_last());
        assert(is_digit(d[d.len() - 1]));
    }
}

fn digit_value(c: char) -> (r: u128)
    requires
        is_digit(c),
    ensures
        r == c as int - '0' as int,
{
    (c as u32 - '0' as u32) as u128
}

/// What `FromStr` of the integer type `t` reads from `s`: the sign and the
/// magnitude of the value, or `None` when `s` is not an integer of that type.
pub fn parse_int(t: IntType, s: &str) -> (r: Option<(bool, u128)>)
    ensures
        match r {
            Some((negative, magnitude)) => int_parse_spec(t, s@) == Some(if negative {
                -(magnitude as int)
            } else {
                magnitude as int
            }),
            None => int_parse_spec(t, s@) is None,
        },
{
    let n = s.unicode_len();
    let signed = match t {
        IntType::I8 | IntType::I16 | IntType::I32 | IntType::I64 | IntType::I128 | IntType::Isize => true,
        _ => false,
    };
    assert(signed == is_signed(t));
    let negative = n > 0 && s.get_char(0) == '-' && signed;
    let start: usize = if n > 0 && (s.get_char(0) == '+' || negative) { 1 } else { 0 };
    let ghost digits = int_digits(s@, signed);
    assert(negative == int_negative(s@, signed));
    assert(digits =~= s@.skip(start as int));
    if start >= n {
        assert(digits.len() == 0);
        return None;
    }
    let mut magnitude: u128 = 0;
    let mut i = start;
    while i < n
        invariant
            n == s@.len(),
            start <= i <= n,
            start == 0 || start == 1,
            signed == is_signed(t),
            negative == int_negative(s@, signed),
            digits == int_digits(s@, signed),
            digits == s@.skip(start as int),
            forall|j: int| start <= j < i ==> is_digit(#[trigger] s@[j]),
            magnitude as int == digits_value(digits.take(i - start)),
        decreases n - i,
    {
        let c = s.get_char(i);
        if !('0' <= c && c <= '9') {
            assert(!is_digit(digits[i - start]));
            assert(!all_digits(digits));
            return None;
        }
        let d = digit_value(c);
        assert(digits.take(i + 1 - start).drop_last() =~= digits.take(i - start));
        assert(digits.take(i + 1 - start).last() == c);
        match magnitude.checked_mul(10) {
            Some(m) => match m.checked_add(d) {
                Some(v) => {
                    magnitude = v;
                },
                None => {
                    proof {
                        assert forall|j: int| 0 <= j < i + 1 - start implies is_digit(#[trigger] digits[j]) by {
                            assert(digits[j] == s@[j + start]);
                        }
                        lemma_overflow_rejected(t, s@, digits, i + 1 - start);
                    }
                    return None;
                },
            },
            None => {
                proof {
                    assert forall|j: int| 0 <= j < i + 1 - start implies is_digit(#[trigger] digits[j]) by {
                        assert(digits[j] == s@[j + start]);
                    }
                    lemma_overflow_rejected(t, s@, digits, i + 1 - start);
                }
                return None;
            },
        }
        i = i + 1;
    }
    assert(digits.take(n - start) =~= digits);
    assert(all_digits(digits)) by {
        assert forall|j: int| 0 <= j < digits.len() implies is_digit(#[trigger] digits[j]) by {
            assert(digits[j] == s@[j + start]);
        }
    }
    let ok = if negative {
        let limit: u128 = match t {
            IntType::I8 => 128,
            IntType::I16 => 32768,
            IntType::I32 => 2147483648,
            IntType::I64 => 9223372036854775808,
            IntType::I128 => 170141183460469231731687303715884105728,
            _ => (isize::MAX as u128) + 1,
        };
        magnitude <= limit
    } else {
        let limit: u128 = match t {
            IntType::I8 => i8::MAX as u128,
            IntType::U8 => u8::MAX as u128,
            IntType::I16 => i16::MAX as u128,
            IntType::U16 => u16::MAX as u128,
            IntType::I32 => i32::MAX as u128,
            IntType::U32 => u32::MAX as u128,
            IntType::I64 => i64::MAX as u128,
            IntType::U64 => u64::MAX as u128,
            IntType::I128 => i128::MAX as u128,
            IntType::U128 => u128::MAX,
            IntType::Isize => isize::MAX as u128,
            IntType::Usize => usize::MAX as u128,
        };
        magnitude <= limit
    };
    if ok {
        Some((negative, magnitude))
    } else {
        None
    }
}

/// A run of digits whose prefix already exceeds `u128::MAX` is no integer of
/// any type: either a later character is not a digit, or the value is too large.
proof fn lemma_overflow_rejected(t: IntType, s: Seq<char>, digits: Seq<char>, k: int)
    requires
        digits == int_digits(s, is_signed(t)),
        0 < k <= digits.len(),
        forall|j: int| 0 <= j < k ==> is_digit(#[trigger] digits[j]),
        digits_value(digits.take(k)) > u128::MAX,
    ensures
        int_parse_spec(t, s) is None,
{
    if all_digits(digits) {
        lemma_digits_prefix(digits, k);
        assert(int_max(t) <= u128::MAX);
        assert(int_min(t) >= i128::MIN);
    }
}

/// What `bool`'s `FromStr` reads: exactly `true` or `false`.
pub open spec fn bool_parse_spec(s: Seq<char>) -> Option<bool> {
    if s == "true"@ {
        Some(true)
    } else if s == "false"@ {
        Some(false)
    } else {
        None
    }
}

pub fn parse_bool(s: &str) -> (r: Option<bool>)
    ensures
        r == bool_parse_spec(s@),
{
    if str_eq(s, "true") {
        Some(true)
    } else if str_eq(s, "false") {
        Some(false)
    } else {
        None
    }
}

/// What `NaiveDateTime::parse_from_str(text, "%Y-%m-%d %H:%M:%S")` reads:
/// year, month, day, hour, minute and second, or `None` when it fails.
pub uninterp spec fn datetime_fields(text: Seq<char>) -> Option<(i32, u32, u32, u32, u32, u32)>;

/// What `NaiveDate::parse_from_str(text, "%Y-%m-%d")` reads: year, month and
/// day, or `None` when it fails.
pub uninterp spec fn date_fields(text: Seq<char>) -> Option<(i32, u32, u32)>;

/// `chrono::NaiveDateTime::parse_from_str` with `%Y-%m-%d %H:%M:%S`.
#[verifier::external_body]
fn parse_datetime(text: &str) -> (r: Option<(i32, u32, u32, u32, u32, u32)>)
    ensures
        r == datetime_fields(text@),
{
    match NaiveDateTime::parse_from_str(text, "%Y-%m-%d %H:%M:%S") {
        Ok(t) => Some((t.year(), t.month(), t.day(), t.hour(), t.minute(), t.second())),
        Err(_) => None,
    }
}

/// `chrono::NaiveDate::parse_from_str` with `%Y-%m-%d`.
#[verifier::external_body]
fn parse_date(text: &str) -> (r: Option<(i32, u32, u32)>)
    ensures
        r == date_fields(text@),
{
    match NaiveDate::parse_from_str(text, "%Y-%m-%d") {
        Ok(d) => Some((d.year(), d.month(), d.day())),
        Err(_) => None,
    }
}

/// The integer type a type name (without spaces) stands for.
pub open spec fn int_type_named(t: Seq<char>) -> Option<IntType> {
    if t == "i8"@ {
        Some(IntType::I8)
    } else if t == "u8"@ {
        Some(IntType::U8)
    } else if t == "i16"@ {
        Some(IntType::I16)
    } else if t == "u16"@ {
        Some(IntType::U16)
    } else if t == "i32"@ {
        Some(IntType::I32)
    } else if t == "u32"@ {
        Some(IntType::U32)
    } else if t == "i64"@ {
        Some(IntType::I64)
    } else if t == "u64"@ {
        Some(IntType::U64)
    } else if t == "i128"@ {
        Some(IntType::I128)
    } else if t == "u128"@ {
        Some(IntType::U128)
    } else if t == "isize"@ {
        Some(IntType::Isize)
    } else if t == "usize"@ {
        Some(IntType::Usize)
    } else {
        None
    }
}

fn int_type_of(t: &str) -> (r: Option<IntType>)
    ensures
        r == int_type_named(t@),
{
    if str_eq(t, "i8") {
        Some(IntType::I8)
    } else if str_eq(t, "u8") {
        Some(IntType::U8)
    } else if str_eq(t, "i16") {
        Some(IntType::I16)
    } else if str_eq(t, "u16") {
        Some(IntType::U16)
    } else if str_eq(t, "i32") {
        Some(IntType::I32)
    } else if str_eq(t, "u32") {
        Some(IntType::U32)
    } else if str_eq(t, "i64") {
        Some(IntType::I64)
    } else if str_eq(t, "u64") {
        Some(IntType::U64)
    } else if str_eq(t, "i128") {
        Some(IntType::I128)
    } else if str_eq(t, "u128") {
        Some(IntType::U128)
    } else if str_eq(t, "isize") {
        Some(IntType::Isize)
    } else if str_eq(t, "usize") {
        Some(IntType::Usize)
    } else {
        None
    }
}

/// The integer type of an optional scalar, if it is one.
pub open spec fn scalar_int_type(s: ScalarType) -> Option<IntType> {
    match s {
        ScalarType::I8 => Some(IntType::I8),
        ScalarType::U8 => Some(IntType::U8),
        ScalarType::I16 => Some(IntType::I16),
        ScalarType::U16 => Some(IntType::U16),
        ScalarType::I32 => Some(IntType::I32),
        ScalarType::U32 => Some(IntType::U32),
        ScalarType::I64 => Some(IntType::I64),
        ScalarType::U64 => Some(IntType::U64),
        ScalarType::I128 => Some(IntType::I128),
        ScalarType::U128 => Some(IntType::U128),
        ScalarType::Isize => Some(IntType::Isize),
        ScalarType::Usize => Some(IntType::Usize),
        _ => None,
    }
}

/// A value read from a form parameter.
pub enum FieldValue {
    /// An integer: its sign and magnitude.
    Integer(bool, u128),
    Bool(bool),
    /// A single character.
    Char(char),
    Text(String),
    /// Year, month, day, hour, minute, second.
    DateTime(i32, u32, u32, u32, u32, u32),
    /// Year, month, day.
    Date(i32, u32, u32),
    /// Text handed on for the field type's own conversion (floating-point and
    /// other types).
    Raw(String),
}

/// The abstract content of a field value.
pub ghost enum ValueModel {
    Integer(int),
    Bool(bool),
    Char(char),
    Text(Seq<char>),
    DateTime((i32, u32, u32, u32, u32, u32)),
    Date((i32, u32, u32)),
    Raw(Seq<char>),
}

pub open spec fn value_model(v: FieldValue) -> ValueModel {
    match v {
        FieldValue::Integer(negative, magnitude) => ValueModel::Integer(if negative {
            -(magnitude as int)
        } else {
            magnitude as int
        }),
        FieldValue::Bool(b) => ValueModel::Bool(b),
        FieldValue::Char(c) => ValueModel::Char(c),
        FieldValue::Text(t) => ValueModel::Text(t@),
        FieldValue::DateTime(y, mo, d, h, mi, s) => ValueModel::DateTime((y, mo, d, h, mi, s)),
        FieldValue::Date(y, mo, d) => ValueModel::Date((y, mo, d)),
        FieldValue::Raw(t) => ValueModel::Raw(t@),
    }
}

/// The value of an integer of type `t` read from `text`.
pub open spec fn int_conversion(t: IntType, text: Seq<char>) -> Option<ValueModel> {
    match int_parse_spec(t, text) {
        Some(v) => Some(ValueModel::Integer(v)),
        None => None,
    }
}

/// The value that a field of the type written `ty` (spaces removed) takes
/// from the parameter text, or `None` when the text does not convert.
pub open spec fn conversion(kind: FieldParse, ty: Seq<char>, text: Seq<char>) -> Option<ValueModel> {
    match kind {
        FieldParse::Optional(s) => match scalar_int_type(s) {
            Some(t) => int_conversion(t, text),
            None => match s {
                ScalarType::Bool => match bool_parse_spec(text) {
                    Some(b) => Some(ValueModel::Bool(b)),
                    None => None,
                },
                ScalarType::DateTime => match datetime_fields(text) {
                    Some(f) => Some(ValueModel::DateTime(f)),
                    None => None,
                },
                ScalarType::Date => match date_fields(text) {
                    Some(f) => Some(ValueModel::Date(f)),
                    None => None,
                },
                ScalarType::Text => Some(ValueModel::Text(text)),
                _ => Some(ValueModel::Raw(text)),
            },
        },
        FieldParse::RequiredDateTime => match datetime_fields(text) {
            Some(f) => Some(ValueModel::DateTime(f)),
            None => None,
        },
        FieldParse::RequiredDate => match date_fields(text) {
            Some(f) => Some(ValueModel::Date(f)),
            None => None,
        },
        FieldParse::RequiredString => Some(ValueModel::Text(text)),
        FieldParse::RequiredParsed => match int_type_named(ty) {
            Some(t) => int_conversion(t, text),
            None => if ty == "bool"@ {
                match bool_parse_spec(text) {
                    Some(b) => Some(ValueModel::Bool(b)),
                    None => None,
                }
            } else if ty == "char"@ {
                if text.len() == 1 {
                    Some(ValueModel::Char(text[0]))
                } else {
                    None
                }
            } else {
                Some(ValueModel::Raw(text))
            },
        },
        FieldParse::Unsupported => None,
    }
}

fn convert_int(t: IntType, text: &str) -> (r: Option<FieldValue>)
    ensures
        match r {
            Some(v) => int_conversion(t, text@) == Some(value_model(v)),
            None => int_conversion(t, text@) is None,
        },
{
    match parse_int(t, text) {
        Some((negative, magnitude)) => Some(FieldValue::Integer(negative, magnitude)),
        None => None,
    }
}

fn convert_bool(text: &str) -> (r: Option<FieldValue>)
    ensures
        match r {
            Some(v) => (match bool_parse_spec(text@) {
                Some(b) => Some(ValueModel::Bool(b)),
                None => None,
            }) == Some(value_model(v)),
            None => bool_parse_spec(text@) is None,
        },
{
    match parse_bool(text) {
        Some(b) => Some(FieldValue::Bool(b)),
        None => None,
    }
}

fn convert_datetime(text: &str) -> (r: Option<FieldValue>)
    ensures
        match r {
            Some(v) => (match datetime_fields(text@) {
                Some(f) => Some(ValueModel::DateTime(f)),
                None => None,
            }) == Some(value_model(v)),
            None => datetime_fields(text@) is None,
        },
{
    match parse_datetime(text) {
        Some((y, mo, d, h, mi, s)) => Some(FieldValue::DateTime(y, mo, d, h, mi, s)),
        None => None,
    }
}

fn convert_date(text: &str) -> (r: Option<FieldValue>)
    ensures
        match r {
            Some(v) => (match date_fields(text@) {
                Some(f) => Some(ValueModel::Date(f)),
                None => None,
            }) == Some(value_model(v)),
            None => date_fields(text@) is None,
        },
{
    match parse_date(text) {
        Some((y, mo, d)) => Some(FieldValue::Date(y, mo, d)),
        None => None,
    }
}

/// The value a field of kind `kind` and type `ty` (spaces removed) takes from
/// the parameter text.
fn convert(kind: FieldParse, ty: &str, text: &str) -> (r: Option<FieldValue>)
    requires
        !(kind is Unsupported),
    ensures
        match r {
            Some(v) => conversion(kind, ty@, text@) == Some(value_model(v)),
            None => conversion(kind, ty@, text@) is None,
        },
{
    match kind {
        FieldParse::Optional(s) => match s {
            ScalarType::I8 => convert_int(IntType::I8, text),
            ScalarType::U8 => convert_int(IntType::U8, text),
            ScalarType::I16 => convert_int(IntType::I16, text),
            ScalarType::U16 => convert_int(IntType::U16, text),
            ScalarType::I32 => convert_int(IntType::I32, text),
            ScalarType::U32 => convert_int(IntType::U32, text),
            ScalarType::I64 => convert_int(IntType::I64, text),
            ScalarType::U64 => convert_int(IntType::U64, text),
            ScalarType::I128 => convert_int(IntType::I128, text),
            ScalarType::U128 => convert_int(IntType::U128, text),
            ScalarType::Isize => convert_int(IntType::Isize, text),
            ScalarType::Usize => convert_int(IntType::Usize, text),
            ScalarType::Bool => convert_bool(text),
            ScalarType::DateTime => convert_datetime(text),
            ScalarType::Date => convert_date(text),
            ScalarType::Text => Some(FieldValue::Text(text.to_string())),
            _ => Some(FieldValue::Raw(text.to_string())),
        },
        FieldParse::RequiredDateTime => convert_datetime(text),
        FieldParse::RequiredDate => convert_date(text),
        FieldParse::RequiredString => Some(FieldValue::Text(text.to_string())),
        _ => match int_type_of(ty) {
            Some(t) => convert_int(t, text),
            None => if str_eq(ty, "bool") {
                convert_bool(text)
            } else if str_eq(ty, "char") {
                if text.unicode_len() == 1 {
                    Some(FieldValue::Char(text.get_char(0)))
                } else {
                    None
                }
            } else {
                Some(FieldValue::Raw(text.to_string()))
            },
        },
    }
}

/// What the form parser generated for a struct reads for the field `name` of
/// the type written `ty`, given the request's parameter (`None` when absent):
/// a required field must be present and convert, else the parse fails with
/// its message; an optional field is `None` when absent or when its value
/// does not convert. The generator emits nothing for an optional field of a
/// type it does not know, so such a field is left out.
pub fn field_value(ty: &str, name: &str, param: Option<&str>) -> (r: Result<Option<FieldValue>, String>)
    requires
        !(field_parse_spec(remove_all_spec(ty@, " "@)) is Unsupported),
    ensures
        ({
            let t = remove_all_spec(ty@, " "@);
            let kind = field_parse_spec(t);
            match param {
                None => if is_required(kind) {
                    r matches Err(e) && e@ == required_message_spec(name@)
                } else {
                    r matches Ok(None)
                },
                Some(p) => match conversion(kind, t, p@) {
                    Some(m) => r matches Ok(Some(v)) && value_model(v) == m,
                    None => if is_required(kind) {
                        r matches Err(e) && e@ == invalid_message_spec(name@)
                    } else {
                        r matches Ok(None)
                    },
                },
            }
        }),
{
    let kind = field_parse(ty);
    let t = remove_all(ty, " ");
    let required = match kind {
        FieldParse::RequiredDateTime | FieldParse::RequiredDate | FieldParse::RequiredString
        | FieldParse::RequiredParsed => true,
        _ => false,
    };
    match param {
        None => if required {
            Err(required_message(name))
        } else {
            Ok(None)
        },
        Some(p) => match convert(kind, t.as_str(), p) {
            Some(v) => Ok(Some(v)),
            None => if required {
                Err(invalid_message(name))
            } else {
                Ok(None)
            },
        },
    }
}


/// What the form parser reads for the field `name` of the type written `ty`
/// from the parameter `param`: the value (`None` for an optional field that
/// is absent or does not convert), or the message of a required field that
/// is absent or does not convert.
pub open spec fn field_outcome(ty: Seq<char>, name: Seq<char>, param: Option<Seq<char>>) -> Result<Option<ValueModel>, Seq<char>> {
    let t = remove_all_spec(ty, " "@);
    let kind = field_parse_spec(t);
    match param {
        None => if is_required(kind) {
            Err(required_message_spec(name))
        } else {
            Ok(None)
        },
        Some(p) => match conversion(kind, t, p) {
            Some(m) => Ok(Some(m)),
            None => if is_required(kind) {
                Err(invalid_message_spec(name))
            } else {
                Ok(None)
            },
        },
    }
}

/// A field of a struct that derives the form parser: its name and its type
/// as written.
pub struct FormField {
    pub name: String,
    pub ty: String,
}

/// The item a form parser is derived for.
pub enum FormItem {
    /// A struct with named fields.
    Named(Vec<FormField>),
    /// A tuple struct.
    Tuple,
    /// A unit struct.
    Unit,
    /// An enum.
    Enum,
}

/// The fields a form parser is generated for: those of a struct with named
/// fields. Nothing is generated for a tuple struct, a unit struct or an enum.
pub fn form_parser_fields(item: &FormItem) -> (r: Option<&Vec<FormField>>)
    ensures
        item matches FormItem::Named(fs) ==> r == Some(fs),
        !(item is Named) ==> r is None,
{
    match item {
        FormItem::Named(fs) => Some(fs),
        _ => None,
    }
}

/// The names and types of the fields.
pub open spec fn form_field_models(fs: Seq<FormField>) -> Seq<(Seq<char>, Seq<char>)> {
    fs.map_values(|f: FormField| (f.name@, f.ty@))
}

/// Whether the generator emits code for every field: none is an `Option` of
/// a type it does not know.
pub open spec fn fields_supported(fs: Seq<(Seq<char>, Seq<char>)>) -> bool {
    forall|i: int| 0 <= i < fs.len() ==> !(#[trigger] field_parse_spec(remove_all_spec(fs[i].1, " "@)) is Unsupported)
}

/// What the parser generated for a struct with fields `fs` makes of the
/// request's parameters: the fields are read in declaration order, each from
/// the parameter of its name (the last one when it repeats); the first field
/// that fails gives the error, and otherwise the struct is built from the
/// values read.
pub open spec fn form_outcome(fs: Seq<(Seq<char>, Seq<char>)>, params: Seq<(Seq<char>, Seq<char>)>) -> Result<Seq<Option<ValueModel>>, Seq<char>>
    decreases fs.len(),
{
    if fs.len() == 0 {
        Ok(Seq::empty())
    } else {
        match form_outcome(fs.drop_last(), params) {
            Err(e) => Err(e),
            Ok(vs) => match field_outcome(fs.last().1, fs.last().0, last_value(params, fs.last().0)) {
                Err(e) => Err(e),
                Ok(v) => Ok(vs.push(v)),
            },
        }
    }
}

/// The abstract content of an optional field value.
pub open spec fn opt_value_model(v: Option<FieldValue>) -> Option<ValueModel> {
    match v {
        Some(x) => Some(value_model(x)),
        None => None,
    }
}

/// The abstract content of the result of a form parse.
pub open spec fn form_result_model(r: Result<Vec<Option<FieldValue>>, String>) -> Result<Seq<Option<ValueModel>>, Seq<char>> {
    match r {
        Ok(vs) => Ok(vs@.map_values(|v: Option<FieldValue>| opt_value_model(v))),
        Err(e) => Err(e@),
    }
}

/// The values of the fields of a struct read from the decoded parameters
/// `params`, in declaration order; the message of the first field that fails.
pub fn parse_form_fields(fields: &Vec<FormField>, params: &Vec<(String, String)>) -> (r: Result<Vec<Option<FieldValue>>, String>)
    requires
        fields_supported(form_field_models(fields@)),
    ensures
        form_result_model(r) == form_outcome(form_field_models(fields@), pair_views(params@)),
{
    let ghost fs = form_field_models(fields@);
    let ghost ps = pair_views(params@);
    let mut values: Vec<Option<FieldValue>> = Vec::new();
    assert(fs.take(0) =~= Seq::<(Seq<char>, Seq<char>)>::empty());
    assert(values@.map_values(|v: Option<FieldValue>| opt_value_model(v)) =~= Seq::<Option<ValueModel>>::empty());
    let mut i: usize = 0;
    while i < fields.len()
        invariant
            fs == form_field_models(fields@),
            ps == pair_views(params@),
            fields_supported(fs),
            i <= fields@.len(),
            form_outcome(fs.take(i as int), ps) == Ok::<Seq<Option<ValueModel>>, Seq<char>>(
                values@.map_values(|v: Option<FieldValue>| opt_value_model(v))),
        decreases fields@.len() - i,
    {
        let ghost next = fs.take(i + 1);
        assert(next.drop_last() =~= fs.take(i as int));
        assert(next.last() == fs[i as int]);
        assert(fs[i as int] == (fields@[i as int].name@, fields@[i as int].ty@));
        assert(!(field_parse_spec(remove_all_spec(fs[i as int].1, " "@)) is Unsupported));
        let f = &fields[i];
        let param = match form_param(params, f.name.as_str()) {
            Some(p) => Some(p.as_str()),
            None => None,
        };
        let ghost pv: Option<Seq<char>> = match param {
            Some(p) => Some(p@),
            None => None,
        };
        assert(pv == last_value(ps, f.name@));
        let v = field_value(f.ty.as_str(), f.name.as_str(), param);
        match v {
            Err(e) => {
                assert(field_outcome(f.ty@, f.name@, pv) == Err::<Option<ValueModel>, Seq<char>>(e@));
                proof {
                    lemma_form_outcome_stays_failed(fs, ps, i as int + 1, e@);
                }
                return Err(e);
            },
            Ok(x) => {
                assert(field_outcome(f.ty@, f.name@, pv) == Ok::<Option<ValueModel>, Seq<char>>(opt_value_model(x)));
                let ghost old_values = values@;
                values.push(x);
                assert(values@.map_values(|v: Option<FieldValue>| opt_value_model(v)) =~= old_values.map_values(
                    |v: Option<FieldValue>| opt_value_model(v),
                ).push(opt_value_model(x)));
            },
        }
        i = i + 1;
    }
    assert(fs.take(i as int) =~= fs);
    Ok(values)
}

/// Once a prefix of the fields fails, every longer prefix fails with the
/// same message.
proof fn lemma_form_outcome_stays_failed(fs: Seq<(Seq<char>, Seq<char>)>, ps: Seq<(Seq<char>, Seq<char>)>, k: int, e: Seq<char>)
    requires
        0 <= k <= fs.len(),
        form_outcome(fs.take(k), ps) == Err::<Seq<Option<ValueModel>>, Seq<char>>(e),
    ensures
        form_outcome(fs, ps) == Err::<Seq<Option<ValueModel>>, Seq<char>>(e),
    decreases fs.len() - k,
{
    if k < fs.len() {
        let next = fs.take(k + 1);
        assert(next.drop_last() =~= fs.take(k));
        lemma_form_outcome_stays_failed(fs, ps, k + 1, e);
    } else {
        assert(fs.take(k) =~= fs);
    }
}

/// A form parses exactly when every field reads, and then the struct holds,
/// field by field in declaration order, the value each field reads from the
/// parameter of its name.
pub proof fn law_form_outcome_fields(fs: Seq<(Seq<char>, Seq<char>)>, ps: Seq<(Seq<char>, Seq<char>)>)
    ensures
        form_outcome(fs, ps) is Ok <==> (forall|i: int| 0 <= i < fs.len()
            ==> (#[trigger] field_outcome(fs[i].1, fs[i].0, last_value(ps, fs[i].0))) is Ok),
        form_outcome(fs, ps) matches Ok(vs) ==> vs.len() == fs.len() && (forall|i: int| 0 <= i < fs.len()
            ==> #[trigger] field_outcome(fs[i].1, fs[i].0, last_value(ps, fs[i].0)) == Ok::<Option<ValueModel>, Seq<char>>(vs[i])),
    decreases fs.len(),
{
    if fs.len() > 0 {
        let init = fs.drop_last();
        law_form_outcome_fields(init, ps);
        assert forall|i: int| 0 <= i < init.len() implies init[i] == fs[i] by {}
        let n = fs.len() - 1;
        assert(fs.last() == fs[n]);
        if form_outcome(fs, ps) is Ok {
            assert forall|i: int| 0 <= i < fs.len() implies (#[trigger] field_outcome(fs[i].1, fs[i].0, last_value(ps, fs[i].0))) is Ok by {
                if i < n {
                    assert(init[i] == fs[i]);
                }
            }
        }
        if forall|i: int| 0 <= i < fs.len() ==> (#[trigger] field_outcome(fs[i].1, fs[i].0, last_value(ps, fs[i].0))) is Ok {
            assert forall|i: int| 0 <= i < init.len() implies (#[trigger] field_outcome(init[i].1, init[i].0, last_value(ps, init[i].0))) is Ok by {
                assert(init[i] == fs[i]);
                assert(field_outcome(fs[i].1, fs[i].0, last_value(ps, fs[i].0)) is Ok);
            }
            assert(field_outcome(fs[n].1, fs[n].0, last_value(ps, fs[n].0)) is Ok);
        }
        if form_outcome(fs, ps) is Ok {
            let vs = form_outcome(fs, ps)->Ok_0;
            let ws = form_outcome(init, ps)->Ok_0;
            assert forall|i: int| 0 <= i < fs.len() implies #[trigger] field_outcome(fs[i].1, fs[i].0, last_value(ps, fs[i].0))
                == Ok::<Option<ValueModel>, Seq<char>>(vs[i]) by {
                if i < n {
                    assert(init[i] == fs[i]);
                    assert(field_outcome(init[i].1, init[i].0, last_value(ps, init[i].0)) == Ok::<Option<ValueModel>, Seq<char>>(ws[i]));
                    assert(vs[i] == ws[i]);
                }
            }
        }
    }
}

/// A type written `Option<String>` (spaces aside) is an optional text field.
pub proof fn lemma_option_string_is_optional_text(t: Seq<char>)
    requires
        t == "Option<String>"@,
    ensures
        field_parse_spec(t) == FieldParse::Optional(ScalarType::Text),
{
    reveal_strlit("Option<f32>");
    reveal_strlit("Option<f64>");
    reveal_strlit("Option<i8>");
    reveal_strlit("Option<u8>");
    reveal_strlit("Option<i16>");
    reveal_strlit("Option<u16>");
    reveal_strlit("Option<i32>");
    reveal_strlit("Option<u32>");
    reveal_strlit("Option<i64>");
    reveal_strlit("Option<u64>");
    reveal_strlit("Option<i128>");
    reveal_strlit("Option<u128>");
    reveal_strlit("Option<isize>");
    reveal_strlit("Option<usize>");
    reveal_strlit("Option<bool>");
    reveal_strlit("Option<NaiveDateTime>");
    reveal_strlit("Option<NaiveDate>");
    reveal_strlit("Option<String>");
    reveal_strlit("Option<");
    assert("Option<f32>"@.len() == 11);
    assert("Option<f64>"@.len() == 11);
    assert("Option<i8>"@.len() == 10);
    assert("Option<u8>"@.len() == 10);
    assert("Option<i16>"@.len() == 11);
    assert("Option<u16>"@.len() == 11);
    assert("Option<i32>"@.len() == 11);
    assert("Option<u32>"@.len() == 11);
    assert("Option<i64>"@.len() == 11);
    assert("Option<u64>"@.len() == 11);
    assert("Option<i128>"@.len() == 12);
    assert("Option<u128>"@.len() == 12);
    assert("Option<isize>"@.len() == 13);
    assert("Option<usize>"@.len() == 13);
    assert("Option<bool>"@.len() == 12);
    assert("Option<NaiveDateTime>"@.len() == 21);
    assert("Option<NaiveDate>"@.len() == 17);
    assert("Option<String>"@.len() == 14);
    assert("Option<"@.len() == 7);
    assert(t.subrange(0, 7) =~= "Option<"@);
}

/// An optional text field (`Option<String>`) reads the parameter's text as it
/// is when the form holds the parameter, and is `None` when it does not; it
/// never makes the parse fail.
pub proof fn law_optional_text_field_keeps_its_value(ty: Seq<char>, name: Seq<char>, p: Seq<char>)
    requires
        remove_all_spec(ty, " "@) == "Option<String>"@,
    ensures
        field_outcome(ty, name, Some(p)) == Ok::<Option<ValueModel>, Seq<char>>(Some(ValueModel::Text(p))),
        field_outcome(ty, name, None) == Ok::<Option<ValueModel>, Seq<char>>(None),
{
    lemma_option_string_is_optional_text(remove_all_spec(ty, " "@));
}

/// In a form that parses, every optional text field whose parameter the form
/// holds has that parameter's text (the last one when it repeats).
pub proof fn law_parsed_form_keeps_optional_text(fs: Seq<(Seq<char>, Seq<char>)>, ps: Seq<(Seq<char>, Seq<char>)>, i: int, p: Seq<char>)
    requires
        0 <= i < fs.len(),
        remove_all_spec(fs[i].1, " "@) == "Option<String>"@,
        last_value(ps, fs[i].0) == Some(p),
        form_outcome(fs, ps) is Ok,
    ensures
        form_outcome(fs, ps)->Ok_0[i] == Some(ValueModel::Text(p)),
{
    law_form_outcome_fields(fs, ps);
    law_optional_text_field_keeps_its_value(fs[i].1, fs[i].0, p);
    assert(field_outcome(fs[i].1, fs[i].0, last_value(ps, fs[i].0)) == Ok::<Option<ValueModel>, Seq<char>>(
        form_outcome(fs, ps)->Ok_0[i]));
}

/// The values of the fields of a struct read from a URL-encoded form body, as
/// the generated form parser reads them: the body is decoded with
/// `form_urlencoded`, then the fields are read in declaration order.
pub fn parse_form(fields: &Vec<FormField>, body: &[u8]) -> (r: Result<Vec<Option<FieldValue>>, String>)
    requires
        fields_supported(form_field_models(fields@)),
    ensures
        form_result_model(r) == form_outcome(form_field_models(fields@), form_pairs(body@)),
{
    let params = parse_form_params(body);
    parse_form_fields(fields, &params)
}

proof fn lemma_decimal_digits_read_back(n: nat)
    ensures
        all_digits(decimal_digits(n)),
        digits_value(decimal_digits(n)) == n,
    decreases n,
{
    if n < 10 {
        let s = decimal_digits(n);
        assert(s == seq![digit_char(n as int)]);
        assert(s.drop_last() =~= Seq::<char>::empty());
        assert(digits_value(s.drop_last()) == 0);
        assert(s.last() == digit_char(n as int));
        assert(digit_char(n as int) as int == '0' as int + n);
        assert(digits_value(s) == digits_value(s.drop_last()) * 10 + (s.last() as int - '0' as int));
    } else {
        lemma_decimal_digits_read_back(n / 10);
        let prefix = decimal_digits(n / 10);
        let s = decimal_digits(n);
        let d = (n % 10) as int;
        assert(s == prefix.push(digit_char(d)));
        assert(s.drop_last() =~= prefix);
        assert(s.last() == digit_char(d));
        assert(digit_char(d) as int == '0' as int + d);
        assert(digits_value(s) == digits_value(prefix) * 10 + d);
        assert((n / 10) * 10 + n % 10 == n);
        assert forall|i: int| 0 <= i < s.len() implies is_digit(#[trigger] s[i]) by {
            if i < prefix.len() {
                assert(s[i] == prefix[i]);
            }
        }
    }
}

/// Reading back the decimal text that the library writes for an integer
/// (`int_to_string`) gives the integer again.
pub proof fn law_decimal_text_reads_back(v: i64)
    ensures
        int_parse_spec(IntType::I64, decimal(v as int)) == Some(v as int),
{
    if v < 0 {
        let m = (-(v as int)) as nat;
        lemma_decimal_digits_read_back(m);
        let s = decimal(v as int);
        assert(s == seq!['-'] + decimal_digits(m));
        assert(s[0] == '-');
        assert(s.skip(1) =~= decimal_digits(m));
    } else {
        lemma_decimal_digits_read_back(v as nat);
        let s = decimal(v as int);
        assert(s == decimal_digits(v as nat));
        assert(is_digit(s[0]));
    }
}

} // verus!
