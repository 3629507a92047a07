use rust_shop::form_values::{parse_form, parse_form_fields};
use rust_shop::form_values::{field_value, parse_bool, parse_int, FieldValue, IntType};
use rust_shop::text::int_to_string;

#[test]
fn integers_as_from_str_reads_them() {
    assert_eq!(parse_int(IntType::I8, "-128"), Some((true, 128)));
    assert_eq!(parse_int(IntType::I8, "128"), None);
    assert_eq!(parse_int(IntType::U8, "+255"), Some((false, 255)));
    assert_eq!(parse_int(IntType::U8, "-1"), None);
    assert_eq!(parse_int(IntType::U8, "-0"), None);
    assert_eq!(parse_int(IntType::I32, "-0"), Some((true, 0)));
    assert_eq!(parse_int(IntType::I32, "+"), None);
    assert_eq!(parse_int(IntType::I32, ""), None);
    assert_eq!(parse_int(IntType::I32, " 5"), None);
    assert_eq!(parse_int(IntType::I32, "1_000"), None);
    assert_eq!(parse_int(IntType::U128, "340282366920938463463374607431768211455"), Some((false, u128::MAX)));
    assert_eq!(parse_int(IntType::U128, "340282366920938463463374607431768211456"), None);
    assert_eq!(parse_int(IntType::I128, "-170141183460469231731687303715884105728"), Some((true, 1u128 << 127)));
    assert_eq!(parse_int(IntType::I64, "99999999999999999999999999999999999999999x"), None);
}

#[test]
fn agrees_with_std_parsing() {
    for text in ["0", "-7", "+42", "2147483647", "2147483648", "-2147483648", "-2147483649", "abc", "4-2", "007"] {
        let ours = parse_int(IntType::I32, text).map(|(neg, mag)| if neg { -(mag as i128) } else { mag as i128 });
        let std_value = text.parse::<i32>().ok().map(|v| v as i128);
        assert_eq!(ours, std_value, "text {}", text);
        let ours_u = parse_int(IntType::U16, text).map(|(neg, mag)| if neg { -(mag as i128) } else { mag as i128 });
        let std_u = text.parse::<u16>().ok().map(|v| v as i128);
        assert_eq!(ours_u, std_u, "text {}", text);
    }
}

#[test]
fn decimal_text_reads_back() {
    for v in [0i64, -1, 9, 10, -12345, i64::MAX, i64::MIN] {
        let text = int_to_string(v);
        let (neg, mag) = parse_int(IntType::I64, &text).unwrap();
        let back = if neg { -(mag as i128) } else { mag as i128 };
        assert_eq!(back, v as i128);
    }
}

#[test]
fn booleans() {
    assert_eq!(parse_bool("true"), Some(true));
    assert_eq!(parse_bool("false"), Some(false));
    assert_eq!(parse_bool("True"), None);
}

#[test]
fn required_fields() {
    match field_value("u32", "age", Some("41")) {
        Ok(Some(FieldValue::Integer(false, 41))) => {}
        _ => panic!("an integer field reads its value"),
    }
    match field_value("u32", "age", Some("x")) {
        Err(e) => assert_eq!(e, "field \"age\" value is invalid."),
        Ok(_) => panic!("x is no integer"),
    }
    match field_value("u32", "age", None) {
        Err(e) => assert_eq!(e, "field \"age\" required, but not set yet."),
        Ok(_) => panic!("the field is required"),
    }
    match field_value("String", "name", Some("bob")) {
        Ok(Some(FieldValue::Text(t))) => assert_eq!(t, "bob"),
        _ => panic!("text is taken as it is"),
    }
    match field_value("f64", "price", Some("1.5")) {
        Ok(Some(FieldValue::Raw(t))) => assert_eq!(t, "1.5"),
        _ => panic!("floating-point text is handed on"),
    }
}

#[test]
fn date_and_time_fields() {
    match field_value("NaiveDateTime", "at", Some("2023-05-06 07:08:09")) {
        Ok(Some(FieldValue::DateTime(2023, 5, 6, 7, 8, 9))) => {}
        _ => panic!("a date and time in the fixed format"),
    }
    match field_value("NaiveDate", "on", Some("2023-02-30")) {
        Err(e) => assert_eq!(e, "field \"on\" value is invalid."),
        Ok(_) => panic!("no such day"),
    }
    match field_value("Option<NaiveDate>", "on", Some("2024-02-29")) {
        Ok(Some(FieldValue::Date(2024, 2, 29))) => {}
        _ => panic!("a leap day"),
    }
}

#[test]
fn optional_fields() {
    assert!(matches!(field_value("Option<i64>", "n", None), Ok(None)));
    assert!(matches!(field_value("Option<i64>", "n", Some("x")), Ok(None)));
    assert!(matches!(field_value("Option < i64 >", "n", Some("-3")), Ok(Some(FieldValue::Integer(true, 3)))));
    assert!(matches!(field_value("Option<bool>", "b", Some("false")), Ok(Some(FieldValue::Bool(false)))));
}

fn ff(name: &str, ty: &str) -> rust_shop::form_values::FormField {
    rust_shop::form_values::FormField { name: name.to_string(), ty: ty.to_string() }
}

#[test]
fn whole_form_first_failing_field_gives_the_error() {
    let fields = vec![ff("n", "i32"), ff("s", "String")];
    assert_eq!(parse_form(&fields, b"s=x").err().unwrap(), "field \"n\" required, but not set yet.");
    assert_eq!(parse_form(&fields, b"n=abc").err().unwrap(), "field \"n\" value is invalid.");
    assert_eq!(parse_form(&fields, b"n=5").err().unwrap(), "field \"s\" required, but not set yet.");
    let values = parse_form(&fields, b"n=1&n=-7&s=hello%20world").ok().unwrap();
    assert_eq!(values.len(), 2);
    assert!(matches!(values[0], Some(FieldValue::Integer(true, 7))));
    assert!(matches!(&values[1], Some(FieldValue::Text(t)) if t == "hello world"));
}

#[test]
fn whole_form_optional_fields() {
    let fields = vec![ff("a", "Option<u8>"), ff("b", "Option<bool>")];
    let params = vec![("a".to_string(), "300".to_string())];
    let values = parse_form_fields(&fields, &params).ok().unwrap();
    assert!(values[0].is_none());
    assert!(values[1].is_none());
}

#[test]
fn char_fields_and_derive_shapes() {
    assert!(matches!(field_value("char", "c", Some("x")), Ok(Some(FieldValue::Char('x')))));
    assert_eq!(field_value("char", "c", Some("xy")).err().unwrap(), "field \"c\" value is invalid.");
    use_form_items();
}

fn use_form_items() {
    use_shapes(rust_shop::form_values::FormItem::Named(vec![]), true);
    use_shapes(rust_shop::form_values::FormItem::Tuple, false);
    use_shapes(rust_shop::form_values::FormItem::Unit, false);
    use_shapes(rust_shop::form_values::FormItem::Enum, false);
}

fn use_shapes(item: rust_shop::form_values::FormItem, named: bool) {
    assert_eq!(rust_shop::form_values::form_parser_fields(&item).is_some(), named);
}
