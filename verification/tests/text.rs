use nix_bindings::error::{
    check_err, NIX_ERR_KEY, NIX_ERR_NIX_ERROR, NIX_ERR_OVERFLOW, NIX_ERR_UNKNOWN, NIX_OK,
};
use nix_bindings::native::read_message;
use nix_bindings::render::{frame, show_plain, show_text, Style};
use nix_bindings::text::{decimal_i64, decimal_u64, quote, to_c_string, NulError};
use nix_bindings::{Error, Handle, ValueType};

#[test]
fn decimal_renders_signed_numbers() {
    assert_eq!(decimal_i64(0), "0");
    assert_eq!(decimal_i64(9), "9");
    assert_eq!(decimal_i64(10), "10");
    assert_eq!(decimal_i64(42), "42");
    assert_eq!(decimal_i64(-7), "-7");
    assert_eq!(decimal_i64(1234567890), "1234567890");
    assert_eq!(decimal_i64(i64::MIN), "-9223372036854775808");
    assert_eq!(decimal_i64(i64::MAX), "9223372036854775807");
    assert_eq!(decimal_u64(u64::MAX), "18446744073709551615");
    for n in [-1000i64, -1, 0, 1, 99, 100, 101, 65535] {
        assert_eq!(decimal_i64(n), n.to_string());
    }
}

#[test]
fn quote_escapes_inner_quotes() {
    assert_eq!(quote("hello"), "\"hello\"");
    assert_eq!(quote("say \"hello\""), "\"say \\\"hello\\\"\"");
    assert_eq!(quote(""), "\"\"");
    assert_eq!(quote("\""), "\"\\\"\"");
    assert_eq!(quote("a\\b"), "\"a\\b\"");
    assert_eq!(quote("héllo"), "\"héllo\"");
}

#[test]
fn c_string_rejects_embedded_nul() {
    assert_eq!(to_c_string("abc").unwrap(), vec![97u8, 98, 99]);
    assert_eq!(to_c_string("").unwrap(), Vec::<u8>::new());
    assert_eq!(to_c_string("é").unwrap(), vec![0xc3, 0xa9]);
    let e = to_c_string("ab\0c\0").unwrap_err();
    assert_eq!(e.position, 2);
    assert_eq!(e.bytes, vec![97u8, 98, 0, 99, 0]);
    assert_eq!(to_c_string("\0").unwrap_err().position, 0);
}

#[test]
fn handles_are_never_null() {
    assert_eq!(Handle::new(0), None);
    let h = Handle::new(0xdead_beef).unwrap();
    assert_eq!(h.addr(), 0xdead_beef);
    assert_eq!(Handle::new(1).unwrap().addr(), 1);
    assert_eq!(Handle::new(usize::MAX).unwrap().addr(), usize::MAX);
}

#[test]
fn error_codes_are_translated() {
    let text = |s: &str| Some(s.to_string());
    assert_eq!(check_err(NIX_OK, None), Ok(()));
    assert_eq!(check_err(NIX_OK, text("stale")), Ok(()));
    assert_eq!(check_err(NIX_ERR_UNKNOWN, None), Err(Error::Unknown("Unknown error".to_string())));
    assert_eq!(check_err(NIX_ERR_UNKNOWN, text("boom")), Err(Error::Unknown("boom".to_string())));
    assert_eq!(check_err(NIX_ERR_OVERFLOW, None), Err(Error::Overflow));
    assert_eq!(check_err(NIX_ERR_OVERFLOW, text("too big")), Err(Error::Overflow));
    assert_eq!(check_err(NIX_ERR_KEY, None), Err(Error::KeyNotFound("Key not found".to_string())));
    assert_eq!(check_err(NIX_ERR_KEY, text("foo")), Err(Error::KeyNotFound("foo".to_string())));
    assert_eq!(
        check_err(NIX_ERR_NIX_ERROR, None),
        Err(Error::EvalError("Evaluation error".to_string()))
    );
    assert_eq!(
        check_err(NIX_ERR_NIX_ERROR, text("error: undefined variable 'x'")),
        Err(Error::EvalError("error: undefined variable 'x'".to_string()))
    );
    assert_eq!(check_err(-5, None), Err(Error::Unknown("Error code: -5".to_string())));
    assert_eq!(check_err(17, None), Err(Error::Unknown("Error code: 17".to_string())));
    assert_eq!(
        check_err(i32::MIN, None),
        Err(Error::Unknown("Error code: -2147483648".to_string()))
    );
    assert_eq!(check_err(-5, text("recoverable")), Err(Error::Unknown("recoverable".to_string())));
    assert_eq!([NIX_OK, NIX_ERR_UNKNOWN, NIX_ERR_OVERFLOW, NIX_ERR_KEY, NIX_ERR_NIX_ERROR], [
        0, -1, -2, -3, -4
    ]);
}

#[test]
fn messages_are_read_strictly() {
    assert_eq!(read_message(None), None);
    assert_eq!(read_message(Some(b"error: boom".to_vec())), Some("error: boom".to_string()));
    assert_eq!(read_message(Some("héllo".as_bytes().to_vec())), Some("héllo".to_string()));
    assert_eq!(read_message(Some(vec![b'a', 0xff])), None);
    assert_eq!(read_message(Some(Vec::new())), Some(String::new()));
}

#[test]
fn errors_have_their_lines() {
    assert_eq!(Error::Unknown("what".to_string()).message(), "Unknown error: what");
    assert_eq!(Error::Overflow.message(), "Overflow error");
    assert_eq!(Error::KeyNotFound("foo".to_string()).message(), "Key not found: foo");
    assert_eq!(Error::EvalError("bad".to_string()).message(), "Evaluation error: bad");
    assert_eq!(
        Error::InvalidType { expected: "int", actual: "string".to_string() }.message(),
        "Invalid type: expected int, got string"
    );
    assert_eq!(Error::NullPointer.message(), "Null pointer error");
    assert_eq!(
        Error::StringConversion(NulError { position: 12, bytes: Vec::new() }).message(),
        "String conversion error: nul byte found in provided data at position: 12"
    );
}

#[test]
fn type_tags_have_their_types_and_names() {
    let all = [
        (0u32, ValueType::Thunk, "thunk"),
        (1, ValueType::Int, "int"),
        (2, ValueType::Float, "float"),
        (3, ValueType::Bool, "bool"),
        (4, ValueType::String, "string"),
        (5, ValueType::Path, "path"),
        (6, ValueType::Null, "null"),
        (7, ValueType::Attrs, "attrs"),
        (8, ValueType::List, "list"),
        (9, ValueType::Function, "function"),
        (10, ValueType::External, "external"),
    ];
    for (tag, t, name) in all {
        assert_eq!(ValueType::from_c(tag), t);
        assert_eq!(t.name(), name);
    }
    // a tag that stands for no type reads as a thunk
    assert_eq!(ValueType::from_c(11), ValueType::Thunk);
    assert_eq!(ValueType::from_c(u32::MAX), ValueType::Thunk);
}

#[test]
fn placeholders_stand_for_what_is_not_read() {
    let plain = [
        (ValueType::Null, "null", "Value::Null"),
        (ValueType::Attrs, "{ <attrs> }", "Value::Attrs({ <attrs> })"),
        (ValueType::List, "[ <list> ]", "Value::List([ <list> ])"),
        (ValueType::Function, "<function>", "Value::Function(<function>)"),
        (ValueType::Path, "<path>", "Value::Path(<path>)"),
        (ValueType::Thunk, "<thunk>", "Value::Thunk(<thunk>)"),
        (ValueType::External, "<external>", "Value::External(<external>)"),
    ];
    for (t, shown, logged) in plain {
        assert_eq!(show_plain(Style::Nix, t), shown);
        assert_eq!(show_plain(Style::Display, t), shown);
        assert_eq!(show_plain(Style::Debug, t), logged);
    }
}

#[test]
fn texts_are_shown_by_style() {
    assert_eq!(show_text(Style::Nix, "say \"hi\"".to_string()), "\"say \\\"hi\\\"\"");
    assert_eq!(show_text(Style::Display, "say \"hi\"".to_string()), "say \"hi\"");
    assert_eq!(
        show_text(Style::Debug, "say \"hi\"\n".to_string()),
        "Value::String(\"say \\\"hi\\\"\\n\")"
    );
    assert_eq!(frame(Style::Debug, ValueType::Int, "42"), "Value::Int(42)");
    assert_eq!(frame(Style::Debug, ValueType::Float, "1.5"), "Value::Float(1.5)");
    assert_eq!(frame(Style::Nix, ValueType::Bool, "true"), "true");
    assert_eq!(frame(Style::Display, ValueType::Bool, "false"), "false");
}
