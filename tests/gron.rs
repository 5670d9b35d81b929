use serde_gron::{
    is_ident, to_colored_string, to_string, to_string_with, write_key_object, write_path,
    ColorFormatter, Error, FormatType, NamespaceKey, Number, RegularFormatter, Serializer, Value,
};

fn integer(n: i64) -> Value {
    Value::Number(Number::Int(n))
}

fn obj(entries: Vec<(&str, Value)>) -> Value {
    Value::Object(entries.into_iter().map(|(k, v)| (k.to_string(), v)).collect())
}

#[test]
fn test_null() {
    assert_eq!(to_string(&Value::Null).unwrap(), "json = null;\n");
}

#[test]
fn test_string() {
    assert_eq!(
        to_string(&Value::String("abc".to_string())).unwrap(),
        "json = \"abc\";\n"
    );
}

#[test]
fn test_number() {
    assert_eq!(to_string(&integer(1)).unwrap(), "json = 1;\n");
    assert_eq!(to_string(&integer(-1)).unwrap(), "json = -1;\n");
}

#[test]
fn test_array() {
    assert_eq!(to_string(&Value::Array(vec![])).unwrap(), "json = [];\n");

    assert_eq!(
        to_string(&Value::Array(vec![integer(1), integer(2), integer(3)])).unwrap(),
        "json = [];
json[0] = 1;
json[1] = 2;
json[2] = 3;
"
    );

    assert_eq!(
        to_string(&Value::Array(vec![
            integer(1),
            Value::Array(vec![integer(2), integer(3)]),
            integer(4)
        ]))
        .unwrap(),
        "json = [];
json[0] = 1;
json[1] = [];
json[1][0] = 2;
json[1][1] = 3;
json[2] = 4;
"
    );
}

#[test]
fn test_object() {
    assert_eq!(to_string(&obj(vec![])).unwrap(), "json = {};\n");
    assert_eq!(
        to_string(&obj(vec![("a", integer(1)), ("b", integer(2)), ("c", integer(3))])).unwrap(),
        "json = {};
json.a = 1;
json.b = 2;
json.c = 3;
"
    );

    assert_eq!(
        to_string(&obj(vec![
            ("a", integer(1)),
            ("b", obj(vec![("c", integer(2)), ("d", integer(3))])),
            ("e", integer(4))
        ]))
        .unwrap(),
        "json = {};
json.a = 1;
json.b = {};
json.b.c = 2;
json.b.d = 3;
json.e = 4;
"
    );

    assert_eq!(
        to_string(&obj(vec![("a-b-c", integer(1))])).unwrap(),
        "json = {};
json[\"a-b-c\"] = 1;
"
    );
}

#[test]
fn scalars_are_one_line() {
    assert_eq!(to_string(&Value::Bool(true)).unwrap(), "json = true;\n");
    assert_eq!(to_string(&Value::Bool(false)).unwrap(), "json = false;\n");
    assert_eq!(
        to_string(&Value::Number(Number::UInt(18446744073709551615))).unwrap(),
        "json = 18446744073709551615;\n"
    );
    assert_eq!(
        to_string(&Value::Number(Number::Int(-9223372036854775808))).unwrap(),
        "json = -9223372036854775808;\n"
    );
    assert_eq!(to_string(&integer(0)).unwrap(), "json = 0;\n");
    assert_eq!(to_string(&integer(10)).unwrap(), "json = 10;\n");
    let half = 1.5f64;
    assert_eq!(
        to_string(&Value::Number(Number::Float(half.to_string()))).unwrap(),
        "json = 1.5;\n"
    );
}

#[test]
fn strings_pass_through_verbatim() {
    assert_eq!(
        to_string(&Value::String("a\"b\\c".to_string())).unwrap(),
        "json = \"a\"b\\c\";\n"
    );
    assert_eq!(
        to_string(&Value::String(String::new())).unwrap(),
        "json = \"\";\n"
    );
}

#[test]
fn array_lines_follow_index_order() {
    let items: Vec<Value> = (0..12).map(integer).collect();
    let out = to_string(&Value::Array(items)).unwrap();
    let lines: Vec<&str> = out.lines().collect();
    assert_eq!(lines.len(), 13);
    assert_eq!(lines[0], "json = [];");
    assert_eq!(lines[11], "json[10] = 10;");
    assert_eq!(lines[12], "json[11] = 11;");
}

#[test]
fn object_keeps_insertion_order_and_repeats() {
    let out = to_string(&obj(vec![
        ("z", integer(1)),
        ("a", Value::Null),
        ("z", Value::Bool(true)),
    ]))
    .unwrap();
    assert_eq!(out, "json = {};\njson.z = 1;\njson.a = null;\njson.z = true;\n");
}

#[test]
fn key_quoting_boundary() {
    let out = to_string(&obj(vec![
        ("a_1", integer(1)),
        ("1a", integer(2)),
        ("", integer(3)),
        ("_a", integer(4)),
        ("é", integer(5)),
        ("Ab9", integer(6)),
    ]))
    .unwrap();
    assert_eq!(
        out,
        "json = {};\njson.a_1 = 1;\njson[\"1a\"] = 2;\njson[\"\"] = 3;\njson[\"_a\"] = 4;\njson[\"é\"] = 5;\njson.Ab9 = 6;\n"
    );
    assert!(is_ident("abc_D9"));
    assert!(!is_ident("a-b"));
    assert!(!is_ident(""));
    assert!(!is_ident("9"));
}

#[test]
fn key_object_rendering() {
    let mut s = String::from("x");
    write_key_object(&mut s, "ok");
    write_key_object(&mut s, "not ok");
    assert_eq!(s, "x.ok[\"not ok\"]");
}

#[test]
fn path_rendering_is_repeatable() {
    let segs = vec![
        NamespaceKey::Object("a".to_string()),
        NamespaceKey::Array(3),
        NamespaceKey::Object("b-c".to_string()),
    ];
    let mut first = String::new();
    write_path(&mut first, "root", &segs);
    let mut second = String::new();
    write_path(&mut second, "root", &segs);
    assert_eq!(first, "root.a[3][\"b-c\"]");
    assert_eq!(first, second);
}

#[test]
fn custom_root_name() {
    let out = to_string_with(
        &Value::Array(vec![obj(vec![("k", Value::Null)])]),
        "data",
        FormatType::Regular,
    )
    .unwrap();
    assert_eq!(out, "data = [];\ndata[0] = {};\ndata[0].k = null;\n");
}

#[test]
fn reuse_is_refused() {
    let mut ser = Serializer::new();
    assert!(ser.serialize(&integer(7)).is_ok());
    assert!(matches!(ser.serialize(&integer(8)), Err(Error::Eof)));
    assert_eq!(ser.into_output(), "json = 7;\n");

    let mut ser = Serializer::new_with_root_name("r");
    assert!(ser.serialize(&Value::Array(vec![integer(1)])).is_ok());
    assert!(matches!(ser.serialize(&Value::Null), Err(Error::Eof)));
    assert_eq!(ser.into_output(), "r = [];\nr[0] = 1;\n");
}

#[test]
fn colored_output() {
    let out = to_colored_string(&Value::Array(vec![Value::String("s".to_string())])).unwrap();
    assert_eq!(
        out,
        "\x1b[34mjson\x1b[0m = \x1b[32m[]\x1b[0m;\n\x1b[34mjson[0]\x1b[0m = \x1b[32m\"s\"\x1b[0m;\n"
    );
}

#[test]
fn formatters_write_statements() {
    let mut s = String::new();
    RegularFormatter.write_statement(&mut s, "j", &[NamespaceKey::Array(2)], &Value::Bool(false));
    assert_eq!(s, "j[2] = false;\n");
    let mut c = String::new();
    ColorFormatter.write_statement(&mut c, "j", &[], &Value::Null);
    assert_eq!(c, "\x1b[34mj\x1b[0m = \x1b[32mnull\x1b[0m;\n");
}

#[test]
fn custom_error_keeps_message() {
    assert!(matches!(Error::custom("m".to_string()), Error::Custom(m) if m == "m"));
}
