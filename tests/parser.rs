use firebolt_client::convert::{BigInteger, DecimalNumber, DoubleText, FloatText};
use firebolt_client::json::{parse_json, JsonValue};
use firebolt_client::parser::{
    decode_document, parse_columns, parse_data, parse_response, parse_server_error, parse_type,
};
use firebolt_client::{Column, ColumnRef, FireboltError, Row, Type};

fn column(name: &str, column_type: Type) -> Column {
    Column {
        name: name.to_string(),
        column_type,
        precision: None,
        scale: None,
        is_nullable: false,
    }
}

fn value(text: &str) -> JsonValue {
    parse_json(text).unwrap()
}

#[test]
fn test_parse_type_basic_types() {
    assert_eq!(parse_type("int").unwrap(), (Type::Int, false, None, None));
    assert_eq!(parse_type("bigint").unwrap(), (Type::Long, false, None, None));
    assert_eq!(parse_type("long").unwrap(), (Type::Long, false, None, None));
    assert_eq!(parse_type("float").unwrap(), (Type::Float, false, None, None));
    assert_eq!(parse_type("float4").unwrap(), (Type::Float, false, None, None));
    assert_eq!(parse_type("double").unwrap(), (Type::Double, false, None, None));
    assert_eq!(parse_type("float8").unwrap(), (Type::Double, false, None, None));
    assert_eq!(parse_type("text").unwrap(), (Type::Text, false, None, None));
    assert_eq!(parse_type("string").unwrap(), (Type::Text, false, None, None));
    assert_eq!(parse_type("date").unwrap(), (Type::Date, false, None, None));
    assert_eq!(parse_type("timestamp").unwrap(), (Type::Timestamp, false, None, None));
    assert_eq!(parse_type("timestamptz").unwrap(), (Type::TimestampTZ, false, None, None));
    assert_eq!(parse_type("bool").unwrap(), (Type::Boolean, false, None, None));
    assert_eq!(parse_type("boolean").unwrap(), (Type::Boolean, false, None, None));
    assert_eq!(parse_type("bytea").unwrap(), (Type::Bytes, false, None, None));
    assert_eq!(parse_type("geography").unwrap(), (Type::Geography, false, None, None));
    assert_eq!(parse_type("array(int)").unwrap(), (Type::Array, false, None, None));
}

#[test]
fn test_parse_type_nullable() {
    assert_eq!(parse_type("null::int").unwrap(), (Type::Int, true, None, None));
    assert_eq!(parse_type("null::text").unwrap(), (Type::Text, true, None, None));
    assert_eq!(parse_type("null::array(int)").unwrap(), (Type::Array, true, None, None));
}

#[test]
fn test_parse_type_decimal_with_precision_scale() {
    assert_eq!(
        parse_type("decimal(38, 30)").unwrap(),
        (Type::Decimal, false, Some(38), Some(30))
    );
    assert_eq!(
        parse_type("null::decimal(10, 2)").unwrap(),
        (Type::Decimal, true, Some(10), Some(2))
    );
}

#[test]
fn test_parse_type_unsupported() {
    assert!(parse_type("unsupported_type").is_err());
}

#[test]
fn parse_type_unsupported_is_a_query_error_naming_the_type() {
    match parse_type("null::unsupported_type") {
        Err(FireboltError::Query(m)) => assert_eq!(m, "Unsupported type: unsupported_type"),
        other => panic!("unexpected {other:?}"),
    }
}

#[test]
fn parse_type_prefix_keeps_base_type() {
    for s in ["int", "decimal(5,1)", "struct(a int)", "array(text)", "geography", "bool"] {
        let (t, nullable, p, sc) = parse_type(s).unwrap();
        assert!(!nullable);
        assert_eq!(parse_type(&format!("null::{s}")).unwrap(), (t, true, p, sc));
    }
}

#[test]
fn parse_type_decimal_forms() {
    assert_eq!(parse_type("decimal(7,3)").unwrap(), (Type::Decimal, false, Some(7), Some(3)));
    assert_eq!(parse_type("decimal").unwrap(), (Type::Decimal, false, None, None));
    assert_eq!(
        parse_type("array(decimal(4, 1))").unwrap(),
        (Type::Array, false, None, None)
    );
    assert_eq!(
        parse_type("struct(a decimal(10, 2))").unwrap(),
        (Type::Struct, false, None, None)
    );
    assert!(matches!(parse_type("xdecimal(1,2)"), Err(FireboltError::Query(_))));
    assert!(matches!(parse_type("decimal(1,2)x"), Err(FireboltError::Query(_))));
    assert_eq!(parse_type("decimal(3,\t 1)").unwrap(), (Type::Decimal, false, Some(3), Some(1)));
    assert!(matches!(
        parse_type("decimal(99999999999, 1)"),
        Err(FireboltError::Query(_))
    ));
    assert_eq!(
        parse_type("decimal(2147483647, 0)").unwrap(),
        (Type::Decimal, false, Some(2147483647), Some(0))
    );
    assert!(parse_type("decimal(, 1)").is_err());
    assert!(parse_type("").is_err());
    assert!(parse_type("INT").is_err());
}

#[test]
fn parse_type_struct_prefix() {
    assert_eq!(parse_type("struct(a int)").unwrap(), (Type::Struct, false, None, None));
    assert_eq!(parse_type("structure").unwrap(), (Type::Struct, false, None, None));
}

#[test]
fn test_parse_columns() {
    let json = value(
        r#"{
            "meta": [
                {"name": "id", "type": "int"},
                {"name": "name", "type": "text"},
                {"name": "price", "type": "decimal(10, 2)"},
                {"name": "nullable_field", "type": "null::text"}
            ]
        }"#,
    );

    let columns = parse_columns(&json).unwrap();
    assert_eq!(columns.len(), 4);

    assert_eq!(columns[0].name, "id");
    assert_eq!(columns[0].column_type, Type::Int);
    assert!(!columns[0].is_nullable);

    assert_eq!(columns[1].name, "name");
    assert_eq!(columns[1].column_type, Type::Text);
    assert!(!columns[1].is_nullable);

    assert_eq!(columns[2].name, "price");
    assert_eq!(columns[2].column_type, Type::Decimal);
    assert_eq!(columns[2].precision, Some(10));
    assert_eq!(columns[2].scale, Some(2));
    assert!(!columns[2].is_nullable);

    assert_eq!(columns[3].name, "nullable_field");
    assert_eq!(columns[3].column_type, Type::Text);
    assert!(columns[3].is_nullable);
}

#[test]
fn parse_columns_errors() {
    assert!(matches!(parse_columns(&value(r#"{"meta": 3}"#)), Err(FireboltError::Query(_))));
    assert!(matches!(
        parse_columns(&value(r#"{"meta": [{"type": "int"}]}"#)),
        Err(FireboltError::Query(_))
    ));
    assert!(matches!(
        parse_columns(&value(r#"{"meta": [{"name": "a"}]}"#)),
        Err(FireboltError::Query(_))
    ));
    assert!(matches!(
        parse_columns(&value(r#"{"meta": [{"name": "a", "type": "blob"}]}"#)),
        Err(FireboltError::Query(_))
    ));
    assert_eq!(parse_columns(&value(r#"{"meta": []}"#)).unwrap().len(), 0);
}

#[test]
fn test_parse_data() {
    let columns = vec![column("id", Type::Int), column("name", Type::Text)];

    let json = value(r#"{"data": [[1, "test"], [2, "example"]]}"#);

    let rows = parse_data(&json, &columns).unwrap();
    assert_eq!(rows.len(), 2);
}

#[test]
fn parse_data_row_not_array() {
    let columns = vec![column("id", Type::Int)];
    let json = value(r#"{"data": [[1], 2]}"#);
    assert!(matches!(parse_data(&json, &columns), Err(FireboltError::Query(_))));
    let json = value(r#"{"rows": []}"#);
    assert!(matches!(parse_data(&json, &columns), Err(FireboltError::Query(_))));
}

#[test]
fn test_parse_response_success() {
    let json_response = r#"{
        "meta": [
            {"name": "id", "type": "int"},
            {"name": "name", "type": "text"}
        ],
        "data": [
            [1, "test"],
            [2, "example"]
        ],
        "rows": 2,
        "statistics": {"elapsed": 0.006947, "rows_read": 2, "bytes_read": 10}
    }"#;

    let result = parse_response(json_response.to_string());
    assert!(result.is_ok());

    let result_set = result.unwrap();
    assert_eq!(result_set.columns.len(), 2);
    assert_eq!(result_set.rows.len(), 2);
    assert_eq!(result_set.columns[0].name, "id");
    assert_eq!(result_set.columns[0].column_type, Type::Int);
    assert_eq!(result_set.columns[1].name, "name");
    assert_eq!(result_set.columns[1].column_type, Type::Text);
}

#[test]
fn parse_response_round_trip_values() {
    let body = r#"{"meta": [{"name":"id","type":"int"},{"name":"name","type":"text"}],
                   "data": [[1,"test"],[2,"example"]]}"#;
    let rs = parse_response(body.to_string()).unwrap();
    assert_eq!(rs.columns.len(), 2);
    assert_eq!(rs.rows.len(), 2);
    assert_eq!(rs.rows[0].get::<i32>(ColumnRef::from("id")).unwrap(), 1);
    assert_eq!(rs.rows[1].get::<String>(ColumnRef::from("name")).unwrap(), "example");
    assert_eq!(rs.rows[1].get::<i32>(ColumnRef::from(0usize)).unwrap(), 2);
    assert_eq!(rs.rows[0].get::<String>(ColumnRef::from(1usize)).unwrap(), "test");
}

#[test]
fn test_parse_response_invalid_json() {
    let invalid_json = "invalid json";

    let result = parse_response(invalid_json.to_string());
    assert!(result.is_err());
    assert!(matches!(result.unwrap_err(), FireboltError::Serialization(_)));
}

#[test]
fn test_parse_response_missing_meta() {
    let json_response = r#"{"data": []}"#;

    let result = parse_response(json_response.to_string());
    assert!(result.is_err());
    assert!(matches!(result.unwrap_err(), FireboltError::Query(_)));
}

#[test]
fn test_parse_response_missing_data() {
    let json_response = r#"{"meta": []}"#;

    let result = parse_response(json_response.to_string());
    assert!(result.is_err());
    assert!(matches!(result.unwrap_err(), FireboltError::Query(_)));
}

#[test]
fn decode_document_empty_result() {
    let rs = decode_document(&value(r#"{"meta": [], "data": []}"#)).unwrap();
    assert!(rs.columns.is_empty());
    assert!(rs.rows.is_empty());
}

#[test]
fn test_parse_server_error() {
    let error_body = "Internal Server Error".to_string();
    let result = parse_server_error(error_body);
    assert!(matches!(result, FireboltError::Query(_)));
    assert!(format!("{result:?}").contains("Server error: Internal Server Error"));
}

fn one_row(data: &str, column_type: Type) -> Row {
    let values = match parse_json(data).unwrap() {
        JsonValue::Array(v) => v,
        _ => panic!("not an array"),
    };
    Row::new(values, vec![column("c", column_type)])
}

#[test]
fn get_null_as_optional_is_none_for_any_type() {
    for t in [Type::Int, Type::Text, Type::Boolean, Type::Array, Type::Decimal] {
        let row = one_row("[null]", t);
        assert_eq!(row.get::<Option<i32>>(ColumnRef::from(0usize)).unwrap(), None);
        assert_eq!(row.get::<Option<String>>(ColumnRef::from("c")).unwrap(), None);
        assert!(matches!(
            row.get::<i32>(ColumnRef::from(0usize)),
            Err(FireboltError::Serialization(_))
        ));
    }
}

#[test]
fn get_column_lookup_errors() {
    let row = one_row("[5]", Type::Int);
    assert!(matches!(row.get::<i32>(ColumnRef::from(1usize)), Err(FireboltError::Query(_))));
    assert!(matches!(row.get::<i32>(ColumnRef::from("missing")), Err(FireboltError::Query(_))));
    let short = Row::new(vec![], vec![column("c", Type::Int)]);
    assert!(matches!(short.get::<i32>(ColumnRef::from(0usize)), Err(FireboltError::Query(_))));
}

#[test]
fn get_first_column_of_a_name_wins() {
    let values = match parse_json("[1, 2]").unwrap() {
        JsonValue::Array(v) => v,
        _ => panic!("not an array"),
    };
    let row = Row::new(values, vec![column("x", Type::Int), column("x", Type::Int)]);
    assert_eq!(row.get::<i32>(ColumnRef::from("x")).unwrap(), 1);
}

#[test]
fn get_type_mismatch_is_serialization() {
    let row = one_row("[true]", Type::Text);
    assert!(matches!(row.get::<bool>(ColumnRef::from(0usize)), Err(FireboltError::Serialization(_))));
    let row = one_row("[true]", Type::Boolean);
    assert!(row.get::<bool>(ColumnRef::from(0usize)).unwrap());
    assert_eq!(row.get::<Option<bool>>(ColumnRef::from(0usize)).unwrap(), Some(true));
}

#[test]
fn get_i32_range() {
    assert_eq!(one_row("[2147483647]", Type::Int).get::<i32>(ColumnRef::from(0usize)).unwrap(), i32::MAX);
    assert_eq!(one_row("[-2147483648]", Type::Int).get::<i32>(ColumnRef::from(0usize)).unwrap(), i32::MIN);
    assert!(one_row("[2147483648]", Type::Int).get::<i32>(ColumnRef::from(0usize)).is_err());
    assert!(one_row("[1.5]", Type::Int).get::<i32>(ColumnRef::from(0usize)).is_err());
    assert!(one_row("[\"1\"]", Type::Int).get::<i32>(ColumnRef::from(0usize)).is_err());
    assert_eq!(one_row("[7]", Type::Int).get::<Option<i32>>(ColumnRef::from(0usize)).unwrap(), Some(7));
}

#[test]
fn get_bytes() {
    let row = one_row(r#"["\\x48656C6c6f"]"#, Type::Bytes);
    assert_eq!(row.get::<Vec<u8>>(ColumnRef::from(0usize)).unwrap(), b"Hello".to_vec());
    let row = one_row(r#"["abc"]"#, Type::Bytes);
    assert_eq!(row.get::<Vec<u8>>(ColumnRef::from(0usize)).unwrap(), b"abc".to_vec());
    let row = one_row(r#"["\\x4"]"#, Type::Bytes);
    assert!(matches!(row.get::<Vec<u8>>(ColumnRef::from(0usize)), Err(FireboltError::Serialization(_))));
    let row = one_row(r#"["\\xzz"]"#, Type::Bytes);
    assert!(matches!(row.get::<Option<Vec<u8>>>(ColumnRef::from(0usize)), Err(FireboltError::Serialization(_))));
    let row = one_row(r#"["\\x"]"#, Type::Bytes);
    assert_eq!(row.get::<Vec<u8>>(ColumnRef::from(0usize)).unwrap(), Vec::<u8>::new());
}

#[test]
fn get_big_integer() {
    let row = one_row("[30000000000]", Type::Long);
    assert_eq!(row.get::<BigInteger>(ColumnRef::from(0usize)).unwrap().text, "30000000000");
    let row = one_row(r#"["123456789012345678901234567890"]"#, Type::Long);
    assert_eq!(
        row.get::<BigInteger>(ColumnRef::from(0usize)).unwrap().text,
        "123456789012345678901234567890"
    );
    let row = one_row(r#"["12x"]"#, Type::Long);
    assert!(matches!(row.get::<BigInteger>(ColumnRef::from(0usize)), Err(FireboltError::Serialization(_))));
    let row = one_row("[30000000000]", Type::Int);
    assert!(row.get::<BigInteger>(ColumnRef::from(0usize)).is_err());
    let row = one_row("[null]", Type::Long);
    assert_eq!(row.get::<Option<BigInteger>>(ColumnRef::from(0usize)).unwrap(), None);
}

#[test]
fn get_decimal() {
    let row = one_row(r#"["12.50"]"#, Type::Decimal);
    assert_eq!(row.get::<DecimalNumber>(ColumnRef::from(0usize)).unwrap().text, "12.50");
    let row = one_row("[3.25]", Type::Decimal);
    assert_eq!(row.get::<DecimalNumber>(ColumnRef::from(0usize)).unwrap().text, "3.25");
    let row = one_row(r#"["abc"]"#, Type::Decimal);
    assert!(matches!(row.get::<DecimalNumber>(ColumnRef::from(0usize)), Err(FireboltError::Serialization(_))));
    let row = one_row(r#"["1"]"#, Type::Text);
    assert!(row.get::<Option<DecimalNumber>>(ColumnRef::from(0usize)).is_err());
}

#[test]
fn get_float_texts() {
    let row = one_row("[1.5]", Type::Float);
    assert_eq!(row.get::<FloatText>(ColumnRef::from(0usize)).unwrap().text, "1.5");
    assert!(row.get::<DoubleText>(ColumnRef::from(0usize)).is_err());
    let row = one_row("[2]", Type::Double);
    assert_eq!(row.get::<DoubleText>(ColumnRef::from(0usize)).unwrap().text, "2");
    let row = one_row(r#"["2"]"#, Type::Double);
    assert!(row.get::<Option<DoubleText>>(ColumnRef::from(0usize)).is_err());
}

#[test]
fn get_raw_value_ignores_type() {
    let row = one_row(r#"[[1, [2, "x"]]]"#, Type::Array);
    let raw = row.get::<JsonValue>(ColumnRef::from(0usize)).unwrap();
    match raw {
        JsonValue::Array(items) => {
            assert_eq!(items.len(), 2);
            assert!(matches!(&items[1], JsonValue::Array(inner) if inner.len() == 2));
        }
        other => panic!("unexpected {other:?}"),
    }
    let row = one_row(r#"[{"k": 1}]"#, Type::Int);
    assert!(matches!(row.get::<JsonValue>(ColumnRef::from(0usize)).unwrap(), JsonValue::Object(_)));
}

#[test]
fn parse_data_row_width_must_match_columns() {
    let columns = vec![column("id", Type::Int)];
    match parse_data(&value(r#"{"data": [[1], [1, 2]]}"#), &columns) {
        Err(FireboltError::Query(m)) => assert_eq!(m, "Row width does not match the columns"),
        other => panic!("unexpected {other:?}"),
    }
    match parse_data(&value(r#"{"data": [[1], 2]}"#), &columns) {
        Err(FireboltError::Query(m)) => assert_eq!(m, "Row data is not an array"),
        other => panic!("unexpected {other:?}"),
    }
    let body = r#"{"meta": [{"name":"id","type":"int"}], "data": [[1, 2]]}"#;
    assert!(matches!(parse_response(body.to_string()), Err(FireboltError::Query(_))));
}

#[test]
fn get_big_integer_beyond_i64() {
    let row = one_row("[9223372036854775808]", Type::Long);
    assert_eq!(
        row.get::<BigInteger>(ColumnRef::from(0usize)).unwrap().text,
        "9223372036854775808"
    );
    let row = one_row("[-12]", Type::Long);
    assert_eq!(row.get::<Option<BigInteger>>(ColumnRef::from(0usize)).unwrap().unwrap().text, "-12");
}

#[test]
fn conversion_errors_name_both_types() {
    let row = one_row(r#"["x"]"#, Type::Text);
    match row.get::<bool>(ColumnRef::from(0usize)) {
        Err(FireboltError::Serialization(m)) => assert_eq!(m, "Cannot convert Text to bool"),
        other => panic!("unexpected {other:?}"),
    }
    match row.get::<Option<i32>>(ColumnRef::from(0usize)) {
        Err(FireboltError::Serialization(m)) => assert_eq!(m, "Cannot convert Text to Option<i32>"),
        other => panic!("unexpected {other:?}"),
    }
    let row = one_row("[null]", Type::Int);
    match row.get::<i32>(ColumnRef::from(0usize)) {
        Err(FireboltError::Serialization(m)) => {
            assert_eq!(m, "Cannot convert null to non-nullable type")
        }
        other => panic!("unexpected {other:?}"),
    }
}

#[test]
fn lookup_errors_name_the_column() {
    let row = one_row("[5]", Type::Int);
    match row.get::<i32>(ColumnRef::from(12usize)) {
        Err(FireboltError::Query(m)) => assert_eq!(m, "Column index 12 out of bounds"),
        other => panic!("unexpected {other:?}"),
    }
    match row.get::<i32>(ColumnRef::from("missing")) {
        Err(FireboltError::Query(m)) => assert_eq!(m, "Column 'missing' not found"),
        other => panic!("unexpected {other:?}"),
    }
    let short = Row::new(vec![], vec![column("c", Type::Int)]);
    match short.get::<i32>(ColumnRef::from("c")) {
        Err(FireboltError::Query(m)) => assert_eq!(m, "Column index 0 out of bounds"),
        other => panic!("unexpected {other:?}"),
    }
}
