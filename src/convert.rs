//! Reading a raw JSON value of a result column as a value of a requested type.
use vstd::prelude::*;
use vstd::string::StrSliceExecFns;
use crate::error::FireboltError;
use crate::json::{JsonNumber, JsonValue, JsonView};
use crate::text::{has_prefix, join, strip_prefix};
use crate::types::Type;

verus! {

/// A value of arbitrary precision, as the canonical decimal text of the integer.
#[derive(Debug, PartialEq, Eq)]
pub struct BigInteger {
    pub text: String,
}

/// A fixed-point decimal, as the canonical text of the decimal.
#[derive(Debug, PartialEq, Eq)]
pub struct DecimalNumber {
    pub text: String,
}

/// A single-precision value, as the text of the JSON number it was read from.
#[derive(Debug, PartialEq, Eq)]
pub struct FloatText {
    pub text: String,
}

/// A double-precision value, as the text of the JSON number it was read from.
#[derive(Debug, PartialEq, Eq)]
pub struct DoubleText {
    pub text: String,
}

/// The value of a hexadecimal digit of either case; -1 for any other character.
pub open spec fn hex_digit_value(c: char) -> int {
    if '0' <= c && c <= '9' {
        c as int - '0' as int
    } else if 'a' <= c && c <= 'f' {
        c as int - 'a' as int + 10
    } else if 'A' <= c && c <= 'F' {
        c as int - 'A' as int + 10
    } else {
        -1
    }
}

/// An even number of hexadecimal digits.
pub open spec fn is_hex_text(s: Seq<char>) -> bool {
    s.len() % 2 == 0 && forall|i: int| 0 <= i < s.len() ==> hex_digit_value(#[trigger] s[i]) >= 0
}

/// The bytes that each pair of hexadecimal digits stands for.
pub open spec fn hex_bytes(s: Seq<char>) -> Seq<u8> {
    Seq::new(
        s.len() / 2,
        |i: int| (hex_digit_value(s[2 * i]) * 16 + hex_digit_value(s[2 * i + 1])) as u8,
    )
}

/// Relies on hex::decode: two digits of either case make one byte, high digit first; an odd
/// length or any other character is an error.
#[verifier::external_body]
fn decode_hex(s: &str) -> (r: Option<Vec<u8>>)
    ensures
        match r {
            Some(b) => is_hex_text(s@) && b@ == hex_bytes(s@),
            None => !is_hex_text(s@),
        },
{
    hex::decode(s).ok()
}

/// The canonical text of the integer that num_bigint reads from `s`, if it reads one.
pub uninterp spec fn bigint_text(s: Seq<char>) -> Option<Seq<char>>;

/// Relies on num_bigint::BigInt's `FromStr` to read `s` in base ten, and on its `Display`
/// to write the value back.
#[verifier::external_body]
fn parse_bigint(s: &str) -> (r: Option<String>)
    ensures
        match r {
            Some(t) => bigint_text(s@) == Some(t@),
            None => bigint_text(s@) is None,
        },
{
    s.parse::<num_bigint::BigInt>().ok().map(|b| b.to_string())
}

/// The canonical text of the decimal that rust_decimal reads from `s`, if it reads one.
pub uninterp spec fn decimal_text(s: Seq<char>) -> Option<Seq<char>>;

/// Relies on rust_decimal::Decimal's `FromStr` to read `s`, and on its `Display` to write the
/// value back.
#[verifier::external_body]
fn parse_decimal(s: &str) -> (r: Option<String>)
    ensures
        match r {
            Some(t) => decimal_text(s@) == Some(t@),
            None => decimal_text(s@) is None,
        },
{
    s.parse::<rust_decimal::Decimal>().ok().map(|d| d.to_string())
}

/// A type that a raw value of a result column can be read as.
pub trait TypeConversion: Sized {
    /// Whether `r` is what reading `value`, from a column of wire type `ty`, gives.
    spec fn converts(value: JsonView, ty: Type, r: Result<Self, FireboltError>) -> bool;

    fn convert_from_json(value: &JsonValue, column_type: &Type) -> (r: Result<Self, FireboltError>)
        ensures
            Self::converts(value@, *column_type, r),
    ;
}

/// The 32-bit integer that `value` holds, in a column of type `ty`.
pub open spec fn int_outcome(value: JsonView, ty: Type) -> Option<i32> {
    match value {
        JsonView::Number(Some(i), _) => if ty == Type::Int && i32::MIN <= i <= i32::MAX {
            Some(i as i32)
        } else {
            None
        },
        _ => None,
    }
}

/// The text that `value` holds, in a column of type `ty`.
pub open spec fn text_outcome(value: JsonView, ty: Type) -> Option<Seq<char>> {
    match value {
        JsonView::Str(s) => if ty == Type::Text {
            Some(s)
        } else {
            None
        },
        _ => None,
    }
}

/// The truth value that `value` holds, in a column of type `ty`.
pub open spec fn bool_outcome(value: JsonView, ty: Type) -> Option<bool> {
    match value {
        JsonView::Bool(b) => if ty == Type::Boolean {
            Some(b)
        } else {
            None
        },
        _ => None,
    }
}

/// The bytes that `value` holds, in a column of type `ty`: after `\x`, pairs of hexadecimal
/// digits; otherwise the UTF-8 encoding of the text itself.
pub open spec fn bytes_outcome(value: JsonView, ty: Type) -> Option<Seq<u8>> {
    match value {
        JsonView::Str(s) => if ty != Type::Bytes {
            None
        } else if has_prefix(s, "\\x"@) {
            let digits = s.subrange("\\x"@.len() as int, s.len() as int);
            if is_hex_text(digits) {
                Some(hex_bytes(digits))
            } else {
                None
            }
        } else {
            Some(vstd::utf8::encode_utf8(s))
        },
        _ => None,
    }
}

/// The integer text that `value` holds, in a column of type `ty`: a number or a string that
/// reads as an integer.
pub open spec fn bigint_outcome(value: JsonView, ty: Type) -> Option<Seq<char>> {
    if ty != Type::Long {
        None
    } else {
        match value {
            JsonView::Number(_, t) => bigint_text(t),
            JsonView::Str(s) => bigint_text(s),
            _ => None,
        }
    }
}

/// The decimal text that `value` holds, in a column of type `ty`: a string or a number that
/// reads as a decimal.
pub open spec fn decimal_outcome(value: JsonView, ty: Type) -> Option<Seq<char>> {
    if ty != Type::Decimal {
        None
    } else {
        match value {
            JsonView::Str(s) => decimal_text(s),
            JsonView::Number(_, t) => decimal_text(t),
            _ => None,
        }
    }
}

/// The number text that `value` holds, in a column of type `want` when the column's type is
/// `ty`.
pub open spec fn number_outcome(value: JsonView, ty: Type, want: Type) -> Option<Seq<char>> {
    match value {
        JsonView::Number(_, t) => if ty == want {
            Some(t)
        } else {
            None
        },
        _ => None,
    }
}

/// The name of a wire type, as errors print it.
pub open spec fn wire_type_name(t: Type) -> Seq<char> {
    match t {
        Type::Int => "Int"@,
        Type::Long => "Long"@,
        Type::Float => "Float"@,
        Type::Double => "Double"@,
        Type::Decimal => "Decimal"@,
        Type::Text => "Text"@,
        Type::Date => "Date"@,
        Type::Timestamp => "Timestamp"@,
        Type::TimestampTZ => "TimestampTZ"@,
        Type::Boolean => "Boolean"@,
        Type::Array => "Array"@,
        Type::Struct => "Struct"@,
        Type::Geography => "Geography"@,
        Type::Bytes => "Bytes"@,
    }
}

/// The message for a column of type `ty` read as `target`, which that type cannot give.
pub open spec fn mismatch_message(ty: Type, target: Seq<char>) -> Seq<char> {
    "Cannot convert "@ + wire_type_name(ty) + " to "@ + target
}

/// The error of reading `value` from a column of type `ty` as `target`, which needs a column
/// of type `want`: a serialization error that names both types where they differ, and says
/// that null has no value where the type fits but the value is null.
pub open spec fn conversion_error(value: JsonView, ty: Type, want: Type, target: Seq<char>, e: FireboltError) -> bool {
    &&& e is Serialization
    &&& ty != want ==> e.text()@ == mismatch_message(ty, target)
    &&& (ty == want && value is Null) ==> e.text()@ == "Cannot convert null to non-nullable type"@
}

/// How a plain target reads `value`: the value that `outcome` gives, or else an error.
pub open spec fn plain_converts<T>(
    value: JsonView,
    ty: Type,
    want: Type,
    target: Seq<char>,
    r: Result<T, FireboltError>,
    defined: bool,
    gives: spec_fn(T) -> bool,
) -> bool {
    match r {
        Ok(x) => gives(x),
        Err(e) => !defined && conversion_error(value, ty, want, target, e),
    }
}

/// How a nullable target reads `value`: null gives no value, whatever the column's type;
/// otherwise as the plain target.
pub open spec fn optional_converts<T>(
    value: JsonView,
    ty: Type,
    want: Type,
    target: Seq<char>,
    r: Result<Option<T>, FireboltError>,
    defined: bool,
    gives: spec_fn(T) -> bool,
) -> bool {
    if value is Null {
        r == Ok::<Option<T>, FireboltError>(None)
    } else {
        match r {
            Ok(Some(x)) => gives(x),
            Ok(None) => false,
            Err(e) => !defined && conversion_error(value, ty, want, target, e),
        }
    }
}

fn type_name_text(t: Type) -> (r: &'static str)
    ensures
        r@ == wire_type_name(t),
{
    match t {
        Type::Int => "Int",
        Type::Long => "Long",
        Type::Float => "Float",
        Type::Double => "Double",
        Type::Decimal => "Decimal",
        Type::Text => "Text",
        Type::Date => "Date",
        Type::Timestamp => "Timestamp",
        Type::TimestampTZ => "TimestampTZ",
        Type::Boolean => "Boolean",
        Type::Array => "Array",
        Type::Struct => "Struct",
        Type::Geography => "Geography",
        Type::Bytes => "Bytes",
    }
}

fn mismatch_error(ty: Type, target: &str) -> (r: FireboltError)
    ensures
        r is Serialization,
        r.text()@ == mismatch_message(ty, target@),
{
    let head = join("Cannot convert ", type_name_text(ty));
    let middle = join(head.as_str(), " to ");
    FireboltError::Serialization(join(middle.as_str(), target))
}

fn serialization_error(msg: &str) -> (r: FireboltError)
    ensures
        r is Serialization,
        r.text()@ == msg@,
{
    FireboltError::Serialization(String::from_str(msg))
}

/// The `i64` of a number within the range of `i32`.
fn number_as_i32(n: &JsonNumber) -> (r: Option<i32>)
    ensures
        r == (match n.int {
            Some(i) => if i32::MIN <= i <= i32::MAX {
                Some(i as i32)
            } else {
                None
            },
            None => None,
        }),
{
    match n.int {
        Some(i) => if i32::MIN as i64 <= i && i <= i32::MAX as i64 {
            Some(i as i32)
        } else {
            None
        },
        None => None,
    }
}

/// The `i32` that a non-null value of a `Int` column holds.
fn read_i32(value: &JsonValue) -> (r: Result<i32, FireboltError>)
    ensures
        match r {
            Ok(x) => int_outcome(value@, Type::Int) == Some(x),
            Err(e) => int_outcome(value@, Type::Int) is None && e is Serialization,
        },
{
    match value {
        JsonValue::Number(n) => match number_as_i32(n) {
            Some(x) => Ok(x),
            None => Err(serialization_error("Failed to convert to i32")),
        },
        _ => Err(serialization_error("Failed to convert to i32")),
    }
}

impl TypeConversion for i32 {
    open spec fn converts(value: JsonView, ty: Type, r: Result<i32, FireboltError>) -> bool {
        plain_converts(value, ty, Type::Int, "i32"@, r, int_outcome(value, ty) is Some, |x: i32| int_outcome(value, ty) == Some(x))
    }

    fn convert_from_json(value: &JsonValue, column_type: &Type) -> (r: Result<i32, FireboltError>) {
        if *column_type != Type::Int {
            return Err(mismatch_error(*column_type, "i32"));
        }
        if let JsonValue::Null = value {
            return Err(serialization_error("Cannot convert null to non-nullable type"));
        }
        read_i32(value)
    }
}

impl TypeConversion for Option<i32> {
    open spec fn converts(value: JsonView, ty: Type, r: Result<Option<i32>, FireboltError>) -> bool {
        optional_converts(value, ty, Type::Int, "Option<i32>"@, r, int_outcome(value, ty) is Some, |x: i32| int_outcome(value, ty) == Some(x))
    }

    fn convert_from_json(value: &JsonValue, column_type: &Type) -> (r: Result<Option<i32>, FireboltError>) {
        if let JsonValue::Null = value {
            return Ok(None);
        }
        if *column_type != Type::Int {
            return Err(mismatch_error(*column_type, "Option<i32>"));
        }
        match read_i32(value) {
            Ok(x) => Ok(Some(x)),
            Err(e) => Err(e),
        }
    }
}

/// The `String` that a non-null value of a `Text` column holds.
fn read_text(value: &JsonValue) -> (r: Result<String, FireboltError>)
    ensures
        match r {
            Ok(x) => text_outcome(value@, Type::Text) == Some(x@),
            Err(e) => text_outcome(value@, Type::Text) is None && e is Serialization,
        },
{
    match value {
        JsonValue::Str(s) => Ok(s.clone()),
        _ => Err(serialization_error("Failed to convert to String")),
    }
}

impl TypeConversion for String {
    open spec fn converts(value: JsonView, ty: Type, r: Result<String, FireboltError>) -> bool {
        plain_converts(value, ty, Type::Text, "String"@, r, text_outcome(value, ty) is Some, |x: String| text_outcome(value, ty) == Some(x@))
    }

    fn convert_from_json(value: &JsonValue, column_type: &Type) -> (r: Result<String, FireboltError>) {
        if *column_type != Type::Text {
            return Err(mismatch_error(*column_type, "String"));
        }
        if let JsonValue::Null = value {
            return Err(serialization_error("Cannot convert null to non-nullable type"));
        }
        read_text(value)
    }
}

impl TypeConversion for Option<String> {
    open spec fn converts(value: JsonView, ty: Type, r: Result<Option<String>, FireboltError>) -> bool {
        optional_converts(value, ty, Type::Text, "Option<String>"@, r, text_outcome(value, ty) is Some, |x: String| text_outcome(value, ty) == Some(x@))
    }

    fn convert_from_json(value: &JsonValue, column_type: &Type) -> (r: Result<Option<String>, FireboltError>) {
        if let JsonValue::Null = value {
            return Ok(None);
        }
        if *column_type != Type::Text {
            return Err(mismatch_error(*column_type, "Option<String>"));
        }
        match read_text(value) {
            Ok(x) => Ok(Some(x)),
            Err(e) => Err(e),
        }
    }
}

/// The `bool` that a non-null value of a `Boolean` column holds.
fn read_bool(value: &JsonValue) -> (r: Result<bool, FireboltError>)
    ensures
        match r {
            Ok(x) => bool_outcome(value@, Type::Boolean) == Some(x),
            Err(e) => bool_outcome(value@, Type::Boolean) is None && e is Serialization,
        },
{
    match value {
        JsonValue::Bool(b) => Ok(*b),
        _ => Err(serialization_error("Failed to convert to bool")),
    }
}

impl TypeConversion for bool {
    open spec fn converts(value: JsonView, ty: Type, r: Result<bool, FireboltError>) -> bool {
        plain_converts(value, ty, Type::Boolean, "bool"@, r, bool_outcome(value, ty) is Some, |x: bool| bool_outcome(value, ty) == Some(x))
    }

    fn convert_from_json(value: &JsonValue, column_type: &Type) -> (r: Result<bool, FireboltError>) {
        if *column_type != Type::Boolean {
            return Err(mismatch_error(*column_type, "bool"));
        }
        if let JsonValue::Null = value {
            return Err(serialization_error("Cannot convert null to non-nullable type"));
        }
        read_bool(value)
    }
}

impl TypeConversion for Option<bool> {
    open spec fn converts(value: JsonView, ty: Type, r: Result<Option<bool>, FireboltError>) -> bool {
        optional_converts(value, ty, Type::Boolean, "Option<bool>"@, r, bool_outcome(value, ty) is Some, |x: bool| bool_outcome(value, ty) == Some(x))
    }

    fn convert_from_json(value: &JsonValue, column_type: &Type) -> (r: Result<Option<bool>, FireboltError>) {
        if let JsonValue::Null = value {
            return Ok(None);
        }
        if *column_type != Type::Boolean {
            return Err(mismatch_error(*column_type, "Option<bool>"));
        }
        match read_bool(value) {
            Ok(x) => Ok(Some(x)),
            Err(e) => Err(e),
        }
    }
}

/// The `Vec<u8>` that a non-null value of a `Bytes` column holds.
fn read_bytes(value: &JsonValue) -> (r: Result<Vec<u8>, FireboltError>)
    ensures
        match r {
            Ok(x) => bytes_outcome(value@, Type::Bytes) == Some(x@),
            Err(e) => bytes_outcome(value@, Type::Bytes) is None && e is Serialization,
        },
{
    match value {
        JsonValue::Str(s) => match strip_prefix(s.as_str(), "\\x") {
            Some(digits) => match decode_hex(digits) {
                Some(b) => Ok(b),
                None => Err(serialization_error("Failed to decode hex string")),
            },
            None => Ok(s.as_str().as_bytes_vec()),
        },
        _ => Err(serialization_error("Failed to convert to Vec<u8>")),
    }
}

impl TypeConversion for Vec<u8> {
    open spec fn converts(value: JsonView, ty: Type, r: Result<Vec<u8>, FireboltError>) -> bool {
        plain_converts(value, ty, Type::Bytes, "Vec<u8>"@, r, bytes_outcome(value, ty) is Some, |x: Vec<u8>| bytes_outcome(value, ty) == Some(x@))
    }

    fn convert_from_json(value: &JsonValue, column_type: &Type) -> (r: Result<Vec<u8>, FireboltError>) {
        if *column_type != Type::Bytes {
            return Err(mismatch_error(*column_type, "Vec<u8>"));
        }
        if let JsonValue::Null = value {
            return Err(serialization_error("Cannot convert null to non-nullable type"));
        }
        read_bytes(value)
    }
}

impl TypeConversion for Option<Vec<u8>> {
    open spec fn converts(value: JsonView, ty: Type, r: Result<Option<Vec<u8>>, FireboltError>) -> bool {
        optional_converts(value, ty, Type::Bytes, "Option<Vec<u8>>"@, r, bytes_outcome(value, ty) is Some, |x: Vec<u8>| bytes_outcome(value, ty) == Some(x@))
    }

    fn convert_from_json(value: &JsonValue, column_type: &Type) -> (r: Result<Option<Vec<u8>>, FireboltError>) {
        if let JsonValue::Null = value {
            return Ok(None);
        }
        if *column_type != Type::Bytes {
            return Err(mismatch_error(*column_type, "Option<Vec<u8>>"));
        }
        match read_bytes(value) {
            Ok(x) => Ok(Some(x)),
            Err(e) => Err(e),
        }
    }
}

/// The `BigInteger` that a non-null value of a `Long` column holds.
fn read_bigint(value: &JsonValue) -> (r: Result<BigInteger, FireboltError>)
    ensures
        match r {
            Ok(x) => bigint_outcome(value@, Type::Long) == Some(x.text@),
            Err(e) => bigint_outcome(value@, Type::Long) is None && e is Serialization,
        },
{
    let read = match value {
        JsonValue::Number(n) => parse_bigint(n.text.as_str()),
        JsonValue::Str(s) => parse_bigint(s.as_str()),
        _ => {
            return Err(serialization_error("Failed to convert to BigInt"));
        },
    };
    match read {
        Some(text) => Ok(BigInteger { text }),
        None => Err(serialization_error("Failed to parse BigInt")),
    }
}

impl TypeConversion for BigInteger {
    open spec fn converts(value: JsonView, ty: Type, r: Result<BigInteger, FireboltError>) -> bool {
        plain_converts(value, ty, Type::Long, "BigInt"@, r, bigint_outcome(value, ty) is Some, |x: BigInteger| bigint_outcome(value, ty) == Some(x.text@))
    }

    fn convert_from_json(value: &JsonValue, column_type: &Type) -> (r: Result<BigInteger, FireboltError>) {
        if *column_type != Type::Long {
            return Err(mismatch_error(*column_type, "BigInt"));
        }
        if let JsonValue::Null = value {
            return Err(serialization_error("Cannot convert null to non-nullable type"));
        }
        read_bigint(value)
    }
}

impl TypeConversion for Option<BigInteger> {
    open spec fn converts(value: JsonView, ty: Type, r: Result<Option<BigInteger>, FireboltError>) -> bool {
        optional_converts(value, ty, Type::Long, "Option<BigInt>"@, r, bigint_outcome(value, ty) is Some, |x: BigInteger| bigint_outcome(value, ty) == Some(x.text@))
    }

    fn convert_from_json(value: &JsonValue, column_type: &Type) -> (r: Result<Option<BigInteger>, FireboltError>) {
        if let JsonValue::Null = value {
            return Ok(None);
        }
        if *column_type != Type::Long {
            return Err(mismatch_error(*column_type, "Option<BigInt>"));
        }
        match read_bigint(value) {
            Ok(x) => Ok(Some(x)),
            Err(e) => Err(e),
        }
    }
}

/// The `DecimalNumber` that a non-null value of a `Decimal` column holds.
fn read_decimal(value: &JsonValue) -> (r: Result<DecimalNumber, FireboltError>)
    ensures
        match r {
            Ok(x) => decimal_outcome(value@, Type::Decimal) == Some(x.text@),
            Err(e) => decimal_outcome(value@, Type::Decimal) is None && e is Serialization,
        },
{
    let read = match value {
        JsonValue::Str(s) => parse_decimal(s.as_str()),
        JsonValue::Number(n) => parse_decimal(n.text.as_str()),
        _ => {
            return Err(serialization_error("Failed to convert to Decimal"));
        },
    };
    match read {
        Some(text) => Ok(DecimalNumber { text }),
        None => Err(serialization_error("Failed to parse Decimal")),
    }
}

impl TypeConversion for DecimalNumber {
    open spec fn converts(value: JsonView, ty: Type, r: Result<DecimalNumber, FireboltError>) -> bool {
        plain_converts(value, ty, Type::Decimal, "Decimal"@, r, decimal_outcome(value, ty) is Some, |x: DecimalNumber| decimal_outcome(value, ty) == Some(x.text@))
    }

    fn convert_from_json(value: &JsonValue, column_type: &Type) -> (r: Result<DecimalNumber, FireboltError>) {
        if *column_type != Type::Decimal {
            return Err(mismatch_error(*column_type, "Decimal"));
        }
        if let JsonValue::Null = value {
            return Err(serialization_error("Cannot convert null to non-nullable type"));
        }
        read_decimal(value)
    }
}

impl TypeConversion for Option<DecimalNumber> {
    open spec fn converts(value: JsonView, ty: Type, r: Result<Option<DecimalNumber>, FireboltError>) -> bool {
        optional_converts(value, ty, Type::Decimal, "Option<Decimal>"@, r, decimal_outcome(value, ty) is Some, |x: DecimalNumber| decimal_outcome(value, ty) == Some(x.text@))
    }

    fn convert_from_json(value: &JsonValue, column_type: &Type) -> (r: Result<Option<DecimalNumber>, FireboltError>) {
        if let JsonValue::Null = value {
            return Ok(None);
        }
        if *column_type != Type::Decimal {
            return Err(mismatch_error(*column_type, "Option<Decimal>"));
        }
        match read_decimal(value) {
            Ok(x) => Ok(Some(x)),
            Err(e) => Err(e),
        }
    }
}

/// The `FloatText` that a non-null value of a `Float` column holds.
fn read_float(value: &JsonValue) -> (r: Result<FloatText, FireboltError>)
    ensures
        match r {
            Ok(x) => number_outcome(value@, Type::Float, Type::Float) == Some(x.text@),
            Err(e) => number_outcome(value@, Type::Float, Type::Float) is None && e is Serialization,
        },
{
    match value {
        JsonValue::Number(n) => Ok(FloatText { text: n.text.clone() }),
        _ => Err(serialization_error("Failed to convert to f32")),
    }
}

impl TypeConversion for FloatText {
    open spec fn converts(value: JsonView, ty: Type, r: Result<FloatText, FireboltError>) -> bool {
        plain_converts(value, ty, Type::Float, "f32"@, r, number_outcome(value, ty, Type::Float) is Some, |x: FloatText| number_outcome(value, ty, Type::Float) == Some(x.text@))
    }

    fn convert_from_json(value: &JsonValue, column_type: &Type) -> (r: Result<FloatText, FireboltError>) {
        if *column_type != Type::Float {
            return Err(mismatch_error(*column_type, "f32"));
        }
        if let JsonValue::Null = value {
            return Err(serialization_error("Cannot convert null to non-nullable type"));
        }
        read_float(value)
    }
}

impl TypeConversion for Option<FloatText> {
    open spec fn converts(value: JsonView, ty: Type, r: Result<Option<FloatText>, FireboltError>) -> bool {
        optional_converts(value, ty, Type::Float, "Option<f32>"@, r, number_outcome(value, ty, Type::Float) is Some, |x: FloatText| number_outcome(value, ty, Type::Float) == Some(x.text@))
    }

    fn convert_from_json(value: &JsonValue, column_type: &Type) -> (r: Result<Option<FloatText>, FireboltError>) {
        if let JsonValue::Null = value {
            return Ok(None);
        }
        if *column_type != Type::Float {
            return Err(mismatch_error(*column_type, "Option<f32>"));
        }
        match read_float(value) {
            Ok(x) => Ok(Some(x)),
            Err(e) => Err(e),
        }
    }
}

/// The `DoubleText` that a non-null value of a `Double` column holds.
fn read_double(value: &JsonValue) -> (r: Result<DoubleText, FireboltError>)
    ensures
        match r {
            Ok(x) => number_outcome(value@, Type::Double, Type::Double) == Some(x.text@),
            Err(e) => number_outcome(value@, Type::Double, Type::Double) is None && e is Serialization,
        },
{
    match value {
        JsonValue::Number(n) => Ok(DoubleText { text: n.text.clone() }),
        _ => Err(serialization_error("Failed to convert to f64")),
    }
}

impl TypeConversion for DoubleText {
    open spec fn converts(value: JsonView, ty: Type, r: Result<DoubleText, FireboltError>) -> bool {
        plain_converts(value, ty, Type::Double, "f64"@, r, number_outcome(value, ty, Type::Double) is Some, |x: DoubleText| number_outcome(value, ty, Type::Double) == Some(x.text@))
    }

    fn convert_from_json(value: &JsonValue, column_type: &Type) -> (r: Result<DoubleText, FireboltError>) {
        if *column_type != Type::Double {
            return Err(mismatch_error(*column_type, "f64"));
        }
        if let JsonValue::Null = value {
            return Err(serialization_error("Cannot convert null to non-nullable type"));
        }
        read_double(value)
    }
}

impl TypeConversion for Option<DoubleText> {
    open spec fn converts(value: JsonView, ty: Type, r: Result<Option<DoubleText>, FireboltError>) -> bool {
        optional_converts(value, ty, Type::Double, "Option<f64>"@, r, number_outcome(value, ty, Type::Double) is Some, |x: DoubleText| number_outcome(value, ty, Type::Double) == Some(x.text@))
    }

    fn convert_from_json(value: &JsonValue, column_type: &Type) -> (r: Result<Option<DoubleText>, FireboltError>) {
        if let JsonValue::Null = value {
            return Ok(None);
        }
        if *column_type != Type::Double {
            return Err(mismatch_error(*column_type, "Option<f64>"));
        }
        match read_double(value) {
            Ok(x) => Ok(Some(x)),
            Err(e) => Err(e),
        }
    }
}

impl TypeConversion for JsonValue {
    open spec fn converts(value: JsonView, ty: Type, r: Result<JsonValue, FireboltError>) -> bool {
        r matches Ok(x) && x@ == value
    }

    fn convert_from_json(value: &JsonValue, column_type: &Type) -> (r: Result<JsonValue, FireboltError>) {
        Ok(value.duplicate())
    }
}

} // verus!
