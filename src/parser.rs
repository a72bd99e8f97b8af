//! The wire-type grammar and the decoder of a query response body.
use vstd::prelude::*;
use crate::error::FireboltError;
use crate::json::{JsonValue, JsonView, field_of, json_document, read_document};
use crate::result::{ResultSet, ResultSetView, Row, RowView, values_view};
use crate::text::{has_prefix, is_ascii_digit, is_white_space, join, owned, skip_space, starts_with, str_eq, white_space};
use crate::types::{Column, ColumnView, Type, columns_view, copy_columns};

verus! {

/// The numeric value of a run of ASCII digits.
pub open spec fn digits_value(s: Seq<char>) -> int
    decreases s.len(),
{
    if s.len() == 0 {
        0
    } else {
        digits_value(s.drop_last()) * 10 + (s.last() as int - '0' as int)
    }
}

/// The first index at or after `j` that does not hold an ASCII digit.
pub open spec fn digits_end(s: Seq<char>, j: int) -> int
    decreases s.len() - j,
{
    if 0 <= j < s.len() && is_ascii_digit(s[j]) {
        digits_end(s, j + 1)
    } else {
        j
    }
}

/// Where `decimal(<digits>,<white space><digits>)` stands at index `i` of `s`: the bounds of
/// the precision digits and of the scale digits.
pub open spec fn decimal_at(s: Seq<char>, i: int) -> Option<(int, int, int, int)> {
    let p = i + "decimal("@.len();
    if 0 <= i <= s.len() && has_prefix(s.subrange(i, s.len() as int), "decimal("@) {
        let e1 = digits_end(s, p);
        if p < e1 < s.len() && s[e1] == ',' {
            let w = skip_space(s, e1 + 1);
            let e2 = digits_end(s, w);
            if w < e2 < s.len() && s[e2] == ')' {
                Some((p, e1, w, e2))
            } else {
                None
            }
        } else {
            None
        }
    } else {
        None
    }
}

/// The precision and scale bounds of `t` when all of `t` is the decimal form, its closing
/// `)` being the last character.
pub open spec fn decimal_whole(t: Seq<char>) -> Option<(int, int, int, int)> {
    match decimal_at(t, 0) {
        Some((p, e1, w, e2)) => if e2 + 1 == t.len() {
            Some((p, e1, w, e2))
        } else {
            None
        },
        None => None,
    }
}

/// The descriptor without its `null::` prefix.
pub open spec fn clean_descriptor(s: Seq<char>) -> Seq<char> {
    if has_prefix(s, "null::"@) {
        s.subrange("null::"@.len() as int, s.len() as int)
    } else {
        s
    }
}

/// The fixed names of the wire types.
pub open spec fn alias_type(t: Seq<char>) -> Option<Type> {
    if t == "int"@ {
        Some(Type::Int)
    } else if t == "bigint"@ || t == "long"@ {
        Some(Type::Long)
    } else if t == "float4"@ || t == "float"@ {
        Some(Type::Float)
    } else if t == "double"@ || t == "float8"@ {
        Some(Type::Double)
    } else if t == "decimal"@ {
        Some(Type::Decimal)
    } else if t == "text"@ || t == "string"@ {
        Some(Type::Text)
    } else if t == "date"@ {
        Some(Type::Date)
    } else if t == "timestamp"@ {
        Some(Type::Timestamp)
    } else if t == "timestamptz"@ {
        Some(Type::TimestampTZ)
    } else if t == "bool"@ || t == "boolean"@ {
        Some(Type::Boolean)
    } else if t == "bytea"@ {
        Some(Type::Bytes)
    } else if t == "geography"@ {
        Some(Type::Geography)
    } else if has_prefix(t, "struct"@) {
        Some(Type::Struct)
    } else {
        None
    }
}

/// The type that a descriptor without the nullable prefix names, with precision and scale.
pub open spec fn base_type_of(t: Seq<char>) -> Option<(Type, Option<i32>, Option<i32>)> {
    match decimal_whole(t) {
        Some((p, e1, w, e2)) => {
            let precision = digits_value(t.subrange(p, e1));
            let scale = digits_value(t.subrange(w, e2));
            if precision <= i32::MAX && scale <= i32::MAX {
                Some((Type::Decimal, Some(precision as i32), Some(scale as i32)))
            } else {
                None
            }
        },
        None => {
            if has_prefix(t, "array"@) {
                Some((Type::Array, None, None))
            } else {
                match alias_type(t) {
                    Some(ty) => Some((ty, None, None)),
                    None => None,
                }
            }
        },
    }
}

/// What a wire-type descriptor stands for: type, nullability, precision and scale.
pub open spec fn type_of_descriptor(s: Seq<char>) -> Option<(Type, bool, Option<i32>, Option<i32>)> {
    let nullable = has_prefix(s, "null::"@);
    match base_type_of(clean_descriptor(s)) {
        Some((ty, precision, scale)) => Some((ty, nullable, precision, scale)),
        None => None,
    }
}

proof fn lemma_digits_value_nonneg(s: Seq<char>)
    requires
        forall|k: int| 0 <= k < s.len() ==> is_ascii_digit(#[trigger] s[k]),
    ensures
        digits_value(s) >= 0,
    decreases s.len(),
{
    if s.len() > 0 {
        lemma_digits_value_nonneg(s.drop_last());
    }
}

proof fn lemma_digits_value_grows(s: Seq<char>, k: int)
    requires
        0 <= k <= s.len(),
        forall|m: int| 0 <= m < s.len() ==> is_ascii_digit(#[trigger] s[m]),
    ensures
        digits_value(s.subrange(0, k)) <= digits_value(s),
    decreases s.len() - k,
{
    if k < s.len() {
        lemma_digits_value_grows(s, k + 1);
        let t = s.subrange(0, k + 1);
        assert(t.drop_last() =~= s.subrange(0, k));
        lemma_digits_value_nonneg(s.subrange(0, k));
    } else {
        assert(s.subrange(0, k) =~= s);
    }
}

proof fn lemma_digits_end_bounds(s: Seq<char>, j: int)
    requires
        0 <= j <= s.len(),
    ensures
        j <= digits_end(s, j) <= s.len(),
        forall|m: int| j <= m < digits_end(s, j) ==> is_ascii_digit(#[trigger] s[m]),
    decreases s.len() - j,
{
    if j < s.len() && is_ascii_digit(s[j]) {
        lemma_digits_end_bounds(s, j + 1);
    }
}

proof fn lemma_skip_space_bounds(s: Seq<char>, i: int)
    requires
        0 <= i <= s.len(),
    ensures
        i <= skip_space(s, i) <= s.len(),
    decreases s.len() - i,
{
    if i < s.len() && is_white_space(s[i]) {
        lemma_skip_space_bounds(s, i + 1);
    }
}

/// The value of the ASCII digits of `s` from `from` to `to`, when it fits an `i32`.
fn digits_to_i32(s: &str, from: usize, to: usize) -> (r: Option<i32>)
    requires
        from <= to <= s@.len(),
        forall|m: int| from <= m < to ==> is_ascii_digit(#[trigger] s@[m]),
    ensures
        r is Some <==> digits_value(s@.subrange(from as int, to as int)) <= i32::MAX,
        r is Some ==> r->0 as int == digits_value(s@.subrange(from as int, to as int)),
{
    let ghost whole = s@.subrange(from as int, to as int);
    let mut acc: i32 = 0;
    let mut i: usize = from;
    assert(s@.subrange(from as int, from as int) =~= Seq::<char>::empty());
    while i < to
        invariant
            from <= i <= to <= s@.len(),
            whole == s@.subrange(from as int, to as int),
            forall|m: int| from <= m < to ==> is_ascii_digit(#[trigger] s@[m]),
            acc as int == digits_value(s@.subrange(from as int, i as int)),
            0 <= acc,
        decreases to - i,
    {
        let c = s.get_char(i);
        assert(is_ascii_digit(s@[i as int]));
        let d = (c as u32 - '0' as u32) as i32;
        let ghost next = s@.subrange(from as int, i + 1);
        assert(next.drop_last() =~= s@.subrange(from as int, i as int));
        assert(whole.subrange(0, i + 1 - from) =~= next);
        if acc > (i32::MAX - d) / 10 {
            proof {
                lemma_digits_value_grows(whole, i + 1 - from);
            }
            return None;
        }
        acc = acc * 10 + d;
        i = i + 1;
    }
    Some(acc)
}

/// The end of the run of ASCII digits that starts at `j`.
fn scan_digits(s: &str, j: usize) -> (r: usize)
    requires
        j <= s@.len(),
    ensures
        r as int == digits_end(s@, j as int),
{
    let n = s.unicode_len();
    let mut k: usize = j;
    while k < n && is_digit_char(s.get_char(k))
        invariant
            n == s@.len(),
            j <= k <= n,
            digits_end(s@, k as int) == digits_end(s@, j as int),
        decreases n - k,
    {
        k = k + 1;
    }
    k
}

fn is_digit_char(c: char) -> (r: bool)
    ensures
        r == is_ascii_digit(c),
{
    '0' <= c && c <= '9'
}

/// The end of the run of white space that starts at `j`.
fn scan_space(s: &str, j: usize) -> (r: usize)
    requires
        j <= s@.len(),
    ensures
        r as int == skip_space(s@, j as int),
{
    let n = s.unicode_len();
    let mut k: usize = j;
    while k < n && white_space(s.get_char(k))
        invariant
            n == s@.len(),
            j <= k <= n,
            skip_space(s@, k as int) == skip_space(s@, j as int),
        decreases n - k,
    {
        k = k + 1;
    }
    k
}

/// The decimal pattern at index `i`, when it stands there.
fn match_decimal_at(s: &str, i: usize) -> (r: Option<(usize, usize, usize, usize)>)
    requires
        i < s@.len(),
    ensures
        match r {
            Some((p, e1, w, e2)) => decimal_at(s@, i as int) == Some(
                (p as int, e1 as int, w as int, e2 as int),
            ),
            None => decimal_at(s@, i as int) is None,
        },
{
    let n = s.unicode_len();
    let rest = s.substring_char(i, n);
    let lit = "decimal(";
    if !starts_with(rest, lit) {
        return None;
    }
    let p = i + lit.unicode_len();
    proof {
        lemma_digits_end_bounds(s@, p as int);
    }
    let e1 = scan_digits(s, p);
    if !(p < e1 && e1 < n && s.get_char(e1) == ',') {
        return None;
    }
    proof {
        lemma_skip_space_bounds(s@, e1 + 1);
    }
    let w = scan_space(s, e1 + 1);
    proof {
        lemma_digits_end_bounds(s@, w as int);
    }
    let e2 = scan_digits(s, w);
    if !(w < e2 && e2 < n && s.get_char(e2) == ')') {
        return None;
    }
    Some((p, e1, w, e2))
}

/// The decimal form, when it spans all of `s`.
fn match_decimal_whole(s: &str) -> (r: Option<(usize, usize, usize, usize)>)
    ensures
        match r {
            Some((p, e1, w, e2)) => decimal_whole(s@) == Some(
                (p as int, e1 as int, w as int, e2 as int),
            ),
            None => decimal_whole(s@) is None,
        },
{
    let n = s.unicode_len();
    if n == 0 {
        return None;
    }
    match match_decimal_at(s, 0) {
        Some((p, e1, w, e2)) => if e2 + 1 == n {
            Some((p, e1, w, e2))
        } else {
            None
        },
        None => None,
    }
}

/// The type that a descriptor without the nullable prefix names.
fn base_type(t: &str) -> (r: Option<Type>)
    ensures
        r == alias_type(t@),
{
    if str_eq(t, "int") {
        Some(Type::Int)
    } else if str_eq(t, "bigint") || str_eq(t, "long") {
        Some(Type::Long)
    } else if str_eq(t, "float4") || str_eq(t, "float") {
        Some(Type::Float)
    } else if str_eq(t, "double") || str_eq(t, "float8") {
        Some(Type::Double)
    } else if str_eq(t, "decimal") {
        Some(Type::Decimal)
    } else if str_eq(t, "text") || str_eq(t, "string") {
        Some(Type::Text)
    } else if str_eq(t, "date") {
        Some(Type::Date)
    } else if str_eq(t, "timestamp") {
        Some(Type::Timestamp)
    } else if str_eq(t, "timestamptz") {
        Some(Type::TimestampTZ)
    } else if str_eq(t, "bool") || str_eq(t, "boolean") {
        Some(Type::Boolean)
    } else if str_eq(t, "bytea") {
        Some(Type::Bytes)
    } else if str_eq(t, "geography") {
        Some(Type::Geography)
    } else if starts_with(t, "struct") {
        Some(Type::Struct)
    } else {
        None
    }
}

/// Reads a wire-type descriptor: `null::` marks a nullable type, a text that is exactly
/// `decimal(p, s)` gives a precision and a scale, a leading `array` an array, and the rest is a
/// fixed table of names.
pub fn parse_type(type_str: &str) -> (r: Result<(Type, bool, Option<i32>, Option<i32>), FireboltError>)
    ensures
        match r {
            Ok(v) => type_of_descriptor(type_str@) == Some(v),
            Err(e) => {
                &&& type_of_descriptor(type_str@) is None
                &&& e is Query
                &&& decimal_whole(clean_descriptor(type_str@)) is None ==> e.text()@
                    == "Unsupported type: "@ + clean_descriptor(type_str@)
            },
        },
{
    let prefix = "null::";
    let is_nullable = starts_with(type_str, prefix);
    let clean_type = if is_nullable {
        type_str.substring_char(prefix.unicode_len(), type_str.unicode_len())
    } else {
        type_str
    };
    match match_decimal_whole(clean_type) {
        Some((p, e1, w, e2)) => {
            proof {
                lemma_decimal_at_digits(clean_type@, 0);
            }
            let precision = match digits_to_i32(clean_type, p, e1) {
                Some(v) => v,
                None => {
                    return Err(FireboltError::Query(String::from_str("Invalid decimal precision")));
                },
            };
            let scale = match digits_to_i32(clean_type, w, e2) {
                Some(v) => v,
                None => {
                    return Err(FireboltError::Query(String::from_str("Invalid decimal scale")));
                },
            };
            Ok((Type::Decimal, is_nullable, Some(precision), Some(scale)))
        },
        None => {
            if starts_with(clean_type, "array") {
                return Ok((Type::Array, is_nullable, None, None));
            }
            match base_type(clean_type) {
                Some(t) => Ok((t, is_nullable, None, None)),
                None => Err(FireboltError::Query(join("Unsupported type: ", clean_type))),
            }
        },
    }
}

/// Where the decimal form stands, its bounds hold digits only.
proof fn lemma_decimal_at_digits(s: Seq<char>, i: int)
    requires
        0 <= i,
    ensures
        decimal_at(s, i) matches Some((p, e1, w, e2)) ==> {
            &&& 0 <= p <= e1 <= w <= e2 <= s.len()
            &&& forall|m: int| p <= m < e1 ==> is_ascii_digit(#[trigger] s[m])
            &&& forall|m: int| w <= m < e2 ==> is_ascii_digit(#[trigger] s[m])
        },
{
    if decimal_at(s, i) is Some {
        let p = i + "decimal("@.len();
        lemma_digits_end_bounds(s, p);
        let e1 = digits_end(s, p);
        lemma_skip_space_bounds(s, e1 + 1);
        let w = skip_space(s, e1 + 1);
        lemma_digits_end_bounds(s, w);
    }
}

/// The column that one entry of the response's `meta` array describes.
pub open spec fn column_of_meta(v: JsonView) -> Option<ColumnView> {
    match field_of(v, "name"@) {
        Some(JsonView::Str(name)) => match field_of(v, "type"@) {
            Some(JsonView::Str(t)) => match type_of_descriptor(t) {
                Some((ty, nullable, precision, scale)) => Some(
                    ColumnView {
                        name,
                        column_type: ty,
                        precision,
                        scale,
                        is_nullable: nullable,
                    },
                ),
                None => None,
            },
            _ => None,
        },
        _ => None,
    }
}

/// The columns that a response document describes, in the order of its `meta` array.
pub open spec fn columns_of_document(doc: JsonView) -> Option<Seq<ColumnView>> {
    match field_of(doc, "meta"@) {
        Some(JsonView::Array(items)) => if forall|i: int|
            0 <= i < items.len() ==> (#[trigger] column_of_meta(items[i])) is Some {
            Some(Seq::new(items.len(), |i: int| column_of_meta(items[i])->0))
        } else {
            None
        },
        _ => None,
    }
}

/// A row of exactly `width` raw values.
pub open spec fn row_fits(v: JsonView, width: nat) -> bool {
    v matches JsonView::Array(values) && values.len() == width
}

/// The first index at or after `i` of an entry of `items` that is no row of `width` values,
/// or the length of `items`.
pub open spec fn first_unfit_from(items: Seq<JsonView>, width: nat, i: int) -> int
    decreases items.len() - i,
{
    if i < 0 || i >= items.len() {
        items.len() as int
    } else if !row_fits(items[i], width) {
        i
    } else {
        first_unfit_from(items, width, i + 1)
    }
}

/// The raw values of each row of a response document, in the order of its `data` array;
/// each row must hold exactly `width` values, one per column.
pub open spec fn rows_of_document(doc: JsonView, width: nat) -> Option<Seq<Seq<JsonView>>> {
    match field_of(doc, "data"@) {
        Some(JsonView::Array(items)) => if forall|i: int|
            0 <= i < items.len() ==> row_fits(#[trigger] items[i], width) {
            Some(Seq::new(items.len(), |i: int| items[i]->Array_0))
        } else {
            None
        },
        _ => None,
    }
}

/// The message of the query error that the rows of a document give: no `data` array, a
/// row that is no array, or a row whose width differs from the number of columns, whichever
/// comes first.
pub open spec fn data_error(doc: JsonView, width: nat) -> Seq<char> {
    match field_of(doc, "data"@) {
        Some(JsonView::Array(items)) => {
            let k = first_unfit_from(items, width, 0);
            if items[k] is Array {
                "Row width does not match the columns"@
            } else {
                "Row data is not an array"@
            }
        },
        _ => "Missing or invalid 'data' field in response"@,
    }
}

/// The result set of `columns` and of rows of `rows`, each described by `columns`.
pub open spec fn result_of(columns: Seq<ColumnView>, rows: Seq<Seq<JsonView>>) -> ResultSetView {
    ResultSetView {
        columns,
        rows: Seq::new(rows.len(), |i: int| RowView { data: rows[i], columns }),
    }
}

/// The result set that a response document decodes to.
pub open spec fn response_of(doc: JsonView) -> Option<ResultSetView> {
    match columns_of_document(doc) {
        Some(columns) => match rows_of_document(doc, columns.len()) {
            Some(rows) => Some(result_of(columns, rows)),
            None => None,
        },
        None => None,
    }
}

fn query_error(msg: &str) -> (r: FireboltError)
    ensures
        r is Query,
        r.text()@ == msg@,
{
    FireboltError::Query(String::from_str(msg))
}

/// The text of the string member `key` of `v`.
fn string_member<'a>(v: &'a JsonValue, key: &str) -> (r: Option<&'a str>)
    ensures
        match r {
            Some(s) => field_of(v@, key@) == Some(JsonView::Str(s@)),
            None => !(field_of(v@, key@) matches Some(JsonView::Str(_))),
        },
{
    match v.get(key) {
        Some(m) => match m.as_str() {
            Some(s) => Some(s),
            None => None,
        },
        None => None,
    }
}

/// Reads the columns of a response document from its `meta` array.
pub fn parse_columns(json: &JsonValue) -> (r: Result<Vec<Column>, FireboltError>)
    ensures
        match r {
            Ok(cols) => columns_of_document(json@) == Some(columns_view(cols@)),
            Err(e) => columns_of_document(json@) is None && e is Query,
        },
{
    let meta = match json.get("meta") {
        Some(m) => m,
        None => {
            return Err(query_error("Missing or invalid 'meta' field in response"));
        },
    };
    let items = match meta.as_array() {
        Some(a) => a,
        None => {
            return Err(query_error("Missing or invalid 'meta' field in response"));
        },
    };
    let ghost views = items@.map_values(|x: JsonValue| x@);
    let mut out: Vec<Column> = Vec::new();
    let mut i: usize = 0;
    while i < items.len()
        invariant
            field_of(json@, "meta"@) == Some(JsonView::Array(views)),
            views == items@.map_values(|x: JsonValue| x@),
            i <= items.len(),
            out.len() == i,
            forall|k: int| 0 <= k < i ==> column_of_meta(views[k]) == Some(#[trigger] out[k]@),
        decreases items.len() - i,
    {
        let col = &items[i];
        assert(views[i as int] == col@);
        let name = match string_member(col, "name") {
            Some(s) => s,
            None => {
                assert(column_of_meta(views[i as int]) is None);
                return Err(query_error("Missing column name"));
            },
        };
        let type_str = match string_member(col, "type") {
            Some(s) => s,
            None => {
                assert(column_of_meta(views[i as int]) is None);
                return Err(query_error("Missing column type"));
            },
        };
        let (column_type, is_nullable, precision, scale) = match parse_type(type_str) {
            Ok(v) => v,
            Err(e) => {
                assert(column_of_meta(views[i as int]) is None);
                return Err(e);
            },
        };
        out.push(Column { name: owned(name), column_type, precision, scale, is_nullable });
        i = i + 1;
    }
    assert forall|k: int| 0 <= k < views.len() implies (#[trigger] column_of_meta(views[k])) is Some by {
        assert(column_of_meta(views[k]) == Some(out[k]@));
    }
    assert(columns_view(out@) =~= Seq::new(views.len(), |k: int| column_of_meta(views[k])->0));
    Ok(out)
}

/// A copy of each raw value, in order.
fn copy_values(values: &Vec<JsonValue>) -> (r: Vec<JsonValue>)
    ensures
        values_view(r@) == values_view(values@),
{
    let mut out: Vec<JsonValue> = Vec::new();
    let mut i: usize = 0;
    while i < values.len()
        invariant
            i <= values.len(),
            out.len() == i,
            forall|k: int| 0 <= k < i ==> (#[trigger] out[k])@ == values[k]@,
        decreases values.len() - i,
    {
        out.push(values[i].duplicate());
        i = i + 1;
    }
    assert(values_view(out@) =~= values_view(values@));
    out
}

/// Reads the rows of a response document from its `data` array; each row is described by
/// `columns`.
pub fn parse_data(json: &JsonValue, columns: &Vec<Column>) -> (r: Result<Vec<Row>, FireboltError>)
    ensures
        match r {
            Ok(rows) => rows_of_document(json@, columns@.len()) matches Some(data) && rows.len()
                == data.len()
                && forall|i: int|
                0 <= i < rows.len() ==> (#[trigger] rows[i])@ == (RowView {
                    data: data[i],
                    columns: columns_view(columns@),
                }),
            Err(e) => {
                &&& rows_of_document(json@, columns@.len()) is None
                &&& e is Query
                &&& e.text()@ == data_error(json@, columns@.len())
            },
        },
{
    let data = match json.get("data") {
        Some(d) => d,
        None => {
            return Err(query_error("Missing or invalid 'data' field in response"));
        },
    };
    let items = match data.as_array() {
        Some(a) => a,
        None => {
            return Err(query_error("Missing or invalid 'data' field in response"));
        },
    };
    let ghost views = items@.map_values(|x: JsonValue| x@);
    let mut out: Vec<Row> = Vec::new();
    let mut i: usize = 0;
    while i < items.len()
        invariant
            field_of(json@, "data"@) == Some(JsonView::Array(views)),
            views == items@.map_values(|x: JsonValue| x@),
            i <= items.len(),
            out.len() == i,
            forall|k: int| 0 <= k < i ==> row_fits(#[trigger] views[k], columns@.len()),
            first_unfit_from(views, columns@.len(), i as int) == first_unfit_from(
                views,
                columns@.len(),
                0,
            ),
            forall|k: int|
                0 <= k < i ==> (#[trigger] out[k])@ == (RowView {
                    data: views[k]->Array_0,
                    columns: columns_view(columns@),
                }),
        decreases items.len() - i,
    {
        assert(views[i as int] == items[i as int]@);
        let values = match items[i].as_array() {
            Some(v) => v,
            None => {
                return Err(query_error("Row data is not an array"));
            },
        };
        if values.len() != columns.len() {
            return Err(query_error("Row width does not match the columns"));
        }
        let row = Row::new(copy_values(values), copy_columns(columns));
        out.push(row);
        i = i + 1;
    }
    Ok(out)
}

/// Decodes a response document into its columns and rows.
pub fn decode_document(json: &JsonValue) -> (r: Result<ResultSet, FireboltError>)
    ensures
        match r {
            Ok(rs) => response_of(json@) == Some(rs@),
            Err(e) => response_of(json@) is None && e is Query,
        },
{
    let columns = match parse_columns(json) {
        Ok(c) => c,
        Err(e) => {
            return Err(e);
        },
    };
    let rows = match parse_data(json, &columns) {
        Ok(r) => r,
        Err(e) => {
            return Err(e);
        },
    };
    let rs = ResultSet { columns, rows };
    proof {
        let cols = columns_of_document(json@)->0;
        let data = rows_of_document(json@, cols.len())->0;
        assert(rs@.rows =~= result_of(cols, data).rows);
    }
    Ok(rs)
}

/// Decodes a response body: JSON text whose `meta` array describes the columns and whose
/// `data` array holds the rows.
pub fn parse_response(body: String) -> (r: Result<ResultSet, FireboltError>)
    ensures
        match json_document(body@) {
            None => r matches Err(e) && e is Serialization && e.text()@ == "Failed to parse JSON"@,
            Some(doc) => match r {
                Ok(rs) => response_of(doc) == Some(rs@),
                Err(e) => response_of(doc) is None && e is Query,
            },
        },
{
    match read_document(body.as_str()) {
        Some(doc) => decode_document(&doc),
        None => Err(FireboltError::Serialization(String::from_str("Failed to parse JSON"))),
    }
}

/// The error that a failed request's body becomes.
pub fn parse_server_error(body: String) -> (r: FireboltError)
    ensures
        r matches FireboltError::Query(m) && m@ == "Server error: "@ + body@,
{
    FireboltError::Query(join("Server error: ", body.as_str()))
}

/// A descriptor with `null::` in front names the same type, precision and scale as the
/// descriptor alone, and is nullable; the descriptor alone is not.
pub proof fn lemma_nullable_prefix(s: Seq<char>)
    requires
        type_of_descriptor(s) is Some,
        !has_prefix(s, "null::"@),
    ensures
        base_type_of(s) matches Some((ty, precision, scale)) && type_of_descriptor(s) == Some(
            (ty, false, precision, scale),
        ) && type_of_descriptor("null::"@ + s) == Some((ty, true, precision, scale)),
{
    let n = "null::"@;
    assert((n + s).subrange(0, n.len() as int) =~= n);
    assert((n + s).subrange(n.len() as int, (n + s).len() as int) =~= s);
}

/// A document without a `meta` array or without a `data` array decodes to nothing, so
/// `parse_response` fails on it with a query error; text that is no JSON fails with a
/// serialization error before that.
pub proof fn lemma_missing_meta_or_data_fails(doc: JsonView)
    requires
        !(field_of(doc, "meta"@) matches Some(JsonView::Array(_))) || !(field_of(
            doc,
            "data"@,
        ) matches Some(JsonView::Array(_))),
    ensures
        response_of(doc) is None,
{
}

} // verus!
