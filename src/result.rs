//! Result sets and rows, read column by column on demand.
use vstd::prelude::*;
use crate::convert::TypeConversion;
use crate::error::FireboltError;
use crate::json::{JsonValue, JsonView};
use crate::text::{decimal_text, join, str_eq, usize_text};
use crate::types::{Column, ColumnRef, ColumnView, columns_view};

verus! {

/// The columns of a result and its rows.
#[derive(Debug)]
pub struct ResultSet {
    pub columns: Vec<Column>,
    pub rows: Vec<Row>,
}

/// One row: the raw values, in column order, and the columns that describe them.
#[derive(Debug)]
pub struct Row {
    data: Vec<JsonValue>,
    columns: Vec<Column>,
}

/// The mathematical form of a `Row`.
pub struct RowView {
    pub data: Seq<JsonView>,
    pub columns: Seq<ColumnView>,
}

/// The views of a sequence of raw values.
pub open spec fn values_view(values: Seq<JsonValue>) -> Seq<JsonView> {
    values.map_values(|v: JsonValue| v@)
}

impl View for Row {
    type V = RowView;

    closed spec fn view(&self) -> RowView {
        RowView { data: values_view(self.data@), columns: columns_view(self.columns@) }
    }
}

/// The mathematical form of a `ResultSet`.
pub struct ResultSetView {
    pub columns: Seq<ColumnView>,
    pub rows: Seq<RowView>,
}

impl View for ResultSet {
    type V = ResultSetView;

    open spec fn view(&self) -> ResultSetView {
        ResultSetView {
            columns: columns_view(self.columns@),
            rows: self.rows@.map_values(|r: Row| r@),
        }
    }
}

/// The first position from `i` on of a column named `name`.
pub open spec fn position_of_name_from(cols: Seq<ColumnView>, name: Seq<char>, i: int) -> Option<int>
    decreases cols.len() - i,
{
    if i < 0 || i >= cols.len() {
        None
    } else if cols[i].name == name {
        Some(i)
    } else {
        position_of_name_from(cols, name, i + 1)
    }
}

/// The position that a column reference resolves to: an index within the columns, or the
/// first column of that name.
pub open spec fn resolve_column(cols: Seq<ColumnView>, column_ref: ColumnRef) -> Option<int> {
    match column_ref {
        ColumnRef::Index(i) => if i < cols.len() {
            Some(i as int)
        } else {
            None
        },
        ColumnRef::Name(n) => position_of_name_from(cols, n@, 0),
    }
}

/// The message for a position that a row does not have.
pub open spec fn index_error(i: nat) -> Seq<char> {
    "Column index "@ + decimal_text(i) + " out of bounds"@
}

/// The message for a column reference that resolves to no column.
pub open spec fn lookup_error(column_ref: ColumnRef) -> Seq<char> {
    match column_ref {
        ColumnRef::Index(i) => index_error(i as nat),
        ColumnRef::Name(n) => "Column '"@ + n@ + "' not found"@,
    }
}

fn index_error_exec(i: usize) -> (r: FireboltError)
    ensures
        r is Query,
        r.text()@ == index_error(i as nat),
{
    let head = join("Column index ", usize_text(i).as_str());
    FireboltError::Query(join(head.as_str(), " out of bounds"))
}

/// What `get` gives on a row: a query error where the column cannot be found or the row has
/// no value for it; otherwise the conversion of the value under the column's type.
pub open spec fn get_result<T: TypeConversion>(
    row: RowView,
    column_ref: ColumnRef,
    r: Result<T, FireboltError>,
) -> bool {
    match resolve_column(row.columns, column_ref) {
        None => r matches Err(e) && e is Query && e.text()@ == lookup_error(column_ref),
        Some(i) => if i >= row.data.len() {
            r matches Err(e) && e is Query && e.text()@ == index_error(i as nat)
        } else {
            T::converts(row.data[i], row.columns[i].column_type, r)
        },
    }
}

proof fn lemma_position_bounds(cols: Seq<ColumnView>, name: Seq<char>, i: int)
    requires
        0 <= i,
    ensures
        position_of_name_from(cols, name, i) matches Some(k) ==> i <= k < cols.len() && cols[k].name
            == name,
    decreases cols.len() - i,
{
    if i < cols.len() && cols[i].name != name {
        lemma_position_bounds(cols, name, i + 1);
    }
}

impl Row {
    /// A row of `data`, described by `columns`.
    pub fn new(data: Vec<JsonValue>, columns: Vec<Column>) -> (r: Row)
        ensures
            r@ == (RowView { data: values_view(data@), columns: columns_view(columns@) }),
    {
        Row { data, columns }
    }

    /// The number of raw values in the row.
    pub fn len(&self) -> (r: usize)
        ensures
            r == self@.data.len(),
    {
        self.data.len()
    }

    /// The columns that describe the row.
    pub fn columns(&self) -> (r: &Vec<Column>)
        ensures
            columns_view(r@) == self@.columns,
    {
        &self.columns
    }

    /// The position of the column that `column_ref` names.
    fn resolve(&self, column_ref: &ColumnRef) -> (r: Result<usize, FireboltError>)
        ensures
            match r {
                Ok(i) => resolve_column(self@.columns, *column_ref) == Some(i as int) && i
                    < self.columns.len(),
                Err(e) => resolve_column(self@.columns, *column_ref) is None && e is Query
                    && e.text()@ == lookup_error(*column_ref),
            },
    {
        assert(self@.columns.len() == self.columns.len());
        proof {
            if let ColumnRef::Name(n) = column_ref {
                lemma_position_bounds(self@.columns, n@, 0);
            }
        }
        match column_ref {
            ColumnRef::Index(i) => {
                if *i < self.columns.len() {
                    Ok(*i)
                } else {
                    Err(index_error_exec(*i))
                }
            },
            ColumnRef::Name(name) => {
                let mut k: usize = 0;
                while k < self.columns.len()
                    invariant
                        k <= self.columns.len(),
                        *column_ref == ColumnRef::Name(*name),
                        self@.columns.len() == self.columns.len(),
                        position_of_name_from(self@.columns, name@, k as int)
                            == position_of_name_from(self@.columns, name@, 0),
                    decreases self.columns.len() - k,
                {
                    assert(self@.columns[k as int] == self.columns@[k as int]@);
                    if str_eq(self.columns[k].name.as_str(), name.as_str()) {
                        return Ok(k);
                    }
                    k = k + 1;
                }
                let head = join("Column '", name.as_str());
                Err(FireboltError::Query(join(head.as_str(), "' not found")))
            },
        }
    }

    /// The value of the column that `column_ref` names, read as a `T`.
    pub fn get<T: TypeConversion>(&self, column_ref: ColumnRef) -> (r: Result<T, FireboltError>)
        ensures
            get_result(self@, column_ref, r),
    {
        let index = match self.resolve(&column_ref) {
            Ok(i) => i,
            Err(e) => {
                return Err(e);
            },
        };
        assert(self@.data.len() == self.data.len());
        if index >= self.data.len() {
            return Err(index_error_exec(index));
        }
        assert(self@.data[index as int] == self.data@[index as int]@);
        assert(self@.columns[index as int] == self.columns@[index as int]@);
        T::convert_from_json(&self.data[index], &self.columns[index].column_type)
    }
}

/// A null value read as an optional integer is no value, whatever the declared type of its
/// column; read as a plain integer it is a serialization error.
pub proof fn lemma_null_reads_as_no_value(
    row: RowView,
    column_ref: ColumnRef,
    optional: Result<Option<i32>, FireboltError>,
    plain: Result<i32, FireboltError>,
)
    requires
        resolve_column(row.columns, column_ref) matches Some(i) && i < row.data.len()
            && row.data[i] is Null,
    ensures
        get_result(row, column_ref, optional) <==> optional == Ok::<Option<i32>, FireboltError>(
            None,
        ),
        get_result(row, column_ref, plain) ==> (plain matches Err(e) && e is Serialization),
{
}

} // verus!
