//! Wire types, column metadata and column references.
use vstd::prelude::*;

verus! {

/// The kinds of value that a result column can hold.
#[derive(Debug, Clone, Copy, PartialEq, Eq, Structural)]
pub enum Type {
    Int,
    Long,
    Float,
    Double,
    Decimal,
    Text,
    Date,
    Timestamp,
    TimestampTZ,
    Boolean,
    Array,
    Struct,
    Geography,
    Bytes,
}

/// One column of a result: its name, its wire type, and the precision and scale of a decimal.
#[derive(Debug, PartialEq)]
pub struct Column {
    pub name: String,
    pub column_type: Type,
    pub precision: Option<i32>,
    pub scale: Option<i32>,
    pub is_nullable: bool,
}

/// The mathematical form of a `Column`.
pub struct ColumnView {
    pub name: Seq<char>,
    pub column_type: Type,
    pub precision: Option<i32>,
    pub scale: Option<i32>,
    pub is_nullable: bool,
}

impl View for Column {
    type V = ColumnView;

    open spec fn view(&self) -> ColumnView {
        ColumnView {
            name: self.name@,
            column_type: self.column_type,
            precision: self.precision,
            scale: self.scale,
            is_nullable: self.is_nullable,
        }
    }
}

impl Column {
    /// A copy of the column.
    pub fn duplicate(&self) -> (r: Column)
        ensures
            r@ == self@,
    {
        Column {
            name: self.name.clone(),
            column_type: self.column_type,
            precision: self.precision,
            scale: self.scale,
            is_nullable: self.is_nullable,
        }
    }
}

/// The views of a sequence of columns.
pub open spec fn columns_view(cols: Seq<Column>) -> Seq<ColumnView> {
    cols.map_values(|c: Column| c@)
}

/// A copy of each column, in order.
pub fn copy_columns(cols: &Vec<Column>) -> (r: Vec<Column>)
    ensures
        columns_view(r@) == columns_view(cols@),
{
    let mut out: Vec<Column> = Vec::new();
    let mut i: usize = 0;
    while i < cols.len()
        invariant
            i <= cols.len(),
            out.len() == i,
            forall|k: int| 0 <= k < i ==> out[k]@ == cols[k]@,
        decreases cols.len() - i,
    {
        out.push(cols[i].duplicate());
        i = i + 1;
    }
    assert(columns_view(out@) =~= columns_view(cols@));
    out
}

/// A column named by its position, from zero, or by its name.
#[derive(Debug)]
pub enum ColumnRef {
    Index(usize),
    Name(String),
}

impl From<usize> for ColumnRef {
    fn from(index: usize) -> (r: ColumnRef)
        ensures
            r == ColumnRef::Index(index),
    {
        ColumnRef::Index(index)
    }
}

impl vstd::std_specs::convert::FromSpecImpl<usize> for ColumnRef {
    open spec fn obeys_from_spec() -> bool {
        true
    }

    open spec fn from_spec(v: usize) -> ColumnRef {
        ColumnRef::Index(v)
    }
}

impl From<String> for ColumnRef {
    fn from(name: String) -> (r: ColumnRef)
        ensures
            r == ColumnRef::Name(name),
    {
        ColumnRef::Name(name)
    }
}

impl vstd::std_specs::convert::FromSpecImpl<String> for ColumnRef {
    open spec fn obeys_from_spec() -> bool {
        true
    }

    open spec fn from_spec(v: String) -> ColumnRef {
        ColumnRef::Name(v)
    }
}

impl<'a> From<&'a str> for ColumnRef {
    fn from(name: &'a str) -> (r: ColumnRef)
        ensures
            r matches ColumnRef::Name(n) && n@ == name@,
    {
        ColumnRef::Name(String::from_str(name))
    }
}

/// The characters of a reference by name; empty for one by position.
pub open spec fn name_of(r: ColumnRef) -> Seq<char> {
    match r {
        ColumnRef::Name(n) => n@,
        ColumnRef::Index(_) => Seq::empty(),
    }
}

impl<'a> vstd::std_specs::convert::FromSpecImpl<&'a str> for ColumnRef {
    /// Two `String`s with the same characters need not be one value, so `from` is described
    /// by its own `ensures` instead.
    open spec fn obeys_from_spec() -> bool {
        false
    }

    open spec fn from_spec(v: &'a str) -> ColumnRef {
        choose|r: ColumnRef| #[trigger] name_of(r) == v@
    }
}

} // verus!
