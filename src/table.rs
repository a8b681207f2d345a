//! Conversion of raw result rows into a typed, column-oriented table.
//!
//! Each result cell arrives tagged with the storage kind SQLite reported for
//! it. A column's type is inferred from the kinds actually present, by the
//! fixed priority float, integer, text, binary; cells of a kind that loses
//! become absent instead of failing the query.

use vstd::prelude::*;
use crate::text::str_equal;

verus! {

/// One cell of a result row, in the storage kind the database reported.
///
/// A double is carried as its IEEE-754 binary64 bit pattern.
#[derive(Debug, Clone)]
pub enum ColumnValue {
    Null,
    Integer(i64),
    Real(u64),
    Text(String),
    Blob(Vec<u8>),
}

/// A present value of a floating-point column: either a stored double (its
/// bit pattern) or an integer cell that is to be widened to a double.
#[derive(Debug, Clone, Copy, PartialEq, Eq, Structural)]
pub enum FloatCell {
    Real(u64),
    Widened(i64),
}

/// The semantic type inferred for a column.
#[derive(Debug, Clone, Copy, PartialEq, Eq, Structural)]
pub enum ColumnKind {
    Float,
    Int,
    Text,
    Binary,
}

/// The row-aligned values of one column, all of the column's type.
#[derive(Debug, Clone)]
pub enum ColumnData {
    Float(Vec<Option<FloatCell>>),
    Int(Vec<Option<i64>>),
    Text(Vec<Option<String>>),
    Binary(Vec<Option<Vec<u8>>>),
}

/// A named column of a [`Table`].
#[derive(Debug, Clone)]
pub struct Column {
    pub name: String,
    pub data: ColumnData,
}

/// Why a table could not be assembled from result rows.
#[derive(Debug, Clone, Copy, PartialEq, Eq, Structural)]
pub enum TabulizeError {
    /// Row `row` holds `found` cells where the result has `expected` columns.
    RowWidth { row: usize, expected: usize, found: usize },
}

/// A typed, column-oriented query result; all columns have the same length.
#[derive(Debug, Clone)]
pub struct Table {
    columns: Vec<Column>,
    height: usize,
}

pub open spec fn has_real(vs: Seq<ColumnValue>) -> bool {
    exists|i: int| 0 <= i < vs.len() && #[trigger] vs[i] is Real
}

pub open spec fn has_integer(vs: Seq<ColumnValue>) -> bool {
    exists|i: int| 0 <= i < vs.len() && #[trigger] vs[i] is Integer
}

pub open spec fn has_text(vs: Seq<ColumnValue>) -> bool {
    exists|i: int| 0 <= i < vs.len() && #[trigger] vs[i] is Text
}

pub open spec fn has_blob(vs: Seq<ColumnValue>) -> bool {
    exists|i: int| 0 <= i < vs.len() && #[trigger] vs[i] is Blob
}

/// The type a column of these cells gets: the first present kind in the
/// order float, integer, text, binary; text when every cell is absent.
pub open spec fn inferred_kind(vs: Seq<ColumnValue>) -> ColumnKind {
    if has_real(vs) {
        ColumnKind::Float
    } else if has_integer(vs) {
        ColumnKind::Int
    } else if has_text(vs) {
        ColumnKind::Text
    } else if has_blob(vs) {
        ColumnKind::Binary
    } else {
        ColumnKind::Text
    }
}

/// A cell as seen by a floating-point column: integers are widened.
pub open spec fn float_cell(v: ColumnValue) -> Option<FloatCell> {
    match v {
        ColumnValue::Real(b) => Some(FloatCell::Real(b)),
        ColumnValue::Integer(i) => Some(FloatCell::Widened(i)),
        _ => None,
    }
}

pub open spec fn int_cell(v: ColumnValue) -> Option<i64> {
    match v {
        ColumnValue::Integer(i) => Some(i),
        _ => None,
    }
}

pub open spec fn text_cell(v: ColumnValue) -> Option<String> {
    match v {
        ColumnValue::Text(s) => Some(s),
        _ => None,
    }
}

pub open spec fn blob_cell(v: ColumnValue) -> Option<Vec<u8>> {
    match v {
        ColumnValue::Blob(b) => Some(b),
        _ => None,
    }
}

/// The kind of a column's data.
pub open spec fn data_kind(d: ColumnData) -> ColumnKind {
    match d {
        ColumnData::Float(_) => ColumnKind::Float,
        ColumnData::Int(_) => ColumnKind::Int,
        ColumnData::Text(_) => ColumnKind::Text,
        ColumnData::Binary(_) => ColumnKind::Binary,
    }
}

/// Number of rows in a column's data.
pub open spec fn data_len(d: ColumnData) -> nat {
    match d {
        ColumnData::Float(c) => c@.len(),
        ColumnData::Int(c) => c@.len(),
        ColumnData::Text(c) => c@.len(),
        ColumnData::Binary(c) => c@.len(),
    }
}

/// `d` is the typed column built from the cells `vs`: it has the inferred
/// type, one entry per cell in order, and each entry is the cell read as
/// that type (absent where the cell is absent or of a losing kind).
pub open spec fn column_from_cells(d: ColumnData, vs: Seq<ColumnValue>) -> bool {
    &&& data_kind(d) == inferred_kind(vs)
    &&& match d {
        ColumnData::Float(c) => c@ == vs.map_values(|v: ColumnValue| float_cell(v)),
        ColumnData::Int(c) => c@ == vs.map_values(|v: ColumnValue| int_cell(v)),
        ColumnData::Text(c) => c@ == vs.map_values(|v: ColumnValue| text_cell(v)),
        ColumnData::Binary(c) => c@ == vs.map_values(|v: ColumnValue| blob_cell(v)),
    }
}

/// The cells of column `c` across `rows`, in row order.
pub open spec fn column_of(rows: Seq<Vec<ColumnValue>>, c: int) -> Seq<ColumnValue> {
    Seq::new(rows.len(), |r: int| rows[r]@[c])
}

/// Every row holds exactly `width` cells.
pub open spec fn rows_have_width(rows: Seq<Vec<ColumnValue>>, width: nat) -> bool {
    forall|r: int| 0 <= r < rows.len() ==> (#[trigger] rows[r])@.len() == width
}

impl ColumnData {
    /// Number of rows in this column.
    pub fn len(&self) -> (r: usize)
        ensures
            r == data_len(*self),
    {
        match self {
            ColumnData::Float(c) => c.len(),
            ColumnData::Int(c) => c.len(),
            ColumnData::Text(c) => c.len(),
            ColumnData::Binary(c) => c.len(),
        }
    }

    /// The inferred type of this column.
    pub fn kind(&self) -> (r: ColumnKind)
        ensures
            r == data_kind(*self),
    {
        match self {
            ColumnData::Float(_) => ColumnKind::Float,
            ColumnData::Int(_) => ColumnKind::Int,
            ColumnData::Text(_) => ColumnKind::Text,
            ColumnData::Binary(_) => ColumnKind::Binary,
        }
    }
}

/// Builds a typed column from the cells of one result column, inferring the
/// column's type from the kinds present.
pub fn build_series(name: String, values: Vec<ColumnValue>) -> (r: Column)
    ensures
        r.name == name,
        column_from_cells(r.data, values@),
{
    let mut has_integer_kind = false;
    let mut has_real_kind = false;
    let mut has_text_kind = false;
    let mut has_blob_kind = false;
    let mut i: usize = 0;
    while i < values.len()
        invariant
            i <= values.len(),
            has_integer_kind == has_integer(values@.take(i as int)),
            has_real_kind == has_real(values@.take(i as int)),
            has_text_kind == has_text(values@.take(i as int)),
            has_blob_kind == has_blob(values@.take(i as int)),
        decreases values.len() - i,
    {
        let ghost prev = values@.take(i as int);
        let ghost next = values@.take(i + 1);
        assert(next == prev.push(values@[i as int]));
        match &values[i] {
            ColumnValue::Integer(_) => has_integer_kind = true,
            ColumnValue::Real(_) => has_real_kind = true,
            ColumnValue::Text(_) => has_text_kind = true,
            ColumnValue::Blob(_) => has_blob_kind = true,
            ColumnValue::Null => {},
        }
        proof {
            assert(forall|j: int| 0 <= j < prev.len() ==> prev[j] == #[trigger] next[j]);
            if has_integer(next) && !(values@[i as int] is Integer) {
                let j = choose|j: int| 0 <= j < next.len() && #[trigger] next[j] is Integer;
                assert(prev[j] is Integer);
            }
            if has_real(next) && !(values@[i as int] is Real) {
                let j = choose|j: int| 0 <= j < next.len() && #[trigger] next[j] is Real;
                assert(prev[j] is Real);
            }
            if has_text(next) && !(values@[i as int] is Text) {
                let j = choose|j: int| 0 <= j < next.len() && #[trigger] next[j] is Text;
                assert(prev[j] is Text);
            }
            if has_blob(next) && !(values@[i as int] is Blob) {
                let j = choose|j: int| 0 <= j < next.len() && #[trigger] next[j] is Blob;
                assert(prev[j] is Blob);
            }
            if values@[i as int] is Integer {
                assert(next[i as int] is Integer);
            }
            if values@[i as int] is Real {
                assert(next[i as int] is Real);
            }
            if values@[i as int] is Text {
                assert(next[i as int] is Text);
            }
            if values@[i as int] is Blob {
                assert(next[i as int] is Blob);
            }
        }
        i = i + 1;
    }
    assert(values@.take(values.len() as int) == values@);
    let ghost vs = values@;
    let data = if has_real_kind {
        let mut out: Vec<Option<FloatCell>> = Vec::new();
        for v in it: values.into_iter()
            invariant
                it.seq() == vs,
                out@ == vs.take(it.index() as int).map_values(|v: ColumnValue| float_cell(v)),
        {
            let ghost k = it.index();
            assert(vs.take(k + 1) == vs.take(k as int).push(v));
            let cell = match v {
                ColumnValue::Real(f) => Some(FloatCell::Real(f)),
                ColumnValue::Integer(n) => Some(FloatCell::Widened(n)),
                _ => None,
            };
            out.push(cell);
            assert(out@ =~= vs.take(k + 1).map_values(|v: ColumnValue| float_cell(v)));
        }
        assert(vs.take(vs.len() as int) == vs);
        ColumnData::Float(out)
    } else if has_integer_kind {
        let mut out: Vec<Option<i64>> = Vec::new();
        for v in it: values.into_iter()
            invariant
                it.seq() == vs,
                out@ == vs.take(it.index() as int).map_values(|v: ColumnValue| int_cell(v)),
        {
            let ghost k = it.index();
            assert(vs.take(k + 1) == vs.take(k as int).push(v));
            let cell = match v {
                ColumnValue::Integer(n) => Some(n),
                _ => None,
            };
            out.push(cell);
            assert(out@ =~= vs.take(k + 1).map_values(|v: ColumnValue| int_cell(v)));
        }
        assert(vs.take(vs.len() as int) == vs);
        ColumnData::Int(out)
    } else if has_text_kind || !has_blob_kind {
        let mut out: Vec<Option<String>> = Vec::new();
        for v in it: values.into_iter()
            invariant
                it.seq() == vs,
                out@ == vs.take(it.index() as int).map_values(|v: ColumnValue| text_cell(v)),
        {
            let ghost k = it.index();
            assert(vs.take(k + 1) == vs.take(k as int).push(v));
            let cell = match v {
                ColumnValue::Text(s) => Some(s),
                _ => None,
            };
            out.push(cell);
            assert(out@ =~= vs.take(k + 1).map_values(|v: ColumnValue| text_cell(v)));
        }
        assert(vs.take(vs.len() as int) == vs);
        ColumnData::Text(out)
    } else {
        let mut out: Vec<Option<Vec<u8>>> = Vec::new();
        for v in it: values.into_iter()
            invariant
                it.seq() == vs,
                out@ == vs.take(it.index() as int).map_values(|v: ColumnValue| blob_cell(v)),
        {
            let ghost k = it.index();
            assert(vs.take(k + 1) == vs.take(k as int).push(v));
            let cell = match v {
                ColumnValue::Blob(b) => Some(b),
                _ => None,
            };
            out.push(cell);
            assert(out@ =~= vs.take(k + 1).map_values(|v: ColumnValue| blob_cell(v)));
        }
        assert(vs.take(vs.len() as int) == vs);
        ColumnData::Binary(out)
    };
    Column { name, data }
}

impl Table {
    /// Every column has `height` rows.
    pub closed spec fn wf(&self) -> bool {
        forall|c: int| 0 <= c < self.columns@.len() ==> data_len(
            (#[trigger] self.columns@[c]).data,
        ) == self.height
    }

    pub closed spec fn spec_columns(&self) -> Seq<Column> {
        self.columns@
    }

    pub closed spec fn spec_height(&self) -> nat {
        self.height as nat
    }

    /// Number of rows.
    pub fn height(&self) -> (r: usize)
        ensures
            r == self.spec_height(),
    {
        self.height
    }

    /// Number of columns.
    pub fn width(&self) -> (r: usize)
        ensures
            r == self.spec_columns().len(),
    {
        self.columns.len()
    }

    /// The columns, in result order.
    pub fn columns(&self) -> (r: &Vec<Column>)
        ensures
            r@ == self.spec_columns(),
    {
        &self.columns
    }

    /// The first column named `name`, if any.
    pub fn column(&self, name: &str) -> (r: Option<&Column>)
        ensures
            match r {
                Some(c) => exists|i: int|
                    {
                        &&& 0 <= i < self.spec_columns().len()
                        &&& *c == #[trigger] self.spec_columns()[i]
                        &&& c.name@ == name@
                        &&& forall|j: int|
                            0 <= j < i ==> (#[trigger] self.spec_columns()[j]).name@ != name@
                    },
                None => forall|j: int|
                    0 <= j < self.spec_columns().len() ==> (#[trigger] self.spec_columns()[j]).name@
                        != name@,
            },
    {
        let mut i: usize = 0;
        while i < self.columns.len()
            invariant
                i <= self.columns@.len(),
                forall|j: int| 0 <= j < i ==> (#[trigger] self.columns@[j]).name@ != name@,
            decreases self.columns.len() - i,
        {
            if str_equal(self.columns[i].name.as_str(), name) {
                return Some(&self.columns[i]);
            }
            i = i + 1;
        }
        None
    }

    /// Consumes the table and hands out its columns.
    pub fn into_columns(self) -> (r: Vec<Column>)
        ensures
            r@ == self.spec_columns(),
    {
        self.columns
    }
}

/// The index of the first row whose width is not `width`, if any.
pub open spec fn first_bad_row(rows: Seq<Vec<ColumnValue>>, width: nat, r: int) -> bool {
    &&& 0 <= r < rows.len()
    &&& rows[r]@.len() != width
    &&& forall|q: int| 0 <= q < r ==> (#[trigger] rows[q])@.len() == width
}

/// `r` is the table built from the result columns `names` and the result
/// `rows`: when every row holds one cell per column, a table of one column
/// per name, in order, each typed from its own cells, with one entry per row
/// in row order; otherwise the error naming the first row that does not.
pub open spec fn tabulates(
    names: Seq<String>,
    rows: Seq<Vec<ColumnValue>>,
    r: Result<Table, TabulizeError>,
) -> bool {
    match r {
        Ok(t) => {
            &&& rows_have_width(rows, names.len())
            &&& t.spec_height() == rows.len()
            &&& t.spec_columns().len() == names.len()
            &&& forall|c: int|
                0 <= c < names.len() ==> {
                    &&& (#[trigger] t.spec_columns()[c]).name == names[c]
                    &&& column_from_cells(t.spec_columns()[c].data, column_of(rows, c))
                }
        },
        Err(TabulizeError::RowWidth { row, expected, found }) => {
            &&& first_bad_row(rows, names.len(), row as int)
            &&& expected == names.len()
            &&& found == rows[row as int]@.len()
        },
    }
}

/// Builds a table from the names of the result columns and the result rows,
/// each a sequence of cells in column order.
///
/// Fails exactly when some row does not hold one cell per column, naming
/// the first such row; otherwise every column keeps its name and position,
/// holds one entry per row in row order, and is typed from its own cells.
pub fn rows_to_table(column_names: Vec<String>, rows: Vec<Vec<ColumnValue>>) -> (r: Result<
    Table,
    TabulizeError,
>)
    ensures
        tabulates(column_names@, rows@, r),
{
    let width = column_names.len();
    let height = rows.len();
    let mut r: usize = 0;
    while r < height
        invariant
            height == rows@.len(),
            width == column_names@.len(),
            r <= height,
            forall|q: int| 0 <= q < r ==> (#[trigger] rows@[q])@.len() == width,
        decreases height - r,
    {
        let found = rows[r].len();
        if found != width {
            return Err(TabulizeError::RowWidth { row: r, expected: width, found });
        }
        r = r + 1;
    }
    let ghost rs = rows@;
    let mut buffers: Vec<Vec<ColumnValue>> = Vec::new();
    let mut c: usize = 0;
    while c < width
        invariant
            c <= width,
            buffers@.len() == c,
            forall|k: int| 0 <= k < c ==> (#[trigger] buffers@[k])@.len() == 0,
        decreases width - c,
    {
        buffers.push(Vec::new());
        c = c + 1;
    }
    for row in it: rows.into_iter()
        invariant
            it.seq() == rs,
            rs.len() == height,
            rows_have_width(rs, width as nat),
            buffers@.len() == width,
            forall|k: int|
                0 <= k < width ==> (#[trigger] buffers@[k])@ == column_of(
                    rs.take(it.index() as int),
                    k,
                ),
    {
        let ghost n = it.index();
        assert(row@.len() == width);
        let ghost before = buffers@;
        let mut k: usize = 0;
        for v in cells: row.into_iter()
            invariant
                cells.seq() == row@,
                row@.len() == width,
                k == cells.index(),
                buffers@.len() == width,
                forall|j: int|
                    0 <= j < k ==> (#[trigger] buffers@[j])@ == before[j]@.push(row@[j]),
                forall|j: int| k <= j < width ==> (#[trigger] buffers@[j])@ == before[j]@,
        {
            buffers[k].push(v);
            k = k + 1;
        }
        proof {
            assert forall|j: int| 0 <= j < width implies (#[trigger] buffers@[j])@ == column_of(
                rs.take(n + 1),
                j,
            ) by {
                assert(rs.take(n + 1)[n as int] == row);
                assert(buffers@[j]@ =~= column_of(rs.take(n + 1), j));
            }
        }
    }
    assert(rs.take(height as int) == rs);
    let ghost bufs = buffers@;
    let mut columns: Vec<Column> = Vec::new();
    let ghost names = column_names@;
    let mut k: usize = 0;
    for name in it: column_names.into_iter()
        invariant
            it.seq() == names,
            names.len() == width,
            k == it.index(),
            columns@.len() == k,
            buffers@.len() == width,
            forall|j: int| k <= j < width ==> (#[trigger] buffers@[j]) == bufs[j],
            forall|j: int|
                0 <= j < width ==> (#[trigger] bufs[j])@ == column_of(rs, j),
            forall|j: int|
                0 <= j < k ==> {
                    &&& (#[trigger] columns@[j]).name == names[j]
                    &&& column_from_cells(columns@[j].data, column_of(rs, j))
                },
    {
        let mut values: Vec<ColumnValue> = Vec::new();
        buffers.set_and_swap(k, &mut values);
        let column = build_series(name, values);
        proof {
            assert(data_len(column.data) == column_of(rs, k as int).len());
        }
        columns.push(column);
        k = k + 1;
    }
    let table = Table { columns, height };
    assert forall|c: int| 0 <= c < table.columns@.len() implies data_len(
        (#[trigger] table.columns@[c]).data,
    ) == table.height by {
        assert(column_of(rs, c).len() == height);
    }
    Ok(table)
}

/// A result without rows gives a table with one column per result column,
/// in order and under its name, no rows, and every column of the all-absent
/// fallback type, text.
pub proof fn lemma_zero_rows_table(names: Seq<String>, r: Result<Table, TabulizeError>)
    requires
        tabulates(names, Seq::empty(), r),
    ensures
        r is Ok,
        r->Ok_0.spec_height() == 0,
        r->Ok_0.spec_columns().len() == names.len(),
        forall|c: int|
            0 <= c < names.len() ==> {
                &&& (#[trigger] r->Ok_0.spec_columns()[c]).name == names[c]
                &&& data_kind(r->Ok_0.spec_columns()[c].data) == ColumnKind::Text
                &&& data_len(r->Ok_0.spec_columns()[c].data) == 0
            },
{
    match r {
        Ok(t) => {
            assert forall|c: int| 0 <= c < names.len() implies {
                &&& (#[trigger] t.spec_columns()[c]).name == names[c]
                &&& data_kind(t.spec_columns()[c].data) == ColumnKind::Text
                &&& data_len(t.spec_columns()[c].data) == 0
            } by {
                let vs = column_of(Seq::empty(), c);
                assert(vs.len() == 0);
                assert(!has_real(vs) && !has_integer(vs) && !has_text(vs) && !has_blob(vs));
                match t.spec_columns()[c].data {
                    ColumnData::Text(col) => {
                        assert(col@ == vs.map_values(|v: ColumnValue| text_cell(v)));
                    },
                    _ => {},
                }
            }
        },
        Err(TabulizeError::RowWidth { row, .. }) => {
            assert(first_bad_row(Seq::empty(), names.len(), row as int));
        },
    }
}

/// A column holding both integer and floating-point cells becomes a
/// floating-point column with one entry per cell: each double kept, each
/// integer widened, each absent cell absent; no row is dropped.
pub proof fn lemma_mixed_numeric_column(vs: Seq<ColumnValue>, d: ColumnData)
    requires
        column_from_cells(d, vs),
        has_real(vs),
        has_integer(vs),
    ensures
        d is Float,
        data_len(d) == vs.len(),
        forall|i: int|
            0 <= i < vs.len() ==> match #[trigger] vs[i] {
                ColumnValue::Integer(n) => d->Float_0@[i] == Some(FloatCell::Widened(n)),
                ColumnValue::Real(b) => d->Float_0@[i] == Some(FloatCell::Real(b)),
                _ => d->Float_0@[i] is None,
            },
{
}

/// A column holding integer and text cells but no double becomes an integer
/// column: integer cells keep their value and text cells become absent,
/// without an error.
pub proof fn lemma_integer_wins_over_text(vs: Seq<ColumnValue>, d: ColumnData)
    requires
        column_from_cells(d, vs),
        !has_real(vs),
        has_integer(vs),
    ensures
        d is Int,
        data_len(d) == vs.len(),
        forall|i: int|
            0 <= i < vs.len() ==> match #[trigger] vs[i] {
                ColumnValue::Integer(n) => d->Int_0@[i] == Some(n),
                _ => d->Int_0@[i] is None,
            },
{
}

} // verus!
