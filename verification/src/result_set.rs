//! The paginated result-set reader: a forward-only cursor with typed
//! per-column accessors over one page of query rows.
//!
//! The reader owns the schema and rows of one query response.  Its cursor
//! starts before the first row, moves only through [`ResultSet::advance`],
//! and once the rows run out it stays exhausted: further advances return
//! `false` and accessors fail.  Accessors address a column of the current
//! row by index or by name and convert the wire-format cell into the
//! requested native type.

use crate::model::CellValue;
use crate::model::QueryResponse;
use crate::model::ResultSetError;
use crate::model::TableFieldSchema;
use crate::model::TableRow;
use crate::model::rows_aligned;
use crate::parse::parse_bool;
use crate::parse::parse_bool_spec;
use crate::parse::parse_i64;
use crate::parse::parse_i64_spec;
use vstd::prelude::*;

verus! {

/// Cursor position of a result-set reader.
#[derive(Debug, Clone, Copy, PartialEq, Eq, Structural)]
pub enum CursorState {
    /// No row has been consumed yet; accessors fail.
    BeforeFirstRow,
    /// The cursor rests on the row with this index; accessors read it.
    OnRow(usize),
    /// The rows are exhausted; accessors fail again, for good.
    Exhausted,
}

/// How many successful advances lead to cursor `c` over `n` rows.
pub open spec fn consumed_of(c: CursorState, n: int) -> int {
    match c {
        CursorState::BeforeFirstRow => 0,
        CursorState::OnRow(r) => r + 1,
        CursorState::Exhausted => n,
    }
}

/// Whether an advance from cursor `c` over `n` rows finds another row.
pub open spec fn advance_returns(c: CursorState, n: int) -> bool {
    consumed_of(c, n) < n
}

/// The cursor an advance from `c` over `n` rows leaves behind.
pub open spec fn advance_cursor(c: CursorState, n: int) -> CursorState {
    if advance_returns(c, n) {
        CursorState::OnRow(consumed_of(c, n) as usize)
    } else {
        CursorState::Exhausted
    }
}

/// The cursor after `k` advance calls on a fresh reader over `n` rows.
pub open spec fn cursor_after(k: nat, n: int) -> CursorState
    decreases k,
{
    if k == 0 {
        CursorState::BeforeFirstRow
    } else {
        advance_cursor(cursor_after((k - 1) as nat, n), n)
    }
}

/// On a fresh reader over `n` rows, exactly the first `n` advance calls
/// succeed: the `k`-th call (counted from zero) returns `true` precisely
/// when `k < n`, and every call after the `n`-th returns `false`.
pub proof fn lemma_advance_count(k: nat, n: int)
    requires
        0 <= n <= usize::MAX,
    ensures
        advance_returns(cursor_after(k, n), n) == (k < n),
        consumed_of(cursor_after(k, n), n) == (if k < n {
            k as int
        } else {
            n
        }),
    decreases k,
{
    if k > 0 {
        lemma_advance_count((k - 1) as nat, n);
    }
}

/// A strongly-typed, column-addressable view over one page of untyped
/// (string-cell) rows.
pub struct ResultSet {
    fields: Vec<TableFieldSchema>,
    rows: Vec<TableRow>,
    names: Vec<String>,
    cursor: CursorState,
}

impl ResultSet {
    /// The schema fields of this result set, in column order.
    pub closed spec fn spec_fields(&self) -> Seq<TableFieldSchema> {
        self.fields@
    }

    /// The rows of this result set, in order.
    pub closed spec fn spec_rows(&self) -> Seq<TableRow> {
        self.rows@
    }

    /// The current cursor position.
    pub closed spec fn spec_cursor(&self) -> CursorState {
        self.cursor
    }

    /// The column names, in schema order.
    pub open spec fn spec_names(&self) -> Seq<Seq<char>> {
        Seq::new(self.spec_fields().len(), |i: int| self.spec_fields()[i].name@)
    }

    /// The cursor rests on a row.
    pub open spec fn spec_on_row(&self) -> bool {
        match self.spec_cursor() {
            CursorState::OnRow(_) => true,
            _ => false,
        }
    }

    /// Index of the current row; meaningful only while the cursor is on one.
    pub open spec fn spec_row_index(&self) -> int {
        match self.spec_cursor() {
            CursorState::OnRow(r) => r as int,
            _ => -1,
        }
    }

    /// Well-formedness: the precomputed name table mirrors the schema, every
    /// row is positionally aligned with the schema, and the cursor never
    /// points past the rows.
    pub closed spec fn wf(&self) -> bool {
        &&& self.names@.len() == self.fields@.len()
        &&& (forall|i: int|
            0 <= i < self.names@.len() ==> #[trigger] self.names@[i]@ == self.fields@[i].name@)
        &&& rows_aligned(self.fields@, self.rows@)
        &&& (match self.cursor {
            CursorState::OnRow(r) => r < self.rows@.len(),
            _ => true,
        })
    }

    /// Builds a reader over a query response.  An absent schema or row list
    /// is treated as empty.  The name-to-index lookup is precomputed here,
    /// once, from the schema.
    pub fn new(query_response: QueryResponse) -> (rs: ResultSet)
        requires
            ({
                let fields = match query_response.schema {
                    Some(s) => s.fields@,
                    None => Seq::<TableFieldSchema>::empty(),
                };
                let rows = match query_response.rows {
                    Some(r) => r@,
                    None => Seq::<TableRow>::empty(),
                };
                rows_aligned(fields, rows)
            }),
        ensures
            rs.wf(),
            rs.spec_fields() == (match query_response.schema {
                Some(s) => s.fields@,
                None => Seq::<TableFieldSchema>::empty(),
            }),
            rs.spec_rows() == (match query_response.rows {
                Some(r) => r@,
                None => Seq::<TableRow>::empty(),
            }),
            rs.spec_cursor() == CursorState::BeforeFirstRow,
    {
        let fields = match query_response.schema {
            Some(s) => s.fields,
            None => Vec::new(),
        };
        let rows = match query_response.rows {
            Some(r) => r,
            None => Vec::new(),
        };
        let mut names: Vec<String> = Vec::new();
        let mut i: usize = 0;
        while i < fields.len()
            invariant
                i <= fields@.len(),
                names@.len() == i,
                forall|j: int| 0 <= j < i ==> #[trigger] names@[j]@ == fields@[j].name@,
            decreases fields@.len() - i,
        {
            let field = &fields[i];
            names.push(field.name.clone());
            i = i + 1;
        }
        ResultSet { fields, rows, names, cursor: CursorState::BeforeFirstRow }
    }

    /// Total number of rows in the set, independent of the cursor.
    pub fn row_count(&self) -> (n: usize)
        ensures
            n == self.spec_rows().len(),
    {
        self.rows.len()
    }

    /// The schema fields, for callers that recurse into record columns
    /// using a field's nested schema.
    pub fn fields(&self) -> (fields: &Vec<TableFieldSchema>)
        ensures
            fields@ == self.spec_fields(),
    {
        &self.fields
    }

    /// Moves the cursor to the next row and reports whether one is
    /// available.  This is the only operation that changes the cursor.
    /// Once the rows are exhausted, every further call returns `false`.
    pub fn advance(&mut self) -> (more: bool)
        requires
            old(self).wf(),
        ensures
            final(self).wf(),
            final(self).spec_fields() == old(self).spec_fields(),
            final(self).spec_rows() == old(self).spec_rows(),
            more == advance_returns(old(self).spec_cursor(), old(self).spec_rows().len() as int),
            final(self).spec_cursor() == advance_cursor(
                old(self).spec_cursor(),
                old(self).spec_rows().len() as int,
            ),
    {
        let n = self.rows.len();
        match self.cursor {
            CursorState::BeforeFirstRow => {
                if n > 0 {
                    self.cursor = CursorState::OnRow(0);
                    true
                } else {
                    self.cursor = CursorState::Exhausted;
                    false
                }
            },
            CursorState::OnRow(r) => {
                if r + 1 < n {
                    self.cursor = CursorState::OnRow(r + 1);
                    true
                } else {
                    self.cursor = CursorState::Exhausted;
                    false
                }
            },
            CursorState::Exhausted => false,
        }
    }

    /// Resolution of a column name: the index of the first schema field
    /// with that name, or `UnknownColumnError` if there is none.
    pub open spec fn spec_col_index(&self, name: Seq<char>) -> Result<int, ResultSetError> {
        match self.spec_names().index_of_first(name) {
            Some(i) => Ok(i),
            None => Err(ResultSetError::UnknownColumnError),
        }
    }

    /// Resolves a column name to its index via the lookup table built at
    /// construction; the first schema field with that name wins.
    pub fn col_index(&self, name: &str) -> (r: Result<usize, ResultSetError>)
        requires
            self.wf(),
        ensures
            r matches Ok(i) ==> self.spec_col_index(name@) == Ok::<int, ResultSetError>(i as int),
            r matches Err(e) ==> self.spec_col_index(name@) == Err::<int, ResultSetError>(e),
    {
        let key: String = name.to_owned();
        let n = self.names.len();
        let mut i: usize = 0;
        while i < n
            invariant
                self.wf(),
                n == self.names@.len(),
                i <= n,
                key@ == name@,
                forall|j: int| 0 <= j < i ==> self.spec_names()[j] != name@,
            decreases n - i,
        {
            proof {
                assert(self.spec_names()[i as int] == self.names@[i as int]@);
            }
            let entry = &self.names[i];
            if *entry == key {
                proof {
                    self.spec_names().index_of_first_ensures(name@);
                }
                return Ok(i);
            }
            i = i + 1;
        }
        proof {
            self.spec_names().index_of_first_ensures(name@);
        }
        Err(ResultSetError::UnknownColumnError)
    }

    /// The cell a by-index accessor reads: fails on a cursor that is not on
    /// a row, then on an index beyond the schema's field count.
    pub open spec fn spec_cell_at(&self, i: int) -> Result<CellValue, ResultSetError> {
        if !self.spec_on_row() {
            Err(ResultSetError::InvalidCursorError)
        } else if i >= self.spec_fields().len() {
            Err(ResultSetError::OutOfRangeError)
        } else {
            Ok(self.spec_rows()[self.spec_row_index()].columns@[i])
        }
    }

    /// What reading a cell as an integer yields.
    pub open spec fn spec_cell_i64(c: CellValue) -> Result<Option<i64>, ResultSetError> {
        match c {
            CellValue::Null => Ok(None),
            CellValue::Scalar(s) => match parse_i64_spec(s@) {
                Some(v) => Ok(Some(v)),
                None => Err(ResultSetError::TypeConversionError),
            },
            _ => Err(ResultSetError::TypeConversionError),
        }
    }

    /// What reading a cell as a boolean yields.
    pub open spec fn spec_cell_bool(c: CellValue) -> Result<Option<bool>, ResultSetError> {
        match c {
            CellValue::Null => Ok(None),
            CellValue::Scalar(s) => match parse_bool_spec(s@) {
                Some(v) => Ok(Some(v)),
                None => Err(ResultSetError::TypeConversionError),
            },
            _ => Err(ResultSetError::TypeConversionError),
        }
    }

    /// What reading a cell as a string yields: the wire string itself.
    pub open spec fn spec_cell_string(c: CellValue) -> Result<Option<Seq<char>>, ResultSetError> {
        match c {
            CellValue::Null => Ok(None),
            CellValue::Scalar(s) => Ok(Some(s@)),
            _ => Err(ResultSetError::TypeConversionError),
        }
    }

    /// What reading a cell as a record yields: the nested row.
    pub open spec fn spec_cell_record(c: CellValue) -> Result<Option<TableRow>, ResultSetError> {
        match c {
            CellValue::Null => Ok(None),
            CellValue::Record(row) => Ok(Some(row)),
            _ => Err(ResultSetError::TypeConversionError),
        }
    }

    /// What reading a cell as a repeated column yields: its element cells.
    pub open spec fn spec_cell_repeated(c: CellValue) -> Result<
        Option<Seq<CellValue>>,
        ResultSetError,
    > {
        match c {
            CellValue::Null => Ok(None),
            CellValue::Repeated(cells) => Ok(Some(cells@)),
            _ => Err(ResultSetError::TypeConversionError),
        }
    }

    /// Result of the by-index integer accessor.
    pub open spec fn spec_get_i64(&self, i: int) -> Result<Option<i64>, ResultSetError> {
        match self.spec_cell_at(i) {
            Ok(c) => Self::spec_cell_i64(c),
            Err(e) => Err(e),
        }
    }

    /// Result of the by-index boolean accessor.
    pub open spec fn spec_get_bool(&self, i: int) -> Result<Option<bool>, ResultSetError> {
        match self.spec_cell_at(i) {
            Ok(c) => Self::spec_cell_bool(c),
            Err(e) => Err(e),
        }
    }

    /// Result of the by-index string accessor.
    pub open spec fn spec_get_string(&self, i: int) -> Result<Option<Seq<char>>, ResultSetError> {
        match self.spec_cell_at(i) {
            Ok(c) => Self::spec_cell_string(c),
            Err(e) => Err(e),
        }
    }

    /// Result of the by-index record accessor.
    pub open spec fn spec_get_record(&self, i: int) -> Result<Option<TableRow>, ResultSetError> {
        match self.spec_cell_at(i) {
            Ok(c) => Self::spec_cell_record(c),
            Err(e) => Err(e),
        }
    }

    /// Result of the by-index repeated accessor.
    pub open spec fn spec_get_repeated(&self, i: int) -> Result<
        Option<Seq<CellValue>>,
        ResultSetError,
    > {
        match self.spec_cell_at(i) {
            Ok(c) => Self::spec_cell_repeated(c),
            Err(e) => Err(e),
        }
    }

    /// Result of the by-name integer accessor.
    pub open spec fn spec_get_i64_by_name(&self, name: Seq<char>) -> Result<
        Option<i64>,
        ResultSetError,
    > {
        match self.spec_col_index(name) {
            Ok(i) => self.spec_get_i64(i),
            Err(e) => Err(e),
        }
    }

    /// Result of the by-name boolean accessor.
    pub open spec fn spec_get_bool_by_name(&self, name: Seq<char>) -> Result<
        Option<bool>,
        ResultSetError,
    > {
        match self.spec_col_index(name) {
            Ok(i) => self.spec_get_bool(i),
            Err(e) => Err(e),
        }
    }

    /// Result of the by-name string accessor.
    pub open spec fn spec_get_string_by_name(&self, name: Seq<char>) -> Result<
        Option<Seq<char>>,
        ResultSetError,
    > {
        match self.spec_col_index(name) {
            Ok(i) => self.spec_get_string(i),
            Err(e) => Err(e),
        }
    }

    /// Result of the by-name record accessor.
    pub open spec fn spec_get_record_by_name(&self, name: Seq<char>) -> Result<
        Option<TableRow>,
        ResultSetError,
    > {
        match self.spec_col_index(name) {
            Ok(i) => self.spec_get_record(i),
            Err(e) => Err(e),
        }
    }

    /// Result of the by-name repeated accessor.
    pub open spec fn spec_get_repeated_by_name(&self, name: Seq<char>) -> Result<
        Option<Seq<CellValue>>,
        ResultSetError,
    > {
        match self.spec_col_index(name) {
            Ok(i) => self.spec_get_repeated(i),
            Err(e) => Err(e),
        }
    }

    /// Borrows the cell of the current row at column `col_index`, checking
    /// the cursor first and the column bound second.
    fn cell_at(&self, col_index: usize) -> (r: Result<&CellValue, ResultSetError>)
        requires
            self.wf(),
        ensures
            ({
                match r {
                    Ok(c) => self.spec_cell_at(col_index as int) == Ok::<
                        CellValue,
                        ResultSetError,
                    >(*c),
                    Err(e) => self.spec_cell_at(col_index as int) == Err::<
                        CellValue,
                        ResultSetError,
                    >(e),
                }
            }),
    {
        let row_index = match self.cursor {
            CursorState::OnRow(r) => r,
            _ => {
                return Err(ResultSetError::InvalidCursorError);
            },
        };
        if col_index >= self.fields.len() {
            return Err(ResultSetError::OutOfRangeError);
        }
        let row = &self.rows[row_index];
        assert(row.columns@.len() == self.fields@.len());
        Ok(&row.columns[col_index])
    }

    /// Returns column `col_index` of the current row as a signed 64-bit
    /// integer, parsed base-10 from the wire string.  A null cell yields
    /// `None`; a cell that does not parse is a `TypeConversionError`.
    pub fn get_i64_by_index(&self, col_index: usize) -> (r: Result<Option<i64>, ResultSetError>)
        requires
            self.wf(),
        ensures
            r == self.spec_get_i64(col_index as int),
    {
        match self.cell_at(col_index) {
            Ok(cell) => match cell {
                CellValue::Null => Ok(None),
                CellValue::Scalar(s) => match parse_i64(s.as_str()) {
                    Some(v) => Ok(Some(v)),
                    None => Err(ResultSetError::TypeConversionError),
                },
                _ => Err(ResultSetError::TypeConversionError),
            },
            Err(e) => Err(e),
        }
    }

    /// Returns column `col_index` of the current row as a boolean: only the
    /// wire strings `true` and `false`, case-sensitively, convert.  A null
    /// cell yields `None`.
    pub fn get_bool_by_index(&self, col_index: usize) -> (r: Result<Option<bool>, ResultSetError>)
        requires
            self.wf(),
        ensures
            r == self.spec_get_bool(col_index as int),
    {
        match self.cell_at(col_index) {
            Ok(cell) => match cell {
                CellValue::Null => Ok(None),
                CellValue::Scalar(s) => match parse_bool(s.as_str()) {
                    Some(v) => Ok(Some(v)),
                    None => Err(ResultSetError::TypeConversionError),
                },
                _ => Err(ResultSetError::TypeConversionError),
            },
            Err(e) => Err(e),
        }
    }

    /// Returns column `col_index` of the current row as a string: the wire
    /// string itself.  A null cell yields `None`; a record or repeated cell
    /// is a `TypeConversionError`.
    pub fn get_string_by_index(&self, col_index: usize) -> (r: Result<
        Option<String>,
        ResultSetError,
    >)
        requires
            self.wf(),
        ensures
            ({
                match r {
                    Ok(Some(s)) => self.spec_get_string(col_index as int) == Ok::<
                        Option<Seq<char>>,
                        ResultSetError,
                    >(Some(s@)),
                    Ok(None) => self.spec_get_string(col_index as int) == Ok::<
                        Option<Seq<char>>,
                        ResultSetError,
                    >(None),
                    Err(e) => self.spec_get_string(col_index as int) == Err::<
                        Option<Seq<char>>,
                        ResultSetError,
                    >(e),
                }
            }),
    {
        match self.cell_at(col_index) {
            Ok(cell) => match cell {
                CellValue::Null => Ok(None),
                CellValue::Scalar(s) => Ok(Some(s.clone())),
                _ => Err(ResultSetError::TypeConversionError),
            },
            Err(e) => Err(e),
        }
    }

    /// Returns column `col_index` of the current row as a record: the
    /// nested row, to be recursed into with the field's nested schema.  A
    /// null cell yields `None`; a scalar or repeated cell is a
    /// `TypeConversionError`.
    pub fn get_record_by_index(&self, col_index: usize) -> (r: Result<
        Option<&TableRow>,
        ResultSetError,
    >)
        requires
            self.wf(),
        ensures
            ({
                match r {
                    Ok(Some(row)) => self.spec_get_record(col_index as int) == Ok::<
                        Option<TableRow>,
                        ResultSetError,
                    >(Some(*row)),
                    Ok(None) => self.spec_get_record(col_index as int) == Ok::<
                        Option<TableRow>,
                        ResultSetError,
                    >(None),
                    Err(e) => self.spec_get_record(col_index as int) == Err::<
                        Option<TableRow>,
                        ResultSetError,
                    >(e),
                }
            }),
    {
        match self.cell_at(col_index) {
            Ok(cell) => match cell {
                CellValue::Null => Ok(None),
                CellValue::Record(row) => Ok(Some(row)),
                _ => Err(ResultSetError::TypeConversionError),
            },
            Err(e) => Err(e),
        }
    }

    /// Returns column `col_index` of the current row as a repeated column:
    /// one cell per element.  A null cell yields `None`; a scalar or record
    /// cell is a `TypeConversionError`.
    pub fn get_repeated_by_index(&self, col_index: usize) -> (r: Result<
        Option<&Vec<CellValue>>,
        ResultSetError,
    >)
        requires
            self.wf(),
        ensures
            ({
                match r {
                    Ok(Some(cells)) => self.spec_get_repeated(col_index as int) == Ok::<
                        Option<Seq<CellValue>>,
                        ResultSetError,
                    >(Some(cells@)),
                    Ok(None) => self.spec_get_repeated(col_index as int) == Ok::<
                        Option<Seq<CellValue>>,
                        ResultSetError,
                    >(None),
                    Err(e) => self.spec_get_repeated(col_index as int) == Err::<
                        Option<Seq<CellValue>>,
                        ResultSetError,
                    >(e),
                }
            }),
    {
        match self.cell_at(col_index) {
            Ok(cell) => match cell {
                CellValue::Null => Ok(None),
                CellValue::Repeated(cells) => Ok(Some(cells)),
                _ => Err(ResultSetError::TypeConversionError),
            },
            Err(e) => Err(e),
        }
    }

    /// While the cursor is not on a row — before the first advance, and
    /// again once the rows are exhausted — every by-index accessor fails
    /// with `InvalidCursorError`, and so does every by-name accessor for a
    /// name the schema has.
    pub proof fn lemma_accessor_needs_row(self, i: int, name: Seq<char>)
        requires
            !self.spec_on_row(),
            self.spec_names().contains(name),
        ensures
            self.spec_get_i64(i) == Err::<Option<i64>, ResultSetError>(
                ResultSetError::InvalidCursorError,
            ),
            self.spec_get_bool(i) == Err::<Option<bool>, ResultSetError>(
                ResultSetError::InvalidCursorError,
            ),
            self.spec_get_string(i) == Err::<Option<Seq<char>>, ResultSetError>(
                ResultSetError::InvalidCursorError,
            ),
            self.spec_get_record(i) == Err::<Option<TableRow>, ResultSetError>(
                ResultSetError::InvalidCursorError,
            ),
            self.spec_get_repeated(i) == Err::<Option<Seq<CellValue>>, ResultSetError>(
                ResultSetError::InvalidCursorError,
            ),
            self.spec_get_i64_by_name(name) == Err::<Option<i64>, ResultSetError>(
                ResultSetError::InvalidCursorError,
            ),
            self.spec_get_bool_by_name(name) == Err::<Option<bool>, ResultSetError>(
                ResultSetError::InvalidCursorError,
            ),
            self.spec_get_string_by_name(name) == Err::<Option<Seq<char>>, ResultSetError>(
                ResultSetError::InvalidCursorError,
            ),
            self.spec_get_record_by_name(name) == Err::<Option<TableRow>, ResultSetError>(
                ResultSetError::InvalidCursorError,
            ),
            self.spec_get_repeated_by_name(name) == Err::<Option<Seq<CellValue>>, ResultSetError>(
                ResultSetError::InvalidCursorError,
            ),
    {
        self.spec_names().index_of_first_ensures(name);
    }

    /// A null cell yields an absent value, never an error, for every
    /// supported type.
    pub proof fn lemma_null_cell_is_absent(self, i: int)
        requires
            self.spec_cell_at(i) == Ok::<CellValue, ResultSetError>(CellValue::Null),
        ensures
            self.spec_get_i64(i) == Ok::<Option<i64>, ResultSetError>(None),
            self.spec_get_bool(i) == Ok::<Option<bool>, ResultSetError>(None),
            self.spec_get_string(i) == Ok::<Option<Seq<char>>, ResultSetError>(None),
            self.spec_get_record(i) == Ok::<Option<TableRow>, ResultSetError>(None),
            self.spec_get_repeated(i) == Ok::<Option<Seq<CellValue>>, ResultSetError>(None),
    {
    }

    /// By-name and by-index accessors agree: when `name` first occurs in
    /// the schema at position `k`, the by-name accessor returns exactly
    /// what the by-index accessor returns for `k`, for every type.
    pub proof fn lemma_by_name_matches_by_index(self, name: Seq<char>, k: int)
        requires
            0 <= k < self.spec_names().len(),
            self.spec_names()[k] == name,
            forall|j: int| 0 <= j < k ==> self.spec_names()[j] != name,
        ensures
            self.spec_get_i64_by_name(name) == self.spec_get_i64(k),
            self.spec_get_bool_by_name(name) == self.spec_get_bool(k),
            self.spec_get_string_by_name(name) == self.spec_get_string(k),
            self.spec_get_record_by_name(name) == self.spec_get_record(k),
            self.spec_get_repeated_by_name(name) == self.spec_get_repeated(k),
    {
        self.spec_names().index_of_first_ensures(name);
    }

    /// A name no schema field has fails with `UnknownColumnError`, for
    /// every type.
    pub proof fn lemma_unknown_column(self, name: Seq<char>)
        requires
            !self.spec_names().contains(name),
        ensures
            self.spec_get_i64_by_name(name) == Err::<Option<i64>, ResultSetError>(
                ResultSetError::UnknownColumnError,
            ),
            self.spec_get_bool_by_name(name) == Err::<Option<bool>, ResultSetError>(
                ResultSetError::UnknownColumnError,
            ),
            self.spec_get_string_by_name(name) == Err::<Option<Seq<char>>, ResultSetError>(
                ResultSetError::UnknownColumnError,
            ),
            self.spec_get_record_by_name(name) == Err::<Option<TableRow>, ResultSetError>(
                ResultSetError::UnknownColumnError,
            ),
            self.spec_get_repeated_by_name(name) == Err::<Option<Seq<CellValue>>, ResultSetError>(
                ResultSetError::UnknownColumnError,
            ),
    {
        self.spec_names().index_of_first_ensures(name);
    }

    /// While the cursor is on a row, an index at or past the schema's
    /// field count fails with `OutOfRangeError`, for every type.
    pub proof fn lemma_index_out_of_range(self, i: int)
        requires
            self.spec_on_row(),
            i >= self.spec_fields().len(),
        ensures
            self.spec_get_i64(i) == Err::<Option<i64>, ResultSetError>(
                ResultSetError::OutOfRangeError,
            ),
            self.spec_get_bool(i) == Err::<Option<bool>, ResultSetError>(
                ResultSetError::OutOfRangeError,
            ),
            self.spec_get_string(i) == Err::<Option<Seq<char>>, ResultSetError>(
                ResultSetError::OutOfRangeError,
            ),
            self.spec_get_record(i) == Err::<Option<TableRow>, ResultSetError>(
                ResultSetError::OutOfRangeError,
            ),
            self.spec_get_repeated(i) == Err::<Option<Seq<CellValue>>, ResultSetError>(
                ResultSetError::OutOfRangeError,
            ),
    {
    }

    /// Returns the column named `name` of the current row as a signed
    /// 64-bit integer, resolving the name first and then delegating to the
    /// by-index accessor.
    pub fn get_i64_by_name(&self, name: &str) -> (r: Result<Option<i64>, ResultSetError>)
        requires
            self.wf(),
        ensures
            r == self.spec_get_i64_by_name(name@),
    {
        match self.col_index(name) {
            Ok(i) => self.get_i64_by_index(i),
            Err(e) => Err(e),
        }
    }

    /// Returns the column named `name` of the current row as a boolean,
    /// resolving the name first and then delegating to the by-index
    /// accessor.
    pub fn get_bool_by_name(&self, name: &str) -> (r: Result<Option<bool>, ResultSetError>)
        requires
            self.wf(),
        ensures
            r == self.spec_get_bool_by_name(name@),
    {
        match self.col_index(name) {
            Ok(i) => self.get_bool_by_index(i),
            Err(e) => Err(e),
        }
    }

    /// Returns the column named `name` of the current row as a string,
    /// resolving the name first and then delegating to the by-index
    /// accessor.
    pub fn get_string_by_name(&self, name: &str) -> (r: Result<Option<String>, ResultSetError>)
        requires
            self.wf(),
        ensures
            ({
                match r {
                    Ok(Some(s)) => self.spec_get_string_by_name(name@) == Ok::<
                        Option<Seq<char>>,
                        ResultSetError,
                    >(Some(s@)),
                    Ok(None) => self.spec_get_string_by_name(name@) == Ok::<
                        Option<Seq<char>>,
                        ResultSetError,
                    >(None),
                    Err(e) => self.spec_get_string_by_name(name@) == Err::<
                        Option<Seq<char>>,
                        ResultSetError,
                    >(e),
                }
            }),
    {
        match self.col_index(name) {
            Ok(i) => self.get_string_by_index(i),
            Err(e) => Err(e),
        }
    }

    /// Returns the column named `name` of the current row as a record,
    /// resolving the name first and then delegating to the by-index
    /// accessor.
    pub fn get_record_by_name(&self, name: &str) -> (r: Result<Option<&TableRow>, ResultSetError>)
        requires
            self.wf(),
        ensures
            ({
                match r {
                    Ok(Some(row)) => self.spec_get_record_by_name(name@) == Ok::<
                        Option<TableRow>,
                        ResultSetError,
                    >(Some(*row)),
                    Ok(None) => self.spec_get_record_by_name(name@) == Ok::<
                        Option<TableRow>,
                        ResultSetError,
                    >(None),
                    Err(e) => self.spec_get_record_by_name(name@) == Err::<
                        Option<TableRow>,
                        ResultSetError,
                    >(e),
                }
            }),
    {
        match self.col_index(name) {
            Ok(i) => self.get_record_by_index(i),
            Err(e) => Err(e),
        }
    }

    /// Returns the column named `name` of the current row as a repeated
    /// column, resolving the name first and then delegating to the
    /// by-index accessor.
    pub fn get_repeated_by_name(&self, name: &str) -> (r: Result<
        Option<&Vec<CellValue>>,
        ResultSetError,
    >)
        requires
            self.wf(),
        ensures
            ({
                match r {
                    Ok(Some(cells)) => self.spec_get_repeated_by_name(name@) == Ok::<
                        Option<Seq<CellValue>>,
                        ResultSetError,
                    >(Some(cells@)),
                    Ok(None) => self.spec_get_repeated_by_name(name@) == Ok::<
                        Option<Seq<CellValue>>,
                        ResultSetError,
                    >(None),
                    Err(e) => self.spec_get_repeated_by_name(name@) == Err::<
                        Option<Seq<CellValue>>,
                        ResultSetError,
                    >(e),
                }
            }),
    {
        match self.col_index(name) {
            Ok(i) => self.get_repeated_by_index(i),
            Err(e) => Err(e),
        }
    }
}

} // verus!
