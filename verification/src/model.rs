//! Data model for a query response: schema descriptors, rows, and cells.
//!
//! A response carries an ordered field schema and an ordered list of rows.
//! Each row holds one cell per schema field, positionally aligned with the
//! schema.  Cells are wire-encoded: a scalar is always a string, a record
//! field carries a nested row, a repeated field carries a list of cells, and
//! any cell may be null.  No cell carries a type tag of its own; the type
//! comes from the schema descriptor at the same position.

use vstd::prelude::*;

verus! {

/// Declared type tag of a schema field.
#[derive(Debug, Clone, Copy, PartialEq, Eq, Structural)]
pub enum FieldType {
    Integer,
    Float,
    Boolean,
    String,
    Timestamp,
    Record,
}

/// Mode of a schema field: whether it may be null or repeats.
#[derive(Debug, Clone, Copy, PartialEq, Eq, Structural)]
pub enum FieldMode {
    Nullable,
    Required,
    Repeated,
}

/// One field descriptor of a schema.  For a record-typed field, `fields`
/// holds the nested schema; for every other type it is empty.
#[derive(Debug)]
#[verifier::ext_equal]
pub struct TableFieldSchema {
    pub name: String,
    pub field_type: FieldType,
    pub mode: FieldMode,
    pub fields: Vec<TableFieldSchema>,
}

/// Ordered field-descriptor list defining column names, types, and nesting.
#[derive(Debug)]
#[verifier::ext_equal]
pub struct TableSchema {
    pub fields: Vec<TableFieldSchema>,
}

/// One wire-format cell value.  Scalars are always transmitted as strings;
/// the declared schema type decides how a scalar is to be converted.
#[derive(Debug)]
#[verifier::ext_equal]
pub enum CellValue {
    /// The cell is null.
    Null,
    /// A scalar, wire-encoded as a string.
    Scalar(String),
    /// A nested row, for a record-typed field.
    Record(TableRow),
    /// One cell per element, for a repeated field.
    Repeated(Vec<CellValue>),
}

/// A single row of the result set: one cell per schema field, positionally
/// aligned with the schema.
#[derive(Debug)]
#[verifier::ext_equal]
pub struct TableRow {
    pub columns: Vec<CellValue>,
}

/// A query response payload as handed over by the query layer: an optional
/// schema and an optional list of rows.  Either may be absent, in which case
/// the result set treats it as empty.
#[derive(Debug)]
#[verifier::ext_equal]
pub struct QueryResponse {
    pub schema: Option<TableSchema>,
    pub rows: Option<Vec<TableRow>>,
}

/// Failures of the result-set reader.  All are local and synchronous: they
/// indicate a caller or schema mismatch, not a transient fault.
#[derive(Debug, Clone, Copy, PartialEq, Eq, Structural)]
pub enum ResultSetError {
    /// An accessor was used while no current row is available.
    InvalidCursorError,
    /// A column index is beyond the schema's field count.
    OutOfRangeError,
    /// No schema field has the requested name.
    UnknownColumnError,
    /// The stored wire string cannot be parsed as the requested type.
    TypeConversionError,
}

/// Every row has exactly one cell per schema field.
pub open spec fn rows_aligned(fields: Seq<TableFieldSchema>, rows: Seq<TableRow>) -> bool {
    forall|i: int| 0 <= i < rows.len() ==> #[trigger] rows[i].columns@.len() == fields.len()
}

} // verus!
