use vstd::prelude::*;

verus! {

/// A column type the host may declare. The adapter materializes only
/// `Boolean`, `Text`, `Timestamp` and `Json` columns; requesting a column
/// of any other declared type is a fatal error naming that column.
#[derive(Debug, Clone, Copy, PartialEq, Eq, Structural)]
pub enum TypeTag {
    Boolean,
    Text,
    Timestamp,
    Json,
    Smallint,
    Integer,
    Bigint,
    Numeric,
    Date,
    Time,
}

/// One column requested by the host: its name, looked up case-sensitively
/// in each source record, and its declared type.
#[derive(Debug)]
pub struct Column {
    pub name: String,
    pub tag: TypeTag,
}

/// One typed value handed to the host, matching the requested column's
/// declared type. A cell that is "no value" (the SQL NULL equivalent) is
/// represented as `None` at the row level, not as a `Cell` variant.
#[derive(Debug, PartialEq, Eq)]
pub enum Cell {
    Bool(bool),
    Text(String),
    /// Microseconds since 1970-01-01T00:00:00Z.
    Timestamp(i64),
    /// A JSON object, carried as its canonical serialization.
    Json(String),
}

/// The mathematical shape of a [`Cell`]: the same variants over sequences
/// of characters, so that contracts can state exactly which cells a row
/// holds.
pub enum CellV {
    Bool(bool),
    Text(Seq<char>),
    Timestamp(i64),
    Json(Seq<char>),
}

impl View for Cell {
    type V = CellV;

    open spec fn view(&self) -> CellV {
        match self {
            Cell::Bool(b) => CellV::Bool(*b),
            Cell::Text(s) => CellV::Text(s@),
            Cell::Timestamp(t) => CellV::Timestamp(*t),
            Cell::Json(s) => CellV::Json(s@),
        }
    }
}

/// The mathematical shape of one cell slot: either a typed cell or the
/// "no value" marker.
pub open spec fn opt_cell_view(c: Option<Cell>) -> Option<CellV> {
    match c {
        Some(cell) => Some(cell@),
        None => None,
    }
}

/// The mathematical shape of one produced row: for each requested column,
/// in order, either a typed cell or the "no value" marker.
pub open spec fn cells_view(row: Seq<Option<Cell>>) -> Seq<Option<CellV>> {
    row.map_values(|c: Option<Cell>| opt_cell_view(c))
}

} // verus!
