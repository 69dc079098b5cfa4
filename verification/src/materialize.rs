use vstd::prelude::*;
use crate::cells::Cell;
use crate::cells::CellV;
use crate::cells::Column;
use crate::cells::TypeTag;
use crate::cells::opt_cell_view;
use crate::errors::FdwError;
use crate::errors::FdwErrorV;
use crate::source::SourceRow;
use crate::source::SourceValue;
use crate::source::row_lookup;
use crate::timestamp::ts_parse;
use crate::timestamp::parse_rfc3339_micros;

verus! {

/// The cell a source value yields under a declared column type, or the
/// failure that coercing it raises.
///
/// A value of the wrong JSON kind for a supported column type is "no
/// value" (NULL), deliberately not an error; the two fatal cases are a
/// timestamp string that does not parse and a column of an unsupported
/// declared type.
pub open spec fn coerce_cell(tag: TypeTag, v: SourceValue, col: Seq<char>) -> Result<
    Option<CellV>,
    FdwErrorV,
> {
    match tag {
        TypeTag::Boolean => match v {
            SourceValue::Bool(b) => Ok(Some(CellV::Bool(b))),
            _ => Ok(None),
        },
        TypeTag::Text => match v {
            SourceValue::Text(s) => Ok(Some(CellV::Text(s@))),
            _ => Ok(None),
        },
        TypeTag::Timestamp => match v {
            SourceValue::Text(s) => match ts_parse(s@) {
                Some(t) => Ok(Some(CellV::Timestamp(t))),
                None => Err(FdwErrorV::InvalidTimestamp(s@)),
            },
            _ => Ok(None),
        },
        TypeTag::Json => match v {
            SourceValue::Object(ser) => Ok(Some(CellV::Json(ser@))),
            _ => Ok(None),
        },
        _ => Err(FdwErrorV::UnsupportedColumnType(col)),
    }
}

/// The row that materializing `rec` against the columns from index `i` on
/// yields: one cell per column in order, or the first failure.
pub open spec fn mat_from(rec: SourceRow, cols: Seq<Column>, i: int) -> Result<
    Seq<Option<CellV>>,
    FdwErrorV,
>
    decreases cols.len() - i
        when 0 <= i <= cols.len()
{
    if i >= cols.len() {
        Ok(Seq::empty())
    } else {
        match row_lookup(rec, cols[i].name@) {
            None => Err(FdwErrorV::MissingColumn(cols[i].name@)),
            Some(v) => match coerce_cell(cols[i].tag, v, cols[i].name@) {
                Err(e) => Err(e),
                Ok(cell) => match mat_from(rec, cols, i + 1) {
                    Err(e) => Err(e),
                    Ok(rest) => Ok(seq![cell] + rest),
                },
            },
        }
    }
}

/// The row that materializing the record `rec` against the requested
/// columns yields, or the first failure: a missing column, an unsupported
/// column type, or an invalid timestamp, in column order.
pub open spec fn materialize_row(rec: SourceRow, cols: Seq<Column>) -> Result<
    Seq<Option<CellV>>,
    FdwErrorV,
> {
    mat_from(rec, cols, 0)
}

/// A finished prefix of cells followed by the outcome of the remaining
/// columns.
pub open spec fn mat_append(
    prefix: Seq<Option<CellV>>,
    rest: Result<Seq<Option<CellV>>, FdwErrorV>,
) -> Result<Seq<Option<CellV>>, FdwErrorV> {
    match rest {
        Ok(r) => Ok(prefix + r),
        Err(e) => Err(e),
    }
}

proof fn lemma_mat_from_len(rec: SourceRow, cols: Seq<Column>, i: int)
    requires
        0 <= i <= cols.len(),
    ensures
        mat_from(rec, cols, i) matches Ok(cells) ==> cells.len() == cols.len() - i,
    decreases cols.len() - i,
{
    if i < cols.len() {
        lemma_mat_from_len(rec, cols, i + 1);
    }
}

/// A materialized row holds exactly one cell slot per requested column,
/// in the requested order.
pub proof fn lemma_materialize_row_len(rec: SourceRow, cols: Seq<Column>)
    ensures
        materialize_row(rec, cols) matches Ok(cells) ==> cells.len() == cols.len(),
{
    lemma_mat_from_len(rec, cols, 0);
}

/// Coerces one looked-up source value to the column's declared type.
pub fn coerce(tag: TypeTag, v: &SourceValue, name: &String) -> (r: Result<Option<Cell>, FdwError>)
    ensures
        (r is Ok) == (coerce_cell(tag, *v, name@) is Ok),
        r matches Ok(c) ==> (coerce_cell(tag, *v, name@) matches Ok(cv) && opt_cell_view(c) == cv),
        r matches Err(e) ==> (coerce_cell(tag, *v, name@) matches Err(f) && e@ == f),
{
    match tag {
        TypeTag::Boolean => match v {
            SourceValue::Bool(b) => Ok(Some(Cell::Bool(*b))),
            _ => Ok(None),
        },
        TypeTag::Text => match v {
            SourceValue::Text(s) => Ok(Some(Cell::Text(s.clone()))),
            _ => Ok(None),
        },
        TypeTag::Timestamp => match v {
            SourceValue::Text(s) => match parse_rfc3339_micros(s.as_str()) {
                Some(t) => Ok(Some(Cell::Timestamp(t))),
                None => Err(FdwError::InvalidTimestamp(s.clone())),
            },
            _ => Ok(None),
        },
        TypeTag::Json => match v {
            SourceValue::Object(ser) => Ok(Some(Cell::Json(ser.clone()))),
            _ => Ok(None),
        },
        _ => Err(FdwError::UnsupportedColumnType(name.clone())),
    }
}

} // verus!
