use vstd::prelude::*;
use crate::errors::FdwError;
use crate::errors::FdwErrorV;
use crate::strutil::str_eq;

verus! {

// ---------------------------------------------------------------------------
// What the materializer reads of the fetched JSON.
//
// Each element of the response array is kept as what the per-column
// coercion looks at: whether the element is an object, and for each of its
// fields whether the value is a boolean, a string, an object (kept as its
// canonical serialization, which is all a JSON column hands out), or
// anything else (which coerces to "no value" for every supported type).
// ---------------------------------------------------------------------------

/// One field value of a source record, reduced to what coercion reads.
#[derive(Debug, PartialEq, Eq)]
pub enum SourceValue {
    /// A JSON boolean.
    Bool(bool),
    /// A JSON string.
    Text(String),
    /// A JSON object, carried as its canonical serialization.
    Object(String),
    /// A JSON number, array or null: no supported column type accepts it.
    Other,
}

/// One element of the buffered response array.
#[derive(Debug, PartialEq, Eq)]
pub enum SourceRow {
    /// A JSON object: its fields in serialization order, keys unique.
    Object(Vec<(String, SourceValue)>),
    /// An array element that is not a JSON object; every column lookup on
    /// it fails.
    NotObject,
}

/// What parsing a response body returns: the buffered rows for a body that
/// is a JSON array, the parse fault otherwise. The result depends on the
/// body text alone.
pub uninterp spec fn json_rows_of(s: Seq<char>) -> Result<Seq<SourceRow>, FdwErrorV>;

/// Relies on serde_json::from_str and serde_json::Value::to_string: the
/// body parses as JSON exactly when it is valid JSON, the parse result and
/// an object's canonical serialization depend on the text alone, and the
/// parser's diagnostic for invalid JSON does too.
#[verifier::external_body]
pub(crate) fn parse_rows(body: &str) -> (r: Result<Vec<SourceRow>, FdwError>)
    ensures
        (r is Ok) == (json_rows_of(body@) is Ok),
        r matches Ok(v) ==> (json_rows_of(body@) matches Ok(m) && v@ == m),
        r matches Err(e) ==> (json_rows_of(body@) matches Err(f) && e@ == f && (e is InvalidJson
            || e is NotArray)),
{
    let top: serde_json::Value =
        serde_json::from_str(body).map_err(|e| FdwError::InvalidJson(e.to_string()))?;
    let arr = match top {
        serde_json::Value::Array(a) => a,
        _ => return Err(FdwError::NotArray),
    };
    Ok(arr.into_iter().map(|row| match row {
        serde_json::Value::Object(fields) => SourceRow::Object(fields.into_iter().map(|(k, v)| (k, match v {
            serde_json::Value::Bool(b) => SourceValue::Bool(b),
            serde_json::Value::String(t) => SourceValue::Text(t),
            o @ serde_json::Value::Object(_) => SourceValue::Object(o.to_string()),
            _ => SourceValue::Other,
        })).collect()),
        _ => SourceRow::NotObject,
    }).collect())
}

/// The first field of `fields` named `name`, if any.
pub open spec fn field_lookup(fields: Seq<(String, SourceValue)>, name: Seq<char>) -> Option<
    SourceValue,
>
    decreases fields.len(),
{
    if fields.len() == 0 {
        None
    } else if fields[0].0@ == name {
        Some(fields[0].1)
    } else {
        field_lookup(fields.drop_first(), name)
    }
}

/// The value a record holds under a column name: nothing when the record
/// is not an object or has no field of that name.
pub open spec fn row_lookup(rec: SourceRow, name: Seq<char>) -> Option<SourceValue> {
    match rec {
        SourceRow::Object(fields) => field_lookup(fields@, name),
        SourceRow::NotObject => None,
    }
}

/// A lookup that found no match among the first `i` fields is decided by
/// the rest.
proof fn lemma_field_lookup_skip(fields: Seq<(String, SourceValue)>, name: Seq<char>, i: int)
    requires
        0 <= i <= fields.len(),
        forall|j: int| 0 <= j < i ==> fields[j].0@ != name,
    ensures
        field_lookup(fields, name) == field_lookup(fields.skip(i), name),
    decreases i,
{
    if i == 0 {
        assert(fields.skip(0) =~= fields);
    } else {
        lemma_field_lookup_skip(fields, name, i - 1);
        assert(fields.skip(i - 1)[0] == fields[i - 1]);
        assert(fields.skip(i - 1).drop_first() =~= fields.skip(i));
    }
}

/// Finds the field of `rec` named `name`.
pub fn find_field<'a>(rec: &'a SourceRow, name: &str) -> (r: Option<&'a SourceValue>)
    ensures
        match r {
            Some(v) => row_lookup(*rec, name@) == Some(*v),
            None => row_lookup(*rec, name@) is None,
        },
{
    let fields = match rec {
        SourceRow::Object(fields) => fields,
        SourceRow::NotObject => {
            return None;
        },
    };
    let mut i: usize = 0;
    while i < fields.len()
        invariant
            i <= fields@.len(),
            row_lookup(*rec, name@) == field_lookup(fields@, name@),
            forall|j: int| 0 <= j < i ==> fields@[j].0@ != name@,
        decreases fields@.len() - i,
    {
        if str_eq(fields[i].0.as_str(), name) {
            let pair = &fields[i];
            proof {
                lemma_field_lookup_skip(fields@, name@, i as int);
                assert(fields@.skip(i as int)[0] == fields@[i as int]);
                assert(field_lookup(fields@.skip(i as int), name@) == Some(
                    fields@[i as int].1,
                ));
            }
            return Some(&pair.1);
        }
        i += 1;
    }
    proof {
        lemma_field_lookup_skip(fields@, name@, fields@.len() as int);
        assert(fields@.skip(fields@.len() as int) =~= Seq::<(String, SourceValue)>::empty());
    }
    None
}

} // verus!
