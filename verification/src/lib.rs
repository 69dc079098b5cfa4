//! A foreign-data adapter that exposes a remote HTTP endpoint returning a
//! JSON array of records as a row-oriented scan for a host query engine.
//!
//! The adapter holds a configured base URL and bearer credential, buffers the
//! whole response of one fetch per scan, and materializes each buffered JSON
//! record into typed cells on demand. Write operations are declared
//! unsupported.

mod adapter;
mod cells;
mod errors;
mod materialize;
mod options;
mod remote;
mod source;
mod strutil;
mod timestamp;

pub use adapter::Adapter;
pub use adapter::AdapterV;
pub use adapter::agent_text;
pub use adapter::bearer_text;
pub use adapter::ended;
pub use adapter::join_error_text;
pub use adapter::lemma_end_scan_idempotent;
pub use adapter::scan_path;
pub use adapter::url_error_text;
pub use cells::Cell;
pub use cells::CellV;
pub use cells::Column;
pub use cells::TypeTag;
pub use cells::cells_view;
pub use cells::opt_cell_view;
pub use errors::FdwError;
pub use errors::FdwErrorV;
pub use materialize::coerce;
pub use materialize::coerce_cell;
pub use materialize::lemma_materialize_row_len;
pub use materialize::mat_append;
pub use materialize::mat_from;
pub use materialize::materialize_row;
pub use options::Options;
pub use options::opts_lookup;
pub use remote::HttpMethod;
pub use remote::HttpRequest;
pub use remote::url_join_of;
pub use remote::url_parse_of;
pub use source::SourceRow;
pub use source::SourceValue;
pub use source::field_lookup;
pub use source::find_field;
pub use source::json_rows_of;
pub use source::row_lookup;
pub use strutil::str_eq;
pub use timestamp::parse_rfc3339_micros;
pub use timestamp::rfc3339_micros;
pub use timestamp::rfc3339_ok;
pub use timestamp::ts_parse;
