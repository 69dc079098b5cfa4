use vstd::prelude::*;
use vstd::string::StringExecFns;
use crate::cells::Cell;
use crate::cells::CellV;
use crate::cells::Column;
use crate::cells::cells_view;
use crate::cells::opt_cell_view;
use crate::errors::FdwError;
use crate::errors::FdwErrorV;
use crate::materialize::coerce;
use crate::materialize::coerce_cell;
use crate::materialize::mat_append;
use crate::materialize::mat_from;
use crate::materialize::materialize_row;
use crate::options::Options;
use crate::options::opts_lookup;
use crate::remote::HttpMethod;
use crate::remote::HttpRequest;
use crate::remote::join_url;
use crate::remote::parse_url;
use crate::remote::url_join_of;
use crate::remote::url_parse_of;
use crate::source::SourceRow;
use crate::source::find_field;
use crate::source::json_rows_of;
use crate::source::parse_rows;
use crate::source::row_lookup;

verus! {

/// The mathematical state of the adapter: the configured endpoint and
/// credential, the buffered rows of the current scan, and the cursor, the
/// index of the next unread buffered record.
pub struct AdapterV {
    pub base_url: Seq<char>,
    pub auth_token: Seq<char>,
    pub rows: Seq<SourceRow>,
    pub cursor: int,
}

/// The state after a scan has ended: the buffer released, the cursor back
/// at the start, the configuration kept.
pub open spec fn ended(a: AdapterV) -> AdapterV {
    AdapterV { rows: Seq::empty(), cursor: 0, ..a }
}

/// Ending a scan is idempotent: ending an already ended scan changes
/// nothing, so a second immediate end_scan leaves the same state as the
/// first.
pub proof fn lemma_end_scan_idempotent(a: AdapterV)
    ensures
        ended(ended(a)) == ended(a),
{
}

/// The diagnostic for a database_url that does not parse as an absolute
/// URL, around the parser's own message.
pub open spec fn url_error_text(m: Seq<char>) -> Seq<char> {
    "ParseError: "@ + m
        + "\n\ndatabase_url must be of the form: https://[databaseName]-[organizationName].turso.io"@
}

/// The diagnostic for a configured base URL that cannot absorb the scan
/// path.
pub open spec fn join_error_text() -> Seq<char> {
    "request URL could not be built from the configured database_url"@
}

/// The fixed relative path of the remote endpoint, resolved against the
/// configured base URL at every scan start.
pub open spec fn scan_path() -> Seq<char> {
    "/v2/pipeline"@
}

/// The fixed identifying string sent as the user-agent header.
pub open spec fn agent_text() -> Seq<char> {
    "Turso FDW"@
}

/// The authorization header value: the bearer scheme around the stored
/// credential.
pub open spec fn bearer_text(token: Seq<char>) -> Seq<char> {
    "Bearer "@ + token
}

/// The foreign-data adapter: configured once from the options map, then
/// driven by the host through one scan at a time — begin_scan buffers one
/// fetched response, iter_scan materializes one buffered record per call,
/// end_scan releases the buffer. The write path is unsupported.
#[derive(Debug)]
pub struct Adapter {
    base_url: String,
    auth_token: String,
    rows: Vec<SourceRow>,
    cursor: usize,
}

impl View for Adapter {
    type V = AdapterV;

    closed spec fn view(&self) -> AdapterV {
        AdapterV {
            base_url: self.base_url@,
            auth_token: self.auth_token@,
            rows: self.rows@,
            cursor: self.cursor as int,
        }
    }
}

impl Adapter {
    /// The cursor never exceeds the buffer length.
    pub open spec fn wf(&self) -> bool {
        0 <= self@.cursor <= self@.rows.len()
    }

    /// The semantic-versioning requirement on the host runtime that this
    /// adapter supports, checked by the host before any other call.
    pub fn host_version_requirement() -> (r: String)
        ensures
            r@ == "^0.1.0"@,
    {
        String::from_str("^0.1.0")
    }

    /// Builds the adapter from the host's options map.
    ///
    /// Requires the `database_url` and `auth_token` options, in that
    /// order: a missing key fails naming that key, and a `database_url`
    /// that is not an absolute URL fails with the URL diagnostic. On
    /// success the parsed URL and the unmodified token are stored, with an
    /// empty buffer and the cursor at the start.
    pub fn initialize(options: &Options) -> (r: Result<Adapter, FdwError>)
        ensures
            match opts_lookup(options.entries@, "database_url"@) {
                None => r matches Err(e) && e@ == FdwErrorV::MissingOption("database_url"@),
                Some(u) => match url_parse_of(u) {
                    Err(m) => r matches Err(e) && e@ == FdwErrorV::InvalidUrl(url_error_text(m)),
                    Ok(n) => match opts_lookup(options.entries@, "auth_token"@) {
                        None => r matches Err(e) && e@ == FdwErrorV::MissingOption("auth_token"@),
                        Some(t) => r matches Ok(a) && a@.base_url == n && a@.auth_token == t
                            && a@.rows == Seq::<SourceRow>::empty() && a@.cursor == 0 && a.wf(),
                    },
                },
            },
    {
        let url_raw = match options.require("database_url") {
            Ok(v) => v,
            Err(e) => {
                return Err(e);
            },
        };
        let base = match parse_url(url_raw.as_str()) {
            Ok(u) => u,
            Err(m) => {
                let mut msg = String::from_str("ParseError: ");
                msg.append(m.as_str());
                msg.append(
                    "\n\ndatabase_url must be of the form: https://[databaseName]-[organizationName].turso.io",
                );
                return Err(FdwError::InvalidUrl(msg));
            },
        };
        let token = match options.require("auth_token") {
            Ok(v) => v,
            Err(e) => {
                return Err(e);
            },
        };
        Ok(Adapter { base_url: base, auth_token: token, rows: Vec::new(), cursor: 0 })
    }

    /// The stored endpoint base, as the parsed URL's serialization.
    pub fn base_url(&self) -> (r: &String)
        ensures
            r@ == self@.base_url,
    {
        &self.base_url
    }

    /// The stored credential, exactly as configured.
    pub fn auth_token(&self) -> (r: &String)
        ensures
            r@ == self@.auth_token,
    {
        &self.auth_token
    }

    /// The index of the next unread buffered record.
    pub fn cursor(&self) -> (r: usize)
        ensures
            r == self@.cursor,
    {
        self.cursor
    }

    /// How many records the current scan has buffered.
    pub fn buffered_rows(&self) -> (r: usize)
        ensures
            r == self@.rows.len(),
    {
        self.rows.len()
    }

    /// The request a scan must perform: GET on the endpoint path resolved
    /// against the stored base, identifying this adapter and bearing the
    /// stored credential.
    pub fn request_for_scan(&self) -> (r: Result<HttpRequest, FdwError>)
        ensures
            url_join_of(self@.base_url, scan_path()) matches Some(u) ==> (r matches Ok(q)
                && q.method is Get && q.url@ == u && q.headers@.len() == 2 && q.headers@[0].0@
                == "user-agent"@ && q.headers@[0].1@ == agent_text() && q.headers@[1].0@
                == "authorization"@ && q.headers@[1].1@ == bearer_text(self@.auth_token) && q.body@
                == Seq::<char>::empty()),
            url_join_of(self@.base_url, scan_path()) is None ==> (r matches Err(e) && e@
                == FdwErrorV::InvalidUrl(join_error_text())),
    {
        match join_url(self.base_url.as_str(), "/v2/pipeline") {
            Some(u) => {
                let mut headers: Vec<(String, String)> = Vec::new();
                headers.push((String::from_str("user-agent"), String::from_str("Turso FDW")));
                let mut auth = String::from_str("Bearer ");
                auth.append(self.auth_token.as_str());
                headers.push((String::from_str("authorization"), auth));
                Ok(HttpRequest { method: HttpMethod::Get, url: u, headers, body: String::new() })
            },
            None => Err(
                FdwError::InvalidUrl(
                    String::from_str(
                        "request URL could not be built from the configured database_url",
                    ),
                ),
            ),
        }
    }

    /// Takes the outcome of performing the scan request and starts the
    /// scan.
    ///
    /// A transport failure is fatal and changes nothing. A body that is
    /// not valid JSON, or whose top level is not an array, is fatal and
    /// changes nothing. Otherwise the array is buffered whole, the cursor
    /// returns to the start, and the row count is handed back for the
    /// host's diagnostics.
    pub fn begin_scan(&mut self, response: Result<String, String>) -> (r: Result<usize, FdwError>)
        ensures
            final(self)@.base_url == old(self)@.base_url,
            final(self)@.auth_token == old(self)@.auth_token,
            response matches Err(m) ==> (r matches Err(e) && e@ == FdwErrorV::Fetch(m@)
                && final(self)@ == old(self)@),
            response matches Ok(body) ==> match json_rows_of(body@) {
                Ok(rows) => r matches Ok(n) && n == rows.len() && final(self)@.rows == rows
                    && final(self)@.cursor == 0,
                Err(f) => r matches Err(e) && e@ == f && final(self)@ == old(self)@,
            },
            old(self).wf() ==> final(self).wf(),
    {
        let body = match response {
            Ok(b) => b,
            Err(m) => {
                return Err(FdwError::Fetch(m));
            },
        };
        match parse_rows(body.as_str()) {
            Ok(rows) => {
                let n = rows.len();
                self.rows = rows;
                self.cursor = 0;
                Ok(n)
            },
            Err(e) => Err(e),
        }
    }

    /// Materializes the record under the cursor against the requested
    /// columns, in the order given.
    ///
    /// With the buffer exhausted it reports end-of-data and changes
    /// nothing — the sole termination signal of the iteration. Otherwise
    /// it either hands back the materialized row and advances the cursor
    /// by exactly one, or fails on the first offending column and leaves
    /// the cursor where it was.
    pub fn iter_scan(&mut self, columns: &Vec<Column>) -> (r: Result<
        Option<Vec<Option<Cell>>>,
        FdwError,
    >)
        ensures
            final(self)@.base_url == old(self)@.base_url,
            final(self)@.auth_token == old(self)@.auth_token,
            final(self)@.rows == old(self)@.rows,
            old(self)@.cursor >= old(self)@.rows.len() ==> (r matches Ok(o) && o is None
                && final(self)@ == old(self)@),
            old(self)@.cursor < old(self)@.rows.len() ==> match materialize_row(
                old(self)@.rows[old(self)@.cursor],
                columns@,
            ) {
                Ok(cells) => r matches Ok(o) && o matches Some(row) && cells_view(row@) == cells
                    && final(self)@.cursor == old(self)@.cursor + 1,
                Err(f) => r matches Err(e) && e@ == f && final(self)@ == old(self)@,
            },
            old(self).wf() ==> final(self).wf(),
    {
        if self.cursor >= self.rows.len() {
            return Ok(None);
        }
        let idx = self.cursor;
        let rec = &self.rows[idx];
        let mut out: Vec<Option<Cell>> = Vec::new();
        proof {
            assert(cells_view(out@) =~= Seq::<Option<CellV>>::empty());
            if let Ok(r0) = mat_from(*rec, columns@, 0) {
                assert(Seq::<Option<CellV>>::empty() + r0 =~= r0);
            }
        }
        let mut i: usize = 0;
        while i < columns.len()
            invariant
                i <= columns@.len(),
                out@.len() == i,
                self@ == old(self)@,
                idx == old(self)@.cursor,
                0 <= idx < old(self)@.rows.len(),
                *rec == old(self)@.rows[idx as int],
                mat_from(*rec, columns@, 0) == mat_append(
                    cells_view(out@),
                    mat_from(*rec, columns@, i as int),
                ),
            decreases columns@.len() - i,
        {
            let c = &columns[i];
            let v = match find_field(rec, c.name.as_str()) {
                Some(v) => v,
                None => {
                    return Err(FdwError::MissingColumn(c.name.clone()));
                },
            };
            let cell = match coerce(c.tag, v, &c.name) {
                Ok(cell) => cell,
                Err(e) => {
                    return Err(e);
                },
            };
            proof {
                let ghost pre = cells_view(out@);
                let ghost cv = opt_cell_view(cell);
                assert(mat_from(*rec, columns@, i as int) == mat_append(
                    seq![cv],
                    mat_from(*rec, columns@, i + 1),
                ));
                assert(cells_view(out@.push(cell)) =~= pre.push(cv));
                if let Ok(rest) = mat_from(*rec, columns@, i + 1) {
                    assert(pre + (seq![cv] + rest) =~= pre.push(cv) + rest);
                }
            }
            out.push(cell);
            i += 1;
        }
        proof {
            assert(mat_from(*rec, columns@, i as int) == Ok::<Seq<Option<CellV>>, FdwErrorV>(
                Seq::empty(),
            ));
            assert(cells_view(out@) + Seq::<Option<CellV>>::empty() =~= cells_view(out@));
        }
        self.cursor = idx + 1;
        Ok(Some(out))
    }

    /// Restarting the iteration without a fresh fetch is not supported:
    /// the adapter does not retain what a safe reset would need, so it
    /// fails loudly and changes nothing.
    pub fn re_scan(&mut self) -> (r: Result<(), FdwError>)
        ensures
            r matches Err(e) && e@ == FdwErrorV::RescanUnsupported,
            final(self)@ == old(self)@,
            old(self).wf() ==> final(self).wf(),
    {
        Err(FdwError::RescanUnsupported)
    }

    /// Ends the scan: releases the buffered rows and puts the cursor back
    /// at the start. Never fails, whatever the prior state, so ending an
    /// already ended scan changes nothing.
    pub fn end_scan(&mut self) -> (r: Result<(), FdwError>)
        ensures
            r is Ok,
            final(self)@ == ended(old(self)@),
            final(self).wf(),
    {
        self.rows.clear();
        self.cursor = 0;
        Ok(())
    }

    /// Opening the write path is not supported and fails without changing
    /// anything.
    pub fn begin_modify(&mut self) -> (r: Result<(), FdwError>)
        ensures
            r matches Err(e) && e@ == FdwErrorV::ModifyUnsupported,
            final(self)@ == old(self)@,
            old(self).wf() ==> final(self).wf(),
    {
        Err(FdwError::ModifyUnsupported)
    }

    /// Present only for interface completeness: unreachable behind
    /// begin_modify's unconditional failure, it succeeds trivially and
    /// changes nothing.
    pub fn insert(&mut self, _row: &Vec<Option<Cell>>) -> (r: Result<(), FdwError>)
        ensures
            r is Ok,
            final(self)@ == old(self)@,
            old(self).wf() ==> final(self).wf(),
    {
        Ok(())
    }

    /// Present only for interface completeness: unreachable behind
    /// begin_modify's unconditional failure, it succeeds trivially and
    /// changes nothing.
    pub fn update(&mut self, _rowid: &Cell, _row: &Vec<Option<Cell>>) -> (r: Result<(), FdwError>)
        ensures
            r is Ok,
            final(self)@ == old(self)@,
            old(self).wf() ==> final(self).wf(),
    {
        Ok(())
    }

    /// Present only for interface completeness: unreachable behind
    /// begin_modify's unconditional failure, it succeeds trivially and
    /// changes nothing.
    pub fn delete(&mut self, _rowid: &Cell) -> (r: Result<(), FdwError>)
        ensures
            r is Ok,
            final(self)@ == old(self)@,
            old(self).wf() ==> final(self).wf(),
    {
        Ok(())
    }

    /// Present only for interface completeness: unreachable behind
    /// begin_modify's unconditional failure, it succeeds trivially and
    /// changes nothing.
    pub fn end_modify(&mut self) -> (r: Result<(), FdwError>)
        ensures
            r is Ok,
            final(self)@ == old(self)@,
            old(self).wf() ==> final(self).wf(),
    {
        Ok(())
    }
}

} // verus!
