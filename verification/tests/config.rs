use turso_fdw::Adapter;
use turso_fdw::FdwError;
use turso_fdw::HttpMethod;
use turso_fdw::Options;

fn opts(entries: &[(&str, &str)]) -> Options {
    let mut o = Options::new();
    for (k, v) in entries {
        o.set(k.to_string(), v.to_string());
    }
    o
}

#[test]
fn init_stores_options_verbatim() {
    let o = opts(&[
        ("database_url", "https://db-org.turso.io"),
        ("auth_token", "token-abc"),
    ]);
    let a = Adapter::initialize(&o).unwrap();
    // the URL is stored parsed (normalized with its root path), the token unmodified
    assert_eq!(a.base_url().as_str(), "https://db-org.turso.io/");
    assert_eq!(a.auth_token().as_str(), "token-abc");
    assert_eq!(a.cursor(), 0);
    assert_eq!(a.buffered_rows(), 0);
}

#[test]
fn init_missing_database_url() {
    let o = opts(&[("auth_token", "t")]);
    let e = Adapter::initialize(&o).unwrap_err();
    assert_eq!(e, FdwError::MissingOption("database_url".to_string()));
}

#[test]
fn init_missing_auth_token() {
    let o = opts(&[("database_url", "https://db-org.turso.io")]);
    let e = Adapter::initialize(&o).unwrap_err();
    assert_eq!(e, FdwError::MissingOption("auth_token".to_string()));
}

#[test]
fn init_empty_options_names_database_url() {
    let o = Options::new();
    let e = Adapter::initialize(&o).unwrap_err();
    assert_eq!(e, FdwError::MissingOption("database_url".to_string()));
}

#[test]
fn init_rejects_relative_url() {
    let o = opts(&[("database_url", "db-org.turso.io"), ("auth_token", "t")]);
    match Adapter::initialize(&o).unwrap_err() {
        FdwError::InvalidUrl(msg) => {
            assert!(msg.starts_with("ParseError: "));
            assert!(msg.contains(
                "database_url must be of the form: https://[databaseName]-[organizationName].turso.io"
            ));
        }
        other => panic!("expected InvalidUrl, got {:?}", other),
    }
}

#[test]
fn options_require_first_match_wins() {
    let mut o = Options::new();
    o.set("k".to_string(), "first".to_string());
    o.set("k".to_string(), "second".to_string());
    assert_eq!(o.require("k").unwrap(), "first");
    assert_eq!(
        o.require("missing").unwrap_err(),
        FdwError::MissingOption("missing".to_string())
    );
}

#[test]
fn host_version_requirement_is_fixed() {
    assert_eq!(Adapter::host_version_requirement(), "^0.1.0");
}

#[test]
fn request_for_scan_builds_url_and_headers() {
    let o = opts(&[
        ("database_url", "https://db-org.turso.io"),
        ("auth_token", "tok-123"),
    ]);
    let a = Adapter::initialize(&o).unwrap();
    let q = a.request_for_scan().unwrap();
    assert_eq!(q.method, HttpMethod::Get);
    assert_eq!(q.url, "https://db-org.turso.io/v2/pipeline");
    assert_eq!(q.headers.len(), 2);
    assert_eq!(q.headers[0].0, "user-agent");
    assert_eq!(q.headers[0].1, "Turso FDW");
    assert_eq!(q.headers[1].0, "authorization");
    assert_eq!(q.headers[1].1, "Bearer tok-123");
    assert_eq!(q.body, "");
}

#[test]
fn request_for_scan_replaces_base_path() {
    let o = opts(&[
        ("database_url", "https://db-org.turso.io/some/other"),
        ("auth_token", "t"),
    ]);
    let a = Adapter::initialize(&o).unwrap();
    let q = a.request_for_scan().unwrap();
    // an absolute path resolves against the host, not the stored path
    assert_eq!(q.url, "https://db-org.turso.io/v2/pipeline");
}

#[test]
fn str_eq_matches_exactly() {
    assert!(turso_fdw::str_eq("abc", "abc"));
    assert!(!turso_fdw::str_eq("abc", "abd"));
    assert!(!turso_fdw::str_eq("abc", "ab"));
    assert!(!turso_fdw::str_eq("Abc", "abc"));
    assert!(turso_fdw::str_eq("", ""));
}
