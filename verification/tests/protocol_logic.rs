use kvclient::db_error::{DBError, DBErrorKind};
use kvclient::protocol::{conclude_delete, conclude_get, conclude_list, conclude_set,
    key_request_url, list_request_url, parse_list_body, Exchange};

fn err_of<T>(r: Result<T, DBError>) -> DBError {
    match r {
        Ok(_) => panic!("expected an error"),
        Err(e) => e,
    }
}

#[test]
fn set_counts_any_completed_exchange_as_success() {
    let r = conclude_set(Exchange::Responded(200, None));
    assert_eq!(r.unwrap(), true);
    let r = conclude_set(Exchange::Responded(500, None));
    assert_eq!(r.unwrap(), true);
}

#[test]
fn set_transport_failure_is_request_error() {
    let e = err_of(conclude_set(Exchange::Failed(String::from("connection refused"))));
    assert_eq!(e.kind, DBErrorKind::Request);
    assert_eq!(e.message, String::from("connection refused"));
}

#[test]
fn get_returns_body_verbatim() {
    let r = conclude_get(Exchange::Responded(200, Some(String::from("testing"))));
    assert_eq!(r.unwrap(), String::from("testing"));
}

#[test]
fn get_404_is_not_found_before_body() {
    let e = err_of(conclude_get(Exchange::Responded(404, None)));
    assert_eq!(e.kind, DBErrorKind::NotFound);
    assert_eq!(e.message, String::from("Not Found"));
    let e = err_of(conclude_get(Exchange::Responded(404, Some(String::from("ignored")))));
    assert_eq!(e.kind, DBErrorKind::NotFound);
}

#[test]
fn get_unreadable_body_is_parse_error() {
    let e = err_of(conclude_get(Exchange::Responded(200, None)));
    assert_eq!(e.kind, DBErrorKind::ParseText);
    assert_eq!(e.message, String::from("Unable to parse text"));
}

#[test]
fn get_transport_failure_is_request_error() {
    let e = err_of(conclude_get(Exchange::Failed(String::from("dns failure"))));
    assert_eq!(e.kind, DBErrorKind::Request);
    assert_eq!(e.message, String::from("dns failure"));
}

#[test]
fn delete_404_is_not_found() {
    let e = err_of(conclude_delete(Exchange::Responded(404, None)));
    assert_eq!(e.kind, DBErrorKind::NotFound);
    assert_eq!(e.message, String::from("Not Found"));
}

#[test]
fn delete_any_other_status_succeeds() {
    assert_eq!(conclude_delete(Exchange::Responded(200, None)).unwrap(), true);
    assert_eq!(conclude_delete(Exchange::Responded(500, None)).unwrap(), true);
}

#[test]
fn delete_transport_failure_is_request_error() {
    let e = err_of(conclude_delete(Exchange::Failed(String::from("timeout"))));
    assert_eq!(e.kind, DBErrorKind::Request);
    assert_eq!(e.message, String::from("timeout"));
}

#[test]
fn list_url_embeds_prefix_verbatim() {
    let url = list_request_url("http://db.example", Some("pre"));
    assert_eq!(url, String::from("http://db.example?prefix=pre"));
}

#[test]
fn list_url_absent_prefix_equals_empty_prefix() {
    let absent = list_request_url("http://db.example", None);
    let empty = list_request_url("http://db.example", Some(""));
    assert_eq!(absent, empty);
    assert_eq!(absent, String::from("http://db.example?prefix="));
}

#[test]
fn key_url_appends_key_as_path_segment() {
    let url = key_request_url("http://db.example", "test");
    assert_eq!(url, String::from("http://db.example/test"));
}

#[test]
fn list_body_boundaries_at_one_character() {
    assert_eq!(parse_list_body(""), Vec::<String>::new());
    assert_eq!(parse_list_body("a"), Vec::<String>::new());
    assert_eq!(parse_list_body("\n"), Vec::<String>::new());
    assert_eq!(parse_list_body("ab"), vec![String::from("ab")]);
    assert_eq!(parse_list_body("a\n"), vec![String::from("a"), String::from("")]);
}

#[test]
fn list_body_splits_on_newlines() {
    let keys = parse_list_body("alpha\nbeta\ngamma");
    assert_eq!(keys, vec![String::from("alpha"), String::from("beta"), String::from("gamma")]);
}

#[test]
fn list_no_matching_keys_yields_empty_not_error() {
    let r = conclude_list(Exchange::Responded(200, Some(String::from(""))));
    assert_eq!(r.unwrap(), Vec::<String>::new());
}

#[test]
fn list_unreadable_body_is_parse_error() {
    let e = err_of(conclude_list(Exchange::Responded(200, None)));
    assert_eq!(e.kind, DBErrorKind::ParseText);
}

#[test]
fn list_transport_failure_is_request_error() {
    let e = err_of(conclude_list(Exchange::Failed(String::from("tls failure"))));
    assert_eq!(e.kind, DBErrorKind::Request);
    assert_eq!(e.message, String::from("tls failure"));
}

#[test]
fn normal_flow_over_conforming_exchanges() {
    // set "test" = "testing": the store acknowledges.
    let set_res = conclude_set(Exchange::Responded(200, None)).unwrap();
    assert!(set_res);
    // list with prefix "test": the store answers the one matching key.
    let list_res = conclude_list(Exchange::Responded(200, Some(String::from("test")))).unwrap();
    assert_eq!(list_res, vec![String::from("test")]);
    // get "test": the store answers the stored value.
    let get_res = conclude_get(Exchange::Responded(200, Some(String::from("testing")))).unwrap();
    assert_eq!(get_res, String::from("testing"));
    // delete "test": the store acknowledges.
    let delete_res = conclude_delete(Exchange::Responded(200, None)).unwrap();
    assert_eq!(delete_res, true);
    // a later get: the store no longer holds the key.
    let e = err_of(conclude_get(Exchange::Responded(404, None)));
    assert_eq!(e.kind, DBErrorKind::NotFound);
}

#[test]
fn error_constructors_and_texts() {
    let e = DBError::not_found_error();
    assert_eq!(e.kind, DBErrorKind::NotFound);
    assert_eq!(e.message, String::from("Not Found"));
    assert_eq!(e.display_text(), String::from("Not Found"));
    assert_eq!(e.debug_text(), String::from("Not Found"));

    let e = DBError::parse_text_error();
    assert_eq!(e.kind, DBErrorKind::ParseText);
    assert_eq!(e.message, String::from("Unable to parse text"));
    assert_eq!(e.display_text(), String::from("Unable to parse text"));

    let e = DBError::request_error(String::from("boom"));
    assert_eq!(e.kind, DBErrorKind::Request);
    assert_eq!(e.display_text(), String::from("Error when making request"));
    assert_eq!(e.debug_text(), String::from("Error when making request => boom"));
}
