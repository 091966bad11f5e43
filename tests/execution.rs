use middleware_db::engine::{ConnectionError, ExecutionError, MsSql};

#[test]
fn update_reports_one_affected_row() {
    let resp = MsSql::complete(Ok(vec![1])).ok().unwrap();
    assert!(resp.success);
    assert_eq!(resp.row_affected, vec![1]);
    assert!(resp.record_sets.is_empty());
    assert!(resp.output.is_empty());
    assert_eq!(resp.message, "");
}

#[test]
fn batch_counts_are_kept_in_order() {
    let resp = MsSql::complete(Ok(vec![3, 0, 2])).ok().unwrap();
    assert_eq!(resp.row_affected, vec![3, 0, 2]);
}

#[test]
fn driver_failure_is_a_query_error() {
    let err = MsSql::complete(Err(String::from("Invalid column name 'y'."))).err().unwrap();
    assert!(matches!(&err, ExecutionError::Query(m) if m == "Invalid column name 'y'."));
    assert_eq!(err.status(), 400);
    assert_eq!(err.message(), "Invalid column name 'y'.");
}

#[test]
fn missing_connection_string_is_a_configuration_error() {
    assert!(matches!(MsSql::connection_config(None), Err(ConnectionError::Configuration)));
}

#[test]
fn unparsable_connection_string_is_a_configuration_error() {
    let r = MsSql::connection_config(Some(String::from("Server=tcp:localhost,notaport")));
    assert!(matches!(r, Err(ConnectionError::Configuration)));
}

#[test]
fn ca_pinning_connection_string_is_refused() {
    let s = "Server=tcp:localhost,1433;TrustServerCertificateCA=ca.pem";
    assert!(matches!(MsSql::connection_config(Some(String::from(s))), Err(ConnectionError::Configuration)));
    let t = "Server=tcp:localhost,1433;trustservercertificateca=ca.pem";
    assert!(matches!(MsSql::connection_config(Some(String::from(t))), Err(ConnectionError::Configuration)));
}

#[test]
fn braced_or_quoted_ca_key_is_refused() {
    let braced = "Server=tcp:h,1433;{TrustServerCertificate}CA=ca.pem";
    assert!(matches!(MsSql::connection_config(Some(String::from(braced))), Err(ConnectionError::Configuration)));
    let split = "Server=tcp:h,1433;TrustServerCertificate\nCA=ca.pem";
    assert!(matches!(MsSql::connection_config(Some(String::from(split))), Err(ConnectionError::Configuration)));
    let quoted = "Server=tcp:h,1433;TrustServerCertificate=true;\"TrustServer\"CertificateCA=ca.pem";
    assert!(matches!(MsSql::connection_config(Some(String::from(quoted))), Err(ConnectionError::Configuration)));
}

#[test]
fn values_resembling_the_ca_key_are_accepted() {
    let s = "Server=tcp:db.internal,1433;User Id=sa;Password=CertificateCA1;Database=certificateca";
    let cfg = MsSql::connection_config(Some(String::from(s))).ok().unwrap();
    assert_eq!(cfg.get_addr(), "db.internal:1433");
}

#[test]
fn valid_connection_string_gives_a_config() {
    let s = "Server=tcp:db.internal,1433;User Id=sa;Password=SECRET-REDACTED;Database=app";
    let cfg = MsSql::connection_config(Some(String::from(s))).ok().unwrap();
    assert_eq!(cfg.get_addr(), "db.internal:1433");
}

#[test]
fn unreachable_host_answers_with_a_generic_server_error() {
    let cause = ConnectionError::Transport(String::from("db.internal:1433 unreachable, user sa"));
    let err = MsSql::connection_failed(cause);
    let (status, body) = MsSql::respond(Err(err));
    assert_eq!(status, 500);
    assert!(!body.success);
    assert_eq!(body.message, "MsSql connection");
    assert!(!body.message.contains("db.internal"));
    assert!(!body.message.contains("sa"));
    assert!(body.row_affected.is_empty());
}

#[test]
fn handshake_failure_is_reported_like_transport_failure() {
    let err = MsSql::connection_failed(ConnectionError::Handshake(String::from("Login failed")));
    assert!(matches!(err, ExecutionError::Connection));
    assert_eq!(err.status(), 500);
}

#[test]
fn success_answers_ok_with_the_response() {
    let (status, body) = MsSql::respond(MsSql::complete(Ok(vec![1])));
    assert_eq!(status, 200);
    assert!(body.success);
    assert_eq!(body.row_affected, vec![1]);
}

#[test]
fn query_error_answers_bad_request_with_message() {
    let (status, body) = MsSql::respond(Err(ExecutionError::Query(String::from("bad"))));
    assert_eq!(status, 400);
    assert!(!body.success);
    assert_eq!(body.message, "bad");
}
