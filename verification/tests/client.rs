use pg_introspect::client::{
    ConnectStep, DisconnectStep, PoolRequest, PostgresClient, MAX_CONNECTIONS,
};
use pg_introspect::error::DbError;

const URL: &str = "postgres://user@localhost/shop";

fn request(connection_string: &str) -> PoolRequest {
    PoolRequest { connection_string: connection_string.to_string(), max_connections: 5 }
}

fn not_connected() -> DbError {
    DbError::Connection("Database client is not connected".to_string())
}

#[test]
fn a_new_client_holds_no_pool() {
    let client = PostgresClient::new(URL).unwrap();
    assert_eq!(client.get_connection_string(), URL);
    assert!(!client.holds_pool());
    assert!(!client.is_connected(false));
    assert!(!client.is_connected(true));
    assert_eq!(client.require_pool(), Err(not_connected()));
}

#[test]
fn connecting_requests_a_pool_of_five() {
    let mut client = PostgresClient::new(URL).unwrap();
    assert_eq!(MAX_CONNECTIONS, 5);
    assert_eq!(client.connect(false), ConnectStep::Open(request(URL)));
    assert_eq!(client.finish_connect(Ok(())), Ok(()));
    assert!(client.holds_pool());
    assert!(client.is_connected(false));
    assert_eq!(client.require_pool(), Ok(()));
}

#[test]
fn connecting_twice_does_nothing() {
    let mut client = PostgresClient::new(URL).unwrap();
    client.finish_connect(Ok(())).unwrap();
    assert_eq!(client.connect(false), ConnectStep::AlreadyConnected);
    assert!(client.is_connected(false));
}

#[test]
fn a_failed_connect_is_a_connection_error() {
    let mut client = PostgresClient::new(URL).unwrap();
    let outcome = client.finish_connect(Err("password authentication failed".to_string()));
    assert_eq!(outcome, Err(DbError::Connection("password authentication failed".to_string())));
    assert!(!client.holds_pool());
    assert!(!client.is_connected(false));
    assert_eq!(client.get_connection_string(), URL);
}

#[test]
fn a_closed_pool_is_not_connected_and_is_replaced() {
    let mut client = PostgresClient::new(URL).unwrap();
    client.finish_connect(Ok(())).unwrap();
    assert!(!client.is_connected(true));
    assert_eq!(client.connect(true), ConnectStep::Open(request(URL)));
    assert_eq!(client.disconnect(true), DisconnectStep::AlreadyDisconnected);
    assert!(client.holds_pool());
}

#[test]
fn disconnecting_gives_up_the_pool() {
    let mut client = PostgresClient::new(URL).unwrap();
    client.finish_connect(Ok(())).unwrap();
    assert_eq!(client.disconnect(false), DisconnectStep::Close);
    assert!(!client.holds_pool());
    assert!(!client.is_connected(false));
    assert!(!client.is_connected(true));
}

#[test]
fn disconnecting_twice_does_nothing() {
    let mut client = PostgresClient::new(URL).unwrap();
    let before = client.clone();
    assert_eq!(client.disconnect(false), DisconnectStep::AlreadyDisconnected);
    assert_eq!(client, before);
    client.finish_connect(Ok(())).unwrap();
    assert_eq!(client.disconnect(false), DisconnectStep::Close);
    let after = client.clone();
    assert_eq!(client.disconnect(false), DisconnectStep::AlreadyDisconnected);
    assert_eq!(client, after);
}

#[test]
fn reconnecting_closes_and_opens() {
    let mut client = PostgresClient::new(URL).unwrap();
    client.finish_connect(Ok(())).unwrap();
    let step = client.reconnect(false);
    assert_eq!(step.disconnect, DisconnectStep::Close);
    assert_eq!(step.open, request(URL));
    assert!(!client.holds_pool());
    client.finish_connect(Ok(())).unwrap();
    assert!(client.is_connected(false));
}

#[test]
fn reconnecting_without_a_pool_only_opens() {
    let mut client = PostgresClient::new(URL).unwrap();
    let step = client.reconnect(false);
    assert_eq!(step.disconnect, DisconnectStep::AlreadyDisconnected);
    assert_eq!(step.open, request(URL));
}

#[test]
fn the_new_connection_string_stays_after_a_failed_reconnect() {
    let mut client = PostgresClient::new(URL).unwrap();
    client.finish_connect(Ok(())).unwrap();
    let step = client.reconnect_with_string("postgres://nowhere/none", false);
    assert_eq!(step.disconnect, DisconnectStep::Close);
    assert_eq!(step.open, request("postgres://nowhere/none"));
    assert_eq!(client.get_connection_string(), "postgres://nowhere/none");
    let outcome = client.finish_connect(Err("connection refused".to_string()));
    assert_eq!(outcome, Err(DbError::Connection("connection refused".to_string())));
    assert_eq!(client.get_connection_string(), "postgres://nowhere/none");
    assert!(!client.is_connected(false));
}

#[test]
fn the_probe_needs_a_pool() {
    let mut client = PostgresClient::new(URL).unwrap();
    assert_eq!(client.test_connection(), Err(not_connected()));
    client.finish_connect(Ok(())).unwrap();
    assert_eq!(client.test_connection(), Ok("SELECT 1".to_string()));
}

#[test]
fn every_error_has_its_message() {
    assert_eq!(DbError::Connection("a".to_string()).message(), "a");
    assert_eq!(DbError::Query("b".to_string()).message(), "b");
    assert_eq!(DbError::Timeout("c".to_string()).message(), "c");
    assert_eq!(DbError::Unsupported(String::new()).message(), "");
}

#[test]
fn a_failed_statement_is_a_query_error() {
    let error = DbError::statement_failed("relation \"x\" does not exist".to_string());
    assert_eq!(error, DbError::Query("relation \"x\" does not exist".to_string()));
    assert_eq!(error.message(), "relation \"x\" does not exist");
}
