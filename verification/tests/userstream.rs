use openlimits::client::{Binance, HttpMethod};

#[test]
fn user_stream_lifecycle_requests() {
    let exchange = Binance::with_credential("SECRET-REDACTED", "SECRET-REDACTED");
    assert_eq!(exchange.transport.api_key.as_deref(), Some("SECRET-REDACTED"));

    let start = exchange.user_stream_start_request();
    assert_eq!(start.method, HttpMethod::Post);
    assert_eq!(start.path, "/api/v1/userDataStream");
    assert!(start.params.is_empty());

    let keep = exchange.user_stream_keep_alive_request("lk-1");
    assert_eq!(keep.method, HttpMethod::Put);
    assert_eq!(keep.path, "/api/v1/userDataStream");
    assert_eq!(keep.params, vec![("listen_key".to_string(), "lk-1".to_string())]);

    let close = exchange.user_stream_close_request("lk-1");
    assert_eq!(close.method, HttpMethod::Delete);
    assert_eq!(close.params, vec![("listen_key".to_string(), "lk-1".to_string())]);

    let default_client = Binance::default();
    assert!(default_client.transport.api_key.is_none());
}
