use corebase::error::ErrorKind;
use corebase::network::{
    payload_before_nul, ConnectionState, NetworkConfig, NetworkConnection, NetworkManager,
    NetworkMessage, NetworkProtocol,
};

fn manager_with(ids: &[&str]) -> NetworkManager {
    let mut manager = NetworkManager::new().unwrap();
    for id in ids {
        manager
            .create_connection(NetworkConfig::tcp("localhost", 9000), Some(id.to_string()))
            .unwrap();
    }
    manager
}

#[test]
fn test_network_manager_creation() {
    let manager = NetworkManager::new();
    assert!(manager.is_ok());
    assert!(manager.unwrap().is_initialized());
}

#[test]
fn test_network_config_builders() {
    let tcp_config = NetworkConfig::tcp("localhost", 8080);
    assert_eq!(tcp_config.protocol, NetworkProtocol::TCP);
    assert_eq!(tcp_config.host, "localhost");
    assert_eq!(tcp_config.port, 8080);

    let https_config = NetworkConfig::https("example.com", 443)
        .with_timeout(10_000)
        .with_auth("user", "pass")
        .with_header("Content-Type", "application/json");

    assert_eq!(https_config.protocol, NetworkProtocol::HTTPS);
    assert!(https_config.use_ssl);
    assert_eq!(https_config.timeout_ms, 10000);
    assert_eq!(https_config.username, Some("user".to_string()));
    assert_eq!(https_config.headers.get("Content-Type"), Some(&"application/json".to_string()));
}

#[test]
fn test_network_message() {
    let message = NetworkMessage::new_text("Hello, World!")
        .with_topic("test/topic")
        .with_header("Content-Type", "text/plain")
        .with_sender("test_sender");

    assert_eq!(message.as_text().unwrap(), "Hello, World!");
    assert_eq!(message.topic, Some("test/topic".to_string()));
    assert_eq!(message.headers.get("Content-Type"), Some(&"text/plain".to_string()));
    assert_eq!(message.sender, Some("test_sender".to_string()));
}

#[test]
fn test_protocol_conversion() {
    assert_eq!(NetworkProtocol::from(0), NetworkProtocol::TCP);
    assert_eq!(NetworkProtocol::from(2), NetworkProtocol::HTTP);
    assert_eq!(NetworkProtocol::from(999), NetworkProtocol::TCP);

    assert_eq!(i32::from(NetworkProtocol::UDP), 1);
    assert_eq!(i32::from(NetworkProtocol::HTTPS), 3);
}

#[test]
fn test_default_network_manager() {
    let manager = NetworkManager::default();
    assert_eq!(manager.connection_count(), 0);
}

#[test]
fn presets_and_defaults() {
    let config = NetworkConfig::default();
    assert_eq!(config.host, "localhost");
    assert_eq!(config.port, 8080);
    assert_eq!(config.timeout_ms, 5000);
    assert_eq!(config.max_retries, 3);
    assert_eq!(config.retry_delay_ms, 1000);
    assert!(!config.use_ssl);
    assert!(config.verify_ssl);
    assert_eq!(config.username, None);
    assert!(config.headers.is_empty());
    assert_eq!(NetworkConfig::udp("h", 1).protocol, NetworkProtocol::UDP);
    let http = NetworkConfig::http("h", 80);
    assert_eq!(http.protocol, NetworkProtocol::HTTP);
    assert!(!http.use_ssl);
    let with_param = http.with_param("retry", "yes").with_param("retry", "no");
    assert_eq!(with_param.custom_params.get("retry"), Some(&"no".to_string()));
    assert_eq!(with_param.custom_params.len(), 1);
}

#[test]
fn timeout_is_kept_in_thirty_two_bits() {
    let config = NetworkConfig::tcp("h", 1).with_timeout((1u64 << 32) + 5);
    assert_eq!(config.timeout_ms, 5);
}

#[test]
fn create_then_get_returns_the_same_connection() {
    let mut manager = NetworkManager::new().unwrap();
    let config = NetworkConfig::tcp("10.0.0.1", 4000).with_header("k", "v");
    let created = manager.create_connection(config, Some("conn-1".to_string())).unwrap();
    assert_eq!(created.state, ConnectionState::Connected);
    let fetched = manager.get_connection("conn-1").unwrap();
    assert_eq!(fetched.id, created.id);
    assert_eq!(fetched.state, ConnectionState::Connected);
    assert_eq!(fetched.config.host, "10.0.0.1");
    assert_eq!(fetched.config.port, 4000);
    assert_eq!(fetched.config.headers.get("k"), Some(&"v".to_string()));
    assert_eq!(manager.connection_count(), 1);
}

#[test]
fn create_failures_leave_registry_alone() {
    let mut manager = manager_with(&["a"]);
    let refused = manager.create_connection(NetworkConfig::tcp("h", 1), None).unwrap_err();
    assert_eq!(refused.kind(), ErrorKind::NetworkError);
    assert_eq!(refused.detail(), "Failed to create network connection");
    let bad_host = manager
        .create_connection(NetworkConfig::tcp("h\0st", 1), Some("b".to_string()))
        .unwrap_err();
    assert_eq!(bad_host.kind(), ErrorKind::InvalidString);
    assert!(manager.prepare_connection(&NetworkConfig::tcp("h\0st", 1)).is_err());
    assert!(manager.prepare_connection(&NetworkConfig::tcp("host", 1)).is_ok());
    assert_eq!(manager.connection_count(), 1);
}

#[test]
fn close_unknown_is_not_found_and_changes_nothing() {
    let mut manager = manager_with(&["a", "b"]);
    for status in [0, 1, -1] {
        let err = manager.close_connection("missing", status).unwrap_err();
        assert_eq!(err.kind(), ErrorKind::ResourceNotFound);
        assert_eq!(err.detail(), "Connection not found: missing");
        assert_eq!(manager.connection_count(), 2);
    }
    assert!(manager.get_connection("a").is_ok());
    assert!(manager.get_connection("b").is_ok());
}

#[test]
fn close_removes_only_after_transport_success() {
    let mut manager = manager_with(&["a", "b"]);
    let err = manager.close_connection("a", 4).unwrap_err();
    assert_eq!(err.kind(), ErrorKind::NetworkError);
    assert_eq!(err.detail(), "Failed to close connection");
    assert_eq!(manager.connection_count(), 2);
    assert!(manager.close_connection("a", 0).is_ok());
    assert_eq!(manager.connection_count(), 1);
    assert_eq!(manager.get_connection("a").unwrap_err().kind(), ErrorKind::ResourceNotFound);
    assert!(manager.get_connection("b").is_ok());
}

#[test]
fn close_all_leaves_no_connection() {
    let mut manager = manager_with(&["a", "b", "c"]);
    assert_eq!(manager.connection_count(), 3);
    let ids = manager.close_all_connections();
    assert_eq!(ids, vec!["a".to_string(), "b".to_string(), "c".to_string()]);
    assert_eq!(manager.connection_count(), 0);
    assert!(manager.list_connections().unwrap().is_empty());
}

#[test]
fn broadcast_reports_exactly_the_failed_connection() {
    let manager = manager_with(&["A", "B"]);
    let message = NetworkMessage::new_text("ping");
    let failed = manager.broadcast_message(&message, &vec![0, 1]).unwrap();
    assert_eq!(failed, vec!["B".to_string()]);
    assert_eq!(manager.connection_count(), 2);
    assert!(manager.get_connection("B").is_ok());
    let missing_status = manager.broadcast_message(&message, &vec![0]).unwrap();
    assert_eq!(missing_status, vec!["B".to_string()]);
    let binary = NetworkMessage::new_binary(vec![0xff, 0xfe]);
    let all = manager.broadcast_message(&binary, &vec![0, 0]).unwrap();
    assert_eq!(all, vec!["A".to_string(), "B".to_string()]);
}

#[test]
fn list_connections_in_registry_order() {
    let mut manager = manager_with(&["x", "y"]);
    manager
        .create_connection(NetworkConfig::udp("other", 7), Some("x".to_string()))
        .unwrap();
    let listed = manager.list_connections().unwrap();
    assert_eq!(listed.len(), 2);
    assert_eq!(listed[0].id, "x");
    assert_eq!(listed[0].config.protocol, NetworkProtocol::UDP);
    assert_eq!(listed[1].id, "y");
}

#[test]
fn send_message_checks_then_reads_status() {
    let manager = manager_with(&["a"]);
    let text = NetworkMessage::new_text("hello");
    assert!(manager.send_message("a", &text, 0).is_ok());
    let refused = manager.send_message("a", &text, 2).unwrap_err();
    assert_eq!(refused.detail(), "Failed to send message");
    assert_eq!(
        manager.send_message("zz", &text, 0).unwrap_err().kind(),
        ErrorKind::ResourceNotFound
    );
    let binary = NetworkMessage::new_binary(vec![0xc3, 0x28]);
    let invalid = manager.send_message("a", &binary, 0).unwrap_err();
    assert_eq!(invalid.kind(), ErrorKind::NetworkError);
    assert!(invalid.detail().starts_with("Invalid message data: "));
    let with_nul = NetworkMessage::new_text("a\0b");
    assert_eq!(
        manager.send_message("a", &with_nul, 0).unwrap_err().kind(),
        ErrorKind::InvalidString
    );
    let connection = manager.get_connection("a").unwrap();
    assert_eq!(connection.send_text(&text).unwrap(), "hello");
    assert!(NetworkConnection::send_outcome(0).is_ok());
    assert!(NetworkConnection::close_outcome(1).is_err());
}

#[test]
fn receive_keeps_bytes_before_the_terminator() {
    let manager = manager_with(&["a"]);
    let mut buffer = vec![0u8; 16];
    buffer[..2].copy_from_slice(b"hi");
    buffer[3] = b'x';
    let message = manager.receive_message("a", 0, &buffer).unwrap();
    assert_eq!(message.as_bytes(), b"hi");
    assert_eq!(message.topic, None);
    assert_eq!(message.sender, None);
    assert!(message.headers.is_empty());
    let refused = manager.receive_message("a", 1, &buffer).unwrap_err();
    assert_eq!(refused.detail(), "Failed to receive message");
    assert_eq!(
        manager.receive_message("b", 0, &buffer).unwrap_err().kind(),
        ErrorKind::ResourceNotFound
    );
    assert_eq!(payload_before_nul(b"abc"), b"abc".to_vec());
    assert_eq!(payload_before_nul(b"\0abc"), Vec::<u8>::new());
}

#[test]
fn message_builders_commute() {
    let base = || NetworkMessage::new_binary(vec![1, 2, 3]);
    let orders = vec![
        base().with_topic("t").with_header("k", "v").with_sender("s"),
        base().with_topic("t").with_sender("s").with_header("k", "v"),
        base().with_header("k", "v").with_topic("t").with_sender("s"),
        base().with_header("k", "v").with_sender("s").with_topic("t"),
        base().with_sender("s").with_topic("t").with_header("k", "v"),
        base().with_sender("s").with_header("k", "v").with_topic("t"),
    ];
    for message in orders {
        assert_eq!(message.data, vec![1, 2, 3]);
        assert_eq!(message.topic, Some("t".to_string()));
        assert_eq!(message.headers.get("k"), Some(&"v".to_string()));
        assert_eq!(message.headers.len(), 1);
        assert_eq!(message.sender, Some("s".to_string()));
    }
}

#[test]
fn text_decoding_and_clock() {
    let message = NetworkMessage::new_text("héllo");
    assert_eq!(message.as_bytes(), "héllo".as_bytes());
    assert_eq!(message.as_text().unwrap(), "héllo");
    assert!(message.timestamp > 1_600_000_000);
    let invalid = NetworkMessage::new_binary(vec![b'o', b'k', 0xff]);
    let err = invalid.as_text().unwrap_err();
    assert_eq!(err.kind(), ErrorKind::NetworkError);
    assert!(err.detail().starts_with("Invalid UTF-8: "));
    assert!(err.detail().len() > "Invalid UTF-8: ".len());
    let stamped = NetworkMessage::at_time(vec![7], 42);
    assert_eq!(stamped.timestamp, 42);
}
