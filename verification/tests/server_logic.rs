use card_server::card_processor::CardProcessor;
use card_server::config::ServerConfig;
use card_server::protocol::{CardData, ACK_RESPONSE};
use card_server::tcp_server::{connection_step, plan_listeners, ConnAction, SocketEvent};

#[test]
fn default_config_values() {
    let config = ServerConfig::new();
    assert_eq!(config.ports, vec![8888, 8889, 8890, 8891, 8892]);
    assert_eq!(config.max_tables, 5);
    assert_eq!(config.host, "0.0.0.0");
    let defaulted = ServerConfig::default();
    assert_eq!(defaulted.ports, config.ports);
    assert_eq!(defaulted.max_tables, config.max_tables);
    assert_eq!(defaulted.host, config.host);
}

#[test]
fn plan_binds_every_port_up_to_the_cap() {
    let config = ServerConfig::new();
    let plan = plan_listeners(&config);
    assert_eq!(
        plan,
        vec![(1, 8888), (2, 8889), (3, 8890), (4, 8891), (5, 8892)]
    );
}

#[test]
fn plan_truncates_at_max_tables() {
    let config = ServerConfig {
        ports: vec![9000, 9001, 9002, 9003],
        max_tables: 2,
        host: "127.0.0.1".to_string(),
    };
    let plan = plan_listeners(&config);
    assert_eq!(plan, vec![(1, 9000), (2, 9001)]);
}

#[test]
fn plan_with_zero_tables_is_empty() {
    let config = ServerConfig {
        ports: vec![9000, 9001],
        max_tables: 0,
        host: "127.0.0.1".to_string(),
    };
    assert!(plan_listeners(&config).is_empty());
}

#[test]
fn plan_with_short_port_list_stops_early() {
    let config = ServerConfig {
        ports: vec![9000],
        max_tables: 5,
        host: "127.0.0.1".to_string(),
    };
    assert_eq!(plan_listeners(&config), vec![(1, 9000)]);
}

#[test]
fn valid_frame_is_acknowledged() {
    let processor = CardProcessor::new();
    let frame = vec![1u8, 1, 0, 0, 0, 0, 0, 0, 0, 0];
    let action = connection_step(&processor, &SocketEvent::Frame(frame));
    match action {
        ConnAction::SendAck(byte) => assert_eq!(byte, ACK_RESPONSE),
        _ => panic!("a well-formed frame must be acknowledged"),
    }
}

#[test]
fn malformed_frame_keeps_the_connection_open() {
    let processor = CardProcessor::new();
    let action = connection_step(&processor, &SocketEvent::Frame(vec![1u8, 2, 3, 4, 5]));
    assert!(matches!(action, ConnAction::KeepReading));

    let followup = vec![1u8, 14, 0, 0, 0, 0, 0, 0, 0, 0];
    let action = connection_step(&processor, &SocketEvent::Frame(followup));
    assert!(matches!(action, ConnAction::SendAck(_)));
}

#[test]
fn transport_failures_disconnect() {
    let processor = CardProcessor::new();
    assert!(matches!(
        connection_step(&processor, &SocketEvent::ReadFailed),
        ConnAction::Disconnect
    ));
    assert!(matches!(
        connection_step(&processor, &SocketEvent::WriteFailed),
        ConnAction::Disconnect
    ));
}

#[test]
fn processor_resolves_card_labels() {
    let processor = CardProcessor::new();
    let frame = CardData { table_id: 1, card_id: 14, timestamp: 42, player: 0 };
    assert_eq!(processor.process_card(frame), "AH");
    let unknown = CardData { table_id: 1, card_id: 500, timestamp: 42, player: 1 };
    assert_eq!(processor.process_card(unknown), "Unknown");
}
