use process_triggers::commands::{get_mqtt_connection, mqtt_connect, save_mqtt_connection};
use process_triggers::mqtt::{
    decimal_string, server_uri_of, ConnectOutcome, Message, MqttClient, Qos,
    CONNECT_TIMEOUT_SECS, RETRY_INTERVAL_SECS,
};
use process_triggers::mqtt_settings::MqttSettings;
use process_triggers::storage::{FileRead, Storage, MQTT_SETTINGS_PATH};

#[test]
fn new_client_is_disconnected_and_has_no_settings() {
    let client = MqttClient::new();
    assert!(!client.holds_session());
    assert!(!client.is_connected(true));
    assert_eq!(client.current_settings(), None);
    assert_eq!(get_mqtt_connection(&client), None);
    assert_eq!(client.publish(&"t".to_string(), &"v".to_string()), None);
}

#[test]
fn connect_without_settings_opens_nothing() {
    let mut client = MqttClient::new();
    let plan = client.connect();
    assert!(!plan.disconnect_first);
    assert_eq!(plan.server_uri, None);
    assert!(!client.holds_session());
    client.connect_finished(ConnectOutcome::Connected);
    assert!(!client.holds_session());
}

#[test]
fn connect_plan_names_the_broker_and_the_timeouts() {
    let mut client = MqttClient::new();
    client.set_settings(MqttSettings::default());
    let plan = client.connect();
    assert!(!plan.disconnect_first);
    assert_eq!(plan.server_uri, Some("tcp://localhost:1883".to_string()));
    assert_eq!(plan.timeout_secs, 5);
    assert_eq!(plan.retry_interval_secs, 1);
    assert_eq!(CONNECT_TIMEOUT_SECS, 5);
    assert_eq!(RETRY_INTERVAL_SECS, 1);
}

#[test]
fn connected_client_is_connected_while_the_link_is_up() {
    let mut client = MqttClient::new();
    client.set_settings(MqttSettings::default());
    let _ = client.connect();
    client.connect_finished(ConnectOutcome::Connected);
    assert!(client.holds_session());
    assert!(client.is_connected(true));
    assert!(!client.is_connected(false));
}

#[test]
fn failed_attempts_leave_the_client_disconnected() {
    for outcome in [ConnectOutcome::CreateFailed, ConnectOutcome::ConnectFailed] {
        let mut client = MqttClient::new();
        client.set_settings(MqttSettings::default());
        let _ = client.connect();
        client.connect_finished(ConnectOutcome::Connected);
        let plan = client.connect();
        assert!(plan.disconnect_first);
        assert!(!client.holds_session());
        client.connect_finished(outcome);
        assert!(!client.holds_session());
        assert!(!client.is_connected(true));
    }
}

#[test]
fn reconnect_gives_up_the_old_session_first() {
    let mut client = MqttClient::new();
    client.set_settings(MqttSettings { ip: "10.0.0.2".to_string(), port: 1 });
    let _ = mqtt_connect(&mut client);
    client.connect_finished(ConnectOutcome::Connected);
    let plan = mqtt_connect(&mut client);
    assert!(plan.disconnect_first);
    assert_eq!(plan.server_uri, Some("tcp://10.0.0.2:1".to_string()));
    assert!(!client.holds_session());
    assert_eq!(
        client.current_settings(),
        Some(MqttSettings { ip: "10.0.0.2".to_string(), port: 1 })
    );
}

#[test]
fn publish_asks_for_exactly_once_and_retained() {
    let mut client = MqttClient::new();
    client.set_settings(MqttSettings::default());
    let _ = client.connect();
    client.connect_finished(ConnectOutcome::Connected);
    assert_eq!(
        client.publish(&"home/pc".to_string(), &"on".to_string()),
        Some(Message {
            topic: "home/pc".to_string(),
            payload: "on".to_string(),
            qos: Qos::ExactlyOnce,
            retained: true,
        })
    );
    assert_eq!(
        client.publish(&String::new(), &String::new()),
        Some(Message {
            topic: String::new(),
            payload: String::new(),
            qos: Qos::ExactlyOnce,
            retained: true,
        })
    );
}

#[test]
fn ports_are_written_in_decimal() {
    assert_eq!(decimal_string(0), "0");
    assert_eq!(decimal_string(7), "7");
    assert_eq!(decimal_string(10), "10");
    assert_eq!(decimal_string(1883), "1883");
    assert_eq!(decimal_string(40960), "40960");
    assert_eq!(decimal_string(65535), "65535");
    for port in [0u16, 9, 99, 100, 255, 1024, 8883, 65535] {
        assert_eq!(decimal_string(port), port.to_string());
    }
}

#[test]
fn server_uri_joins_host_and_port() {
    let uri = server_uri_of(&MqttSettings { ip: "mqtt.example.org".to_string(), port: 8883 });
    assert_eq!(uri, "tcp://mqtt.example.org:8883");
    let empty_host = server_uri_of(&MqttSettings { ip: String::new(), port: 0 });
    assert_eq!(empty_host, "tcp://:0");
}

#[test]
fn default_settings_are_localhost_1883() {
    let settings = MqttSettings::default();
    assert_eq!(settings.ip, "localhost");
    assert_eq!(settings.port, 1883);
    assert_eq!(settings.duplicate(), settings);
}

#[test]
fn new_settings_are_saved_and_connected_with() {
    let mut client = MqttClient::new();
    client.set_settings(MqttSettings::default());
    let _ = client.connect();
    client.connect_finished(ConnectOutcome::Connected);

    let mut storage = Storage::new();
    storage.set_path("/data".to_string());
    let change = save_mqtt_connection(&mut client, &storage, "10.1.2.3".to_string(), 1884);

    let expected = MqttSettings { ip: "10.1.2.3".to_string(), port: 1884 };
    assert_eq!(get_mqtt_connection(&client), Some(expected.clone()));
    assert!(!client.holds_session());
    assert!(change.plan.disconnect_first);
    assert_eq!(change.plan.server_uri, Some("tcp://10.1.2.3:1884".to_string()));
    let write = change.write.expect("a directory is set");
    assert_eq!(write.file_name, MQTT_SETTINGS_PATH);
    let loaded = storage.get_mqtt_settings(&FileRead::Content(write.data));
    assert_eq!(loaded.settings, expected);
    assert_eq!(loaded.write_back, None);
}

#[test]
fn new_settings_without_a_directory_are_not_written() {
    let mut client = MqttClient::new();
    let storage = Storage::new();
    let change = save_mqtt_connection(&mut client, &storage, "h".to_string(), 2);
    assert_eq!(change.write, None);
    assert!(!change.plan.disconnect_first);
    assert_eq!(change.plan.server_uri, Some("tcp://h:2".to_string()));
    assert_eq!(get_mqtt_connection(&client), Some(MqttSettings { ip: "h".to_string(), port: 2 }));
}
