use process_triggers::fetch_processes::{fetch_processes, ProcessSnapshot};
use process_triggers::mqtt::{ConnectOutcome, Message, MqttClient, Qos};
use process_triggers::mqtt_settings::MqttSettings;
use process_triggers::process_entry::ProcessEntry;
use process_triggers::setup::{reconcile, setup, Companion};

fn connected_client() -> MqttClient {
    let mut client = MqttClient::new();
    client.set_settings(MqttSettings::default());
    let _ = client.connect();
    client.connect_finished(ConnectOutcome::Connected);
    client
}

fn trigger(name: &str, topic: &str, on: &str, off: &str, is_running: bool) -> ProcessEntry {
    ProcessEntry {
        is_running,
        name: name.to_string(),
        topic: topic.to_string(),
        value: on.to_string(),
        off_value: off.to_string(),
    }
}

fn snapshot(names: &[&str]) -> ProcessSnapshot {
    let reported: Vec<Option<String>> = names.iter().map(|n| Some(n.to_string())).collect();
    fetch_processes(&reported)
}

fn sent(topic: &str, payload: &str) -> Message {
    Message {
        topic: topic.to_string(),
        payload: payload.to_string(),
        qos: Qos::ExactlyOnce,
        retained: true,
    }
}

#[test]
fn game_starts_then_stops() {
    let client = connected_client();
    let mut entries = vec![trigger("game.exe", "t/1", "1", "0", false)];

    let first = reconcile(&mut entries, &snapshot(&["game.exe"]), &client, &None);
    assert!(entries[0].is_running);
    assert_eq!(first.messages, vec![sent("t/1", "1")]);
    assert_eq!(first.running_states, vec![true]);

    let second = reconcile(&mut entries, &snapshot(&[]), &client, &None);
    assert!(!entries[0].is_running);
    assert_eq!(second.messages, vec![sent("t/1", "0")]);
    assert_eq!(second.running_states, vec![false]);
}

#[test]
fn start_is_followed_by_the_companion() {
    let client = connected_client();
    let mut entries = vec![trigger("game.exe", "t/1", "1", "0", false)];
    let companion = Some(Companion::brightness());

    let first = reconcile(&mut entries, &snapshot(&["game.exe"]), &client, &companion);
    assert_eq!(
        first.messages,
        vec![sent("t/1", "1"), sent("tgn/esp_3/neopixel/brightness", "150")]
    );

    let second = reconcile(&mut entries, &snapshot(&[]), &client, &companion);
    assert_eq!(second.messages, vec![sent("t/1", "0")]);
}

#[test]
fn brightness_companion_has_the_fixed_topic_and_payload() {
    let companion = Companion::brightness();
    assert_eq!(companion.topic, "tgn/esp_3/neopixel/brightness");
    assert_eq!(companion.payload, "150");
}

#[test]
fn every_trigger_takes_the_state_of_the_snapshot() {
    let client = connected_client();
    let mut entries = vec![
        trigger("a", "t/a", "on-a", "off-a", false),
        trigger("b", "t/b", "on-b", "off-b", true),
        trigger("c", "t/c", "on-c", "off-c", false),
        trigger("d", "t/d", "on-d", "off-d", true),
    ];
    let processes = snapshot(&["a", "b", "x"]);
    let outcome = reconcile(&mut entries, &processes, &client, &None);
    for entry in &entries {
        assert_eq!(entry.is_running, processes.contains(&entry.name));
    }
    assert_eq!(outcome.running_states, vec![true, true, false, false]);
    assert_eq!(outcome.messages, vec![sent("t/a", "on-a"), sent("t/d", "off-d")]);
    assert_eq!(entries[0].topic, "t/a");
    assert_eq!(entries[3].off_value, "off-d");
}

#[test]
fn no_transition_publishes_nothing() {
    let client = connected_client();
    let mut entries = vec![
        trigger("a", "t/a", "1", "0", true),
        trigger("b", "t/b", "1", "0", false),
    ];
    let before = entries.clone();
    let outcome = reconcile(&mut entries, &snapshot(&["a"]), &client, &Some(Companion::brightness()));
    assert!(outcome.messages.is_empty());
    assert_eq!(outcome.running_states, vec![true, false]);
    assert_eq!(entries, before);
}

#[test]
fn second_tick_on_the_same_snapshot_is_quiet() {
    let client = connected_client();
    let mut entries = vec![
        trigger("a", "t/a", "1", "0", false),
        trigger("b", "t/b", "1", "0", true),
    ];
    let processes = snapshot(&["a"]);
    let first = reconcile(&mut entries, &processes, &client, &None);
    assert_eq!(first.messages.len(), 2);
    let after_first = entries.clone();
    let second = reconcile(&mut entries, &processes, &client, &None);
    assert!(second.messages.is_empty());
    assert_eq!(entries, after_first);
    assert_eq!(second.running_states, first.running_states);
}

#[test]
fn names_are_matched_with_their_case() {
    let client = connected_client();
    let mut entries = vec![trigger("Game.exe", "t", "1", "0", false)];
    let outcome = reconcile(&mut entries, &snapshot(&["game.exe"]), &client, &None);
    assert!(!entries[0].is_running);
    assert!(outcome.messages.is_empty());
}

#[test]
fn two_triggers_on_one_process_both_publish() {
    let client = connected_client();
    let mut entries = vec![
        trigger("a", "t/1", "1", "0", false),
        trigger("a", "t/2", "yes", "no", false),
    ];
    let outcome = reconcile(&mut entries, &snapshot(&["a"]), &client, &None);
    assert_eq!(outcome.messages, vec![sent("t/1", "1"), sent("t/2", "yes")]);
    assert_eq!(outcome.running_states, vec![true, true]);
}

#[test]
fn empty_list_gives_empty_outcome() {
    let client = connected_client();
    let mut entries: Vec<ProcessEntry> = Vec::new();
    let outcome = reconcile(&mut entries, &snapshot(&["a"]), &client, &None);
    assert!(outcome.messages.is_empty());
    assert!(outcome.running_states.is_empty());
    assert!(entries.is_empty());
}

#[test]
fn unreachable_broker_drops_messages_and_keeps_the_state_change() {
    let mut client = MqttClient::new();
    client.set_settings(MqttSettings { ip: "192.0.2.1".to_string(), port: 1883 });
    let plan = client.connect();
    assert_eq!(plan.server_uri, Some("tcp://192.0.2.1:1883".to_string()));
    client.connect_finished(ConnectOutcome::ConnectFailed);
    assert!(!client.is_connected(true));
    assert!(!client.is_connected(false));
    assert_eq!(client.publish(&"t/1".to_string(), &"1".to_string()), None);

    let mut entries = vec![trigger("game.exe", "t/1", "1", "0", false)];
    let outcome =
        reconcile(&mut entries, &snapshot(&["game.exe"]), &client, &Some(Companion::brightness()));
    assert!(outcome.messages.is_empty());
    assert!(entries[0].is_running);
    assert_eq!(outcome.running_states, vec![true]);
}

#[test]
fn startup_takes_up_what_was_saved() {
    let mut entries = vec![trigger("old", "t", "1", "0", true)];
    let mut client = MqttClient::new();
    let saved = vec![
        trigger("a", "t/a", "1", "0", true),
        trigger("b", "t/b", "yes", "no", false),
    ];
    let settings = MqttSettings { ip: "broker.lan".to_string(), port: 8883 };
    let plan = setup(&mut entries, &mut client, saved, settings.clone());
    assert_eq!(
        entries,
        vec![trigger("a", "t/a", "1", "0", false), trigger("b", "t/b", "yes", "no", false)]
    );
    assert_eq!(client.current_settings(), Some(settings));
    assert!(!client.holds_session());
    assert!(!plan.disconnect_first);
    assert_eq!(plan.server_uri, Some("tcp://broker.lan:8883".to_string()));
    assert_eq!(plan.timeout_secs, 5);
    assert_eq!(plan.retry_interval_secs, 1);
}
