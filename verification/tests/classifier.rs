use iot_gateway::classifier::{protocal_filter, ProtocolVariant};

fn tokens(list: &[&str]) -> Vec<String> {
    list.iter().map(|s| s.to_string()).collect()
}

#[test]
fn single_http_is_https() {
    assert_eq!(protocal_filter(tokens(&["http"])), Some(ProtocolVariant::Https));
}

#[test]
fn two_tokens_ending_http_is_https() {
    assert_eq!(protocal_filter(tokens(&["x-amzn-mqtt-ca", "http"])), Some(ProtocolVariant::Https));
}

#[test]
fn mqtt_then_http_is_https() {
    assert_eq!(protocal_filter(tokens(&["mqtt", "http"])), Some(ProtocolVariant::Https));
}

#[test]
fn single_mqtt_is_mqtt_over_tls() {
    assert_eq!(protocal_filter(tokens(&["mqtt"])), Some(ProtocolVariant::MqttOverTls));
}

#[test]
fn two_tokens_ending_mqtt_is_mqtt_over_tls() {
    assert_eq!(protocal_filter(tokens(&["anything", "mqtt"])), Some(ProtocolVariant::MqttOverTls));
}

#[test]
fn http_middle_mqtt_last_is_mqtt_over_websocket() {
    assert_eq!(
        protocal_filter(tokens(&["wss", "http", "mqtt"])),
        Some(ProtocolVariant::MqttOverWebsocket)
    );
    assert_eq!(
        protocal_filter(tokens(&["", "http", "mqtt"])),
        Some(ProtocolVariant::MqttOverWebsocket)
    );
}

#[test]
fn empty_sequence_is_unknown() {
    assert_eq!(protocal_filter(Vec::new()), None);
}

#[test]
fn unmatched_shapes_are_unknown() {
    assert_eq!(protocal_filter(tokens(&["a", "b", "c"])), None);
    assert_eq!(protocal_filter(tokens(&["http", "x"])), None);
    assert_eq!(protocal_filter(tokens(&["mqtt", "mqtt", "mqtt"])), None);
    assert_eq!(protocal_filter(tokens(&["http", "mqtt", "http"])), None);
    assert_eq!(protocal_filter(tokens(&["a", "b", "http", "mqtt"])), None);
}

#[test]
fn three_tokens_need_mqtt_last() {
    assert_eq!(protocal_filter(tokens(&["a", "http", "http"])), None);
}
