use mqtt_sender::auth::{Auth, Credentials};
use mqtt_sender::endpoint::{append_decimal, Endpoint};
use mqtt_sender::error::SenderError;
use mqtt_sender::message::build_message;
use mqtt_sender::plan::{
    plan_new_session, plan_session, Persistence, SessionPlan, KEEP_ALIVE_SECS,
    RECONNECT_MAX_RETRY_MS, RECONNECT_MIN_RETRY_MS,
};
use mqtt_sender::qos::MqttQoS;
use mqtt_sender::tls::TlsPolicy;
use mqtt_sender::version::{
    MqttVersion, V5Options, VersionConnectFields, MQTT_VERSION_3_1_1, MQTT_VERSION_5,
};

fn localhost() -> Endpoint {
    Endpoint::new("localhost".to_string(), 8883)
}

fn plan(auth: Auth, version: MqttVersion) -> Result<SessionPlan, SenderError> {
    plan_session(
        &localhost(),
        auth,
        version,
        "client-1".to_string(),
        TlsPolicy::insecure_test_only(),
    )
}

#[test]
fn default_auth_is_anonymous() {
    assert!(matches!(Auth::default(), Auth::Anonymous));
}

#[test]
fn anonymous_v3_plan_matches_connection_policy() {
    let p = plan(Auth::Anonymous, MqttVersion::V3_1_1).unwrap();
    assert_eq!(p.create.server_uri, "ssl://localhost:8883");
    assert_eq!(p.create.client_id, "client-1");
    assert_eq!(p.create.persistence, Persistence::Disabled);
    assert_eq!(p.create.mqtt_version, MQTT_VERSION_3_1_1);
    assert_eq!(p.create.mqtt_version, 4);
    assert!(!p.connect.server_cert_auth);
    assert!(!p.connect.verify_hostname);
    assert!(p.connect.credentials.is_none());
    assert_eq!(p.connect.keep_alive_secs, 30);
    assert_eq!(KEEP_ALIVE_SECS, 30);
    assert_eq!(p.connect.reconnect.min_retry_ms, 100);
    assert_eq!(p.connect.reconnect.max_retry_ms, 5000);
    assert_eq!(RECONNECT_MIN_RETRY_MS, 100);
    assert_eq!(RECONNECT_MAX_RETRY_MS, 5000);
    assert_eq!(
        p.connect.version_fields,
        VersionConnectFields::V3 { clean_session: true }
    );
}

#[test]
fn username_password_plan_carries_credentials() {
    let p = plan(
        Auth::UsernamePassword("alice".to_string(), "pw".to_string()),
        MqttVersion::V3_1_1,
    )
    .unwrap();
    let Credentials { username, password } = p.connect.credentials.unwrap();
    assert_eq!(username, "alice");
    assert_eq!(password, "pw");
}

#[test]
fn certificate_auth_is_unsupported() {
    let r = plan(Auth::X509Certificate(vec![1, 2, 3]), MqttVersion::V3_1_1);
    assert_eq!(r.err(), Some(SenderError::UnsupportedAuth));
    let r = plan_new_session(
        &localhost(),
        Auth::X509Certificate(vec![]),
        MqttVersion::V5(V5Options::default()),
        TlsPolicy::verified(),
    );
    assert_eq!(r.err(), Some(SenderError::UnsupportedAuth));
}

#[test]
fn every_supported_auth_gives_a_plan() {
    for version in [MqttVersion::V3_1_1, MqttVersion::V5(V5Options::default())] {
        assert!(plan(Auth::Anonymous, version).is_ok());
        assert!(plan(
            Auth::UsernamePassword(String::new(), String::new()),
            version
        )
        .is_ok());
    }
}

#[test]
fn versions_give_distinct_handshakes() {
    let options = V5Options { clean_start: false, session_expiry_secs: 60 };
    let p3 = plan(Auth::Anonymous, MqttVersion::V3_1_1).unwrap();
    let p5 = plan(Auth::Anonymous, MqttVersion::V5(options)).unwrap();
    assert_eq!(p3.create.server_uri, p5.create.server_uri);
    assert_eq!(p3.create.mqtt_version, 4);
    assert_eq!(p5.create.mqtt_version, MQTT_VERSION_5);
    assert_eq!(p5.create.mqtt_version, 5);
    assert_eq!(
        p5.connect.version_fields,
        VersionConnectFields::V5 { clean_start: false, session_expiry_secs: 60 }
    );
    assert_ne!(p3.connect.version_fields, p5.connect.version_fields);
}

#[test]
fn v5_options_default_starts_clean() {
    let o = V5Options::default();
    assert!(o.clean_start);
    assert_eq!(o.session_expiry_secs, 0);
}

#[test]
fn new_session_gets_fresh_hyphenated_client_id() {
    let a = plan_new_session(&localhost(), Auth::Anonymous, MqttVersion::V3_1_1, TlsPolicy::verified())
        .unwrap();
    let b = plan_new_session(&localhost(), Auth::Anonymous, MqttVersion::V3_1_1, TlsPolicy::verified())
        .unwrap();
    let id = a.create.client_id.clone();
    assert_eq!(id.len(), 36);
    for (i, c) in id.chars().enumerate() {
        if i == 8 || i == 13 || i == 18 || i == 23 {
            assert_eq!(c, '-');
        } else {
            assert!(c.is_ascii_digit() || ('a'..='f').contains(&c));
        }
    }
    assert_ne!(a.create.client_id, b.create.client_id);
    assert!(a.connect.server_cert_auth);
    assert!(a.connect.verify_hostname);
}

#[test]
fn tls_policy_defaults_to_verification() {
    let d = TlsPolicy::default();
    assert!(!d.insecure_skip_verification);
    assert!(d.server_cert_auth());
    assert!(d.verify_hostname());
    let i = TlsPolicy::insecure_test_only();
    assert!(!i.server_cert_auth());
    assert!(!i.verify_hostname());
}

#[test]
fn server_uri_writes_port_in_decimal() {
    let cases: [(u16, &str); 6] = [
        (0, "ssl://h:0"),
        (7, "ssl://h:7"),
        (10, "ssl://h:10"),
        (1883, "ssl://h:1883"),
        (8883, "ssl://h:8883"),
        (65535, "ssl://h:65535"),
    ];
    for (port, uri) in cases {
        assert_eq!(Endpoint::new("h".to_string(), port).server_uri(), uri);
    }
    assert_eq!(Endpoint::new(String::new(), 1).server_uri(), "ssl://:1");
}

#[test]
fn append_decimal_extends_string() {
    let mut s = "port=".to_string();
    append_decimal(&mut s, 402);
    assert_eq!(s, "port=402");
}

#[test]
fn send_message_for_each_qos() {
    for (qos, level) in [
        (MqttQoS::AtMostOnce, 0u8),
        (MqttQoS::AtLeastOnce, 1),
        (MqttQoS::ExactlyOnce, 2),
    ] {
        let m = build_message("t".to_string(), qos, "text/plain".to_string(), Some(vec![9]));
        assert_eq!(m.qos, qos);
        assert_eq!(m.qos.level(), level);
        assert_eq!(m.topic, "t");
        assert_eq!(m.payload, vec![9]);
    }
}

#[test]
fn absent_payload_equals_empty_payload() {
    let a = build_message("t".to_string(), MqttQoS::AtLeastOnce, "text/plain".to_string(), None);
    let b = build_message(
        "t".to_string(),
        MqttQoS::AtLeastOnce,
        "text/plain".to_string(),
        Some(vec![]),
    );
    assert!(a.payload.is_empty());
    assert_eq!(a.payload, b.payload);
    assert_eq!(a.topic, b.topic);
    assert_eq!(a.qos, b.qos);
    assert_eq!(a.content_type, b.content_type);
}

#[test]
fn content_type_is_kept_exactly() {
    let m = build_message(
        String::new(),
        MqttQoS::AtMostOnce,
        "application/vnd.example+json; charset=utf-8".to_string(),
        None,
    );
    assert_eq!(m.content_type, "application/vnd.example+json; charset=utf-8");
    assert_eq!(m.topic, "");
}

#[test]
fn anonymous_v3_localhost_scenario() {
    let p = plan(Auth::Anonymous, MqttVersion::V3_1_1).unwrap();
    assert_eq!(p.create.server_uri, "ssl://localhost:8883");
    let m = build_message(
        "test/topic".to_string(),
        MqttQoS::AtLeastOnce,
        "application/json".to_string(),
        Some(b"{\"a\":1}".to_vec()),
    );
    assert_eq!(m.topic, "test/topic");
    assert_eq!(m.payload, b"{\"a\":1}".to_vec());
    assert_eq!(m.qos.level(), 1);
    assert_eq!(m.content_type, "application/json");
}

#[test]
fn qos_levels_round_trip() {
    for q in [MqttQoS::AtMostOnce, MqttQoS::AtLeastOnce, MqttQoS::ExactlyOnce] {
        assert_eq!(MqttQoS::from_level(q.level()), Some(q));
    }
    assert_eq!(MqttQoS::from_level(3), None);
    assert_eq!(MqttQoS::from_level(255), None);
}

#[test]
fn error_messages_name_the_phase() {
    assert_eq!(
        SenderError::UnsupportedAuth.message(),
        "X.509 client certificates are not supported"
    );
    assert_eq!(
        SenderError::CreateFailed("bad uri".to_string()).message(),
        "Failed to create client: bad uri"
    );
    assert_eq!(
        SenderError::ConnectFailed("refused".to_string()).message(),
        "Failed to connect: refused"
    );
    assert_eq!(
        SenderError::PublishFailed("timeout".to_string()).message(),
        "Failed to publish: timeout"
    );
}

#[test]
fn auth_into_credentials() {
    assert!(matches!(Auth::Anonymous.into_credentials(), Ok(None)));
    let c = Auth::UsernamePassword("u".to_string(), "p".to_string())
        .into_credentials()
        .unwrap()
        .unwrap();
    assert_eq!(c.username, "u");
    assert_eq!(c.password, "p");
    assert_eq!(
        Auth::X509Certificate(vec![0]).into_credentials().err(),
        Some(SenderError::UnsupportedAuth)
    );
}
