use mosquitto::{generated_client_id, CertFile, Error, MqttClientOptions, Qos, TlsFiles, WILL_QOS};

#[test]
fn defaults_match_documented_values() {
    let opts = MqttClientOptions::new();
    assert_eq!(opts.keep_alive(), 30);
    assert!(opts.clean_session());
    assert_eq!(opts.retry_time(), 60);
    assert_eq!(opts.client_id(), None);
    assert_eq!(opts.ca_crt(), None);
    assert_eq!(opts.client_crt(), None);
    assert_eq!(opts.client_key(), None);
}

#[test]
fn setters_change_only_their_field() {
    let mut opts = MqttClientOptions::new();
    opts.set_keep_alive(5).set_retry_time(7).set_clean_session(false);
    opts.set_client_id("node-1".to_string());
    assert_eq!(opts.keep_alive(), 5);
    assert_eq!(opts.retry_time(), 7);
    assert!(!opts.clean_session());
    assert_eq!(opts.client_id(), Some("node-1"));
    assert_eq!(opts.ca_crt(), None);
}

#[test]
fn generated_id_is_prefix_and_decimal() {
    assert_eq!(generated_client_id(0), "mqttc_0");
    assert_eq!(generated_client_id(7), "mqttc_7");
    assert_eq!(generated_client_id(1234), "mqttc_1234");
    assert_eq!(generated_client_id(4294967295), "mqttc_4294967295");
}

#[test]
fn generate_client_id_sets_a_numbered_id() {
    let mut opts = MqttClientOptions::new();
    opts.generate_client_id();
    let id = opts.client_id().unwrap().to_string();
    assert!(id.starts_with("mqttc_"));
    let digits = &id["mqttc_".len()..];
    assert!(!digits.is_empty());
    assert!(digits.parse::<u32>().is_ok());
}

#[test]
fn ensure_client_id_keeps_a_set_id() {
    let mut opts = MqttClientOptions::new();
    opts.set_client_id("keep-me".to_string());
    opts.ensure_client_id();
    assert_eq!(opts.client_id(), Some("keep-me"));
    let mut fresh = MqttClientOptions::new();
    fresh.ensure_client_id();
    assert!(fresh.client_id().unwrap().starts_with("mqttc_"));
}

#[test]
fn set_generated_client_id_uses_the_number() {
    let mut opts = MqttClientOptions::new();
    opts.set_generated_client_id(42);
    assert_eq!(opts.client_id(), Some("mqttc_42"));
}

fn cert_error(r: mosquitto::Result<Option<TlsFiles>>) -> Option<CertFile> {
    match r {
        Err(Error::InvalidCertPath(f)) => Some(f),
        _ => None,
    }
}

#[test]
fn tls_none_set_is_plain() {
    let opts = MqttClientOptions::new();
    assert!(matches!(opts.validate_tls(false, false, false), Ok(None)));
}

#[test]
fn tls_one_or_two_set_fails() {
    let mut only_ca = MqttClientOptions::new();
    only_ca.set_ca_crt("/ca.pem".to_string());
    assert_eq!(cert_error(only_ca.validate_tls(true, true, true)), Some(CertFile::ClientCert));

    let mut no_key = MqttClientOptions::new();
    no_key.set_ca_crt("/ca.pem".to_string()).set_client_crt("/c.pem".to_string());
    assert_eq!(cert_error(no_key.validate_tls(true, true, true)), Some(CertFile::ClientKey));

    let mut only_key = MqttClientOptions::new();
    only_key.set_client_key("/k.pem".to_string());
    assert_eq!(cert_error(only_key.validate_tls(true, true, true)), Some(CertFile::CaCert));
}

fn full_tls() -> MqttClientOptions {
    let mut opts = MqttClientOptions::new();
    opts.set_ca_crt("/ca.pem".to_string())
        .set_client_crt("/client.pem".to_string())
        .set_client_key("/client.key".to_string());
    opts
}

#[test]
fn tls_all_set_names_missing_file() {
    let opts = full_tls();
    assert_eq!(cert_error(opts.validate_tls(false, true, true)), Some(CertFile::CaCert));
    assert_eq!(cert_error(opts.validate_tls(true, false, true)), Some(CertFile::ClientCert));
    assert_eq!(cert_error(opts.validate_tls(true, true, false)), Some(CertFile::ClientKey));
}

#[test]
fn tls_all_valid_succeeds() {
    let opts = full_tls();
    match opts.validate_tls(true, true, true) {
        Ok(Some(files)) => {
            assert_eq!(files.ca_cert, "/ca.pem");
            assert_eq!(files.client_cert, "/client.pem");
            assert_eq!(files.client_key, "/client.key");
        }
        _ => panic!("expected the three TLS files"),
    }
}

#[test]
fn qos_codes() {
    assert_eq!(Qos::AtMostOnce.code(), 0);
    assert_eq!(Qos::AtLeastOnce.code(), 1);
    assert_eq!(Qos::ExactlyOnce.code(), 2);
}

#[test]
fn io_error_converts() {
    let e = Error::from(std::io::Error::new(std::io::ErrorKind::NotFound, "no host"));
    match e {
        Error::Io(inner) => assert_eq!(inner.kind(), std::io::ErrorKind::NotFound),
        _ => panic!("expected an io error"),
    }
}

#[test]
fn credentials_and_will_are_kept() {
    let mut opts = MqttClientOptions::new();
    assert_eq!(opts.username(), None);
    assert!(opts.will().is_none());
    opts.set_credentials("user".to_string(), Some("secret".to_string()))
        .set_will("status/node".to_string(), b"gone".to_vec());
    assert_eq!(opts.username(), Some("user"));
    assert_eq!(opts.password(), Some("secret"));
    assert_eq!(opts.will(), Some(("status/node", &b"gone"[..])));
    assert_eq!(WILL_QOS.code(), 2);
    assert!(opts.check_will().is_ok());
    opts.set_credentials("other".to_string(), None);
    assert_eq!(opts.password(), None);
}

#[test]
fn will_with_nul_topic_is_refused() {
    let mut opts = MqttClientOptions::new();
    assert!(opts.check_will().is_ok());
    opts.set_will("bad\0topic".to_string(), Vec::new());
    assert!(matches!(opts.check_will(), Err(Error::InvalidTopic)));
}
