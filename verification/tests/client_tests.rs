use apm_client::batch::Batch;
use apm_client::client::ApmClient;
use apm_client::config::ApiKey;
use apm_client::config::Authorization;
use apm_client::config::Config;
use apm_client::flush::FlushCommand;
use apm_client::flush::FlushEvent;
use apm_client::transport::build_transport;
use apm_client::transport::BuildError;

// A PEM block whose payload is not valid base64: every TLS backend rejects it,
// eagerly or when the client is built.
const MALFORMED_PEM: &[u8] =
    b"-----BEGIN CERTIFICATE-----\nnot base64!!!\n-----END CERTIFICATE-----\n";

#[test]
fn config_defaults_match_the_documented_ones() {
    let config = Config::new("http://localhost:8200".to_string());
    assert_eq!(config.apm_address, "http://localhost:8200");
    assert!(config.authorization.is_none());
    assert!(!config.allow_invalid_certs);
    assert!(config.root_cert_path.is_none());
    assert_eq!(config.sleep_millis, 1000);
    let config = config
        .with_sleep_time(250)
        .allow_invalid_certificates(true)
        .with_root_cert_path("/tmp/ca.pem".to_string())
        .with_authorization(Authorization::ApiKey(ApiKey::new(
            "id".to_string(),
            "key".to_string(),
        )));
    assert_eq!(config.sleep_millis, 250);
    assert!(config.allow_invalid_certs);
    assert_eq!(config.root_cert_path.as_deref(), Some("/tmp/ca.pem"));
    assert!(config.authorization.is_some());
}

#[test]
fn construction_without_certificate_succeeds() {
    let client = ApmClient::new(
        "http://127.0.0.1:1".to_string(),
        Some(Authorization::SecretToken("abc".to_string())),
        false,
        None,
        1000,
    )
    .ok()
    .expect("plain construction must succeed");
    assert_eq!(client.address, "http://127.0.0.1:1");
    assert_eq!(client.authorization.as_deref(), Some("Bearer abc"));
    assert_eq!(client.sleep_millis, 1000);
    assert_eq!(client.buffer.len(), 0);
}

#[test]
fn construction_with_malformed_certificate_fails() {
    let result = ApmClient::new(
        "http://127.0.0.1:1".to_string(),
        None,
        false,
        Some(MALFORMED_PEM),
        1000,
    );
    // The rustls backend defers the parse to the client build, so the
    // failure may surface under either variant; construction must fail
    // either way, before any background task could exist.
    match result {
        Err(BuildError::InvalidCertificate(_)) => {}
        Err(BuildError::ClientBuild(_)) => {}
        Ok(_) => panic!("a malformed certificate must abort construction"),
    }
}

#[test]
fn transport_with_malformed_certificate_fails_and_without_one_succeeds() {
    assert!(build_transport(false, Some(MALFORMED_PEM)).is_err());
    assert!(build_transport(true, None).is_ok());
}

#[test]
fn send_batch_keeps_enqueue_order_until_the_drain() {
    let mut client = ApmClient::new("http://c".to_string(), None, false, None, 10).ok().unwrap();
    client.send_batch(Batch::new("{\"n\":1}".to_string(), None, None, None));
    client.send_batch(Batch::new("{\"n\":2}".to_string(), None, None, None));
    let drained = client.drain();
    assert_eq!(drained.len(), 2);
    assert_eq!(drained[0].metadata, "{\"n\":1}");
    assert_eq!(drained[1].metadata, "{\"n\":2}");
    assert_eq!(client.buffer.len(), 0);
}

#[test]
fn flush_loop_takes_the_clients_delivery_parameters() {
    let client = ApmClient::new(
        "http://c".to_string(),
        Some(Authorization::SecretToken("t".to_string())),
        false,
        None,
        42,
    )
    .ok()
    .unwrap();
    let flush = client.flush_loop();
    assert_eq!(flush.address, "http://c");
    assert_eq!(flush.authorization.as_deref(), Some("Bearer t"));
    assert_eq!(flush.sleep_millis, 42);
    assert!(flush.pending.is_empty());
}

#[test]
fn failed_deliveries_against_a_refused_port_do_not_stop_the_loop() {
    let mut client = ApmClient::new("http://127.0.0.1:1".to_string(), None, false, None, 10)
        .ok()
        .unwrap();
    client.send_batch(Batch::new("{\"n\":1}".to_string(), None, None, None));
    client.send_batch(Batch::new("{\"n\":2}".to_string(), None, None, None));
    let http = client.http.clone();
    let mut flush = client.flush_loop();
    let runtime = tokio::runtime::Builder::new_current_thread().enable_all().build().unwrap();
    runtime.block_on(async {
        let mut attempted = 0;
        let mut event = FlushEvent::Slept;
        loop {
            match flush.next(event) {
                FlushCommand::Drain => {
                    if attempted == 2 {
                        // Both batches were attempted and the loop went back
                        // to idle instead of terminating.
                        break;
                    }
                    event = FlushEvent::Drained(client.drain());
                }
                FlushCommand::Sleep(_) => panic!("a non-empty snapshot must not sleep"),
                FlushCommand::Deliver(req) => {
                    let outcome = http
                        .post(&req.url)
                        .header("content-type", req.content_type)
                        .body(req.body)
                        .send()
                        .await;
                    assert!(outcome.is_err());
                    attempted += 1;
                    event = FlushEvent::Sent(false);
                }
            }
        }
        assert_eq!(attempted, 2);
    });
}
