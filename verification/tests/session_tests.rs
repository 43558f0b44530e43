use runtime_measurer::config::{Config, FileMeasurerConfig};
use runtime_measurer::digest::{digest_content, HashAlgorithm};
use runtime_measurer::error::MeasurementError;
use runtime_measurer::modules::file_measurer::FileMeasurer;
use runtime_measurer::modules::measurable::Measurable;
use runtime_measurer::rpc_client::{AAClient, ExtendReply};

fn test_config(algorithm: &str) -> Config {
    Config {
        attestation_agent_socket: "unix:///run/attestation.sock".to_string(),
        file_measurer: FileMeasurerConfig {
            enabled: true,
            patterns: vec!["/etc/measured/*.conf".to_string()],
            hash_algorithm: algorithm.to_string(),
            domain: "config".to_string(),
            operation: "update".to_string(),
            register_index: Some(7),
        },
    }
}

#[test]
fn measurer_name_and_enablement() {
    let measurer = FileMeasurer::new();
    assert_eq!(measurer.name(), "FileMeasurer");
    let mut config = test_config("sha256");
    assert!(measurer.is_enabled(&config));
    config.file_measurer.enabled = false;
    assert!(!measurer.is_enabled(&config));
}

#[test]
fn two_files_are_extended_in_sorted_order() {
    let config = test_config("sha256");
    assert!(config.wf_check());
    let measurer = FileMeasurer::new();
    let mut session = measurer.measure(&config).unwrap();
    // The glob expansion found b.conf before a.conf; the plan sorts them.
    session.supply_expansions(vec![
        b"/etc/measured/b.conf".to_vec(),
        b"/etc/measured/a.conf".to_vec(),
    ]);
    let client = AAClient::new(&config.attestation_agent_socket).unwrap();

    assert_eq!(session.current_path(), &b"/etc/measured/a.conf".to_vec());
    let first = session.supply_content(Ok(b"x".to_vec())).unwrap();
    assert_eq!(first.domain, "config");
    assert_eq!(first.operation, "update");
    assert_eq!(first.register_index, Some(7));
    assert_eq!(first.content, digest_content(HashAlgorithm::Sha256, &b"x".to_vec()));
    let call = client.extend_runtime_measurement(
        first.register_index,
        &first.domain,
        &first.operation,
        &first.content,
    );
    assert_eq!(call.timeout_nano, 5_000_000_000);
    assert_eq!(call.domain, "config");
    assert_eq!(call.register_index, Some(7));
    session.extend_replied(client.interpret_reply(ExtendReply::Acknowledged));

    assert_eq!(session.current_path(), &b"/etc/measured/b.conf".to_vec());
    let second = session.supply_content(Ok(b"y".to_vec())).unwrap();
    assert_eq!(second.content, digest_content(HashAlgorithm::Sha256, &b"y".to_vec()));
    assert_eq!(second.domain, "config");
    assert_eq!(second.register_index, Some(7));
    session.extend_replied(client.interpret_reply(ExtendReply::Acknowledged));

    assert!(session.is_complete());
    assert!(session.finish().is_ok());
}

#[test]
fn unsupported_algorithm_fails_before_any_file() {
    let config = test_config("md2");
    let measurer = FileMeasurer::new();
    let r = measurer.measure(&config);
    match r {
        Err(MeasurementError::UnsupportedHashAlgorithm(name)) => assert_eq!(name, "md2"),
        _ => panic!("expected the unsupported-algorithm error"),
    }
}

#[test]
fn malformed_pattern_aborts_the_invocation() {
    let mut config = test_config("sha256");
    config.file_measurer.patterns = vec!["/ok/*.conf".to_string(), "/bad/a**b".to_string()];
    let measurer = FileMeasurer::new();
    let r = measurer.measure(&config);
    assert!(matches!(r, Err(MeasurementError::Pattern(_, _))));
}

#[test]
fn empty_expansion_completes_successfully() {
    let config = test_config("sha256");
    let measurer = FileMeasurer::new();
    let mut session = measurer.measure(&config).unwrap();
    session.supply_expansions(Vec::new());
    assert!(session.is_complete());
    assert!(session.finish().is_ok());
}

#[test]
fn unreadable_file_does_not_stop_the_others() {
    let config = test_config("sha256");
    let measurer = FileMeasurer::new();
    let mut session = measurer.measure(&config).unwrap();
    session.supply_expansions(vec![b"/m/one".to_vec(), b"/m/two".to_vec()]);
    let client = AAClient::new(&config.attestation_agent_socket).unwrap();

    let none = session.supply_content(Err("permission denied".to_string()));
    assert!(none.is_none());
    assert!(!session.is_complete());

    // The second file is still measured and submitted.
    assert_eq!(session.current_path(), &b"/m/two".to_vec());
    let rec = session.supply_content(Ok(b"payload".to_vec())).unwrap();
    assert_eq!(rec.content, digest_content(HashAlgorithm::Sha256, &b"payload".to_vec()));
    session.extend_replied(client.interpret_reply(ExtendReply::Acknowledged));

    assert!(session.is_complete());
    match session.finish() {
        Err(MeasurementError::Io(m)) => assert_eq!(m, "permission denied"),
        _ => panic!("expected the read failure as the invocation's result"),
    }
}

#[test]
fn timed_out_extension_is_counted_and_not_retried() {
    let config = test_config("sha256");
    let measurer = FileMeasurer::new();
    let mut session = measurer.measure(&config).unwrap();
    session.supply_expansions(vec![b"/m/a".to_vec(), b"/m/b".to_vec()]);
    let client = AAClient::new(&config.attestation_agent_socket).unwrap();

    // First file: read, extended, acknowledged.
    let first = session.supply_content(Ok(b"x".to_vec()));
    assert!(first.is_some());
    session.extend_replied(client.interpret_reply(ExtendReply::Acknowledged));

    // Second file: the agent answers with a timeout. The walk moves on —
    // the call is spent, never retried — and the invocation fails.
    let second = session.supply_content(Ok(b"y".to_vec()));
    assert!(second.is_some());
    session.extend_replied(client.interpret_reply(ExtendReply::TimedOut));

    assert!(session.is_complete());
    match session.finish() {
        Err(MeasurementError::AttestationAgentClient(m)) => {
            assert_eq!(m, "extend call timed out");
        }
        _ => panic!("expected the timeout as the invocation's result"),
    }
}

#[test]
fn two_runs_submit_identical_sequences() {
    let config = test_config("sha256");
    let measurer = FileMeasurer::new();
    let client = AAClient::new(&config.attestation_agent_socket).unwrap();
    let mut runs: Vec<Vec<(String, String, String, Option<u64>)>> = Vec::new();
    for expansion in [
        vec![b"/m/b".to_vec(), b"/m/a".to_vec()],
        vec![b"/m/a".to_vec(), b"/m/b".to_vec(), b"/m/a".to_vec()],
    ] {
        let mut session = measurer.measure(&config).unwrap();
        session.supply_expansions(expansion);
        let mut submitted = Vec::new();
        while !session.is_complete() {
            let content = if session.current_path() == &b"/m/a".to_vec() {
                b"alpha".to_vec()
            } else {
                b"beta".to_vec()
            };
            let rec = session.supply_content(Ok(content)).unwrap();
            submitted.push((
                rec.domain.clone(),
                rec.operation.clone(),
                rec.content.clone(),
                rec.register_index,
            ));
            session.extend_replied(client.interpret_reply(ExtendReply::Acknowledged));
        }
        assert!(session.finish().is_ok());
        runs.push(submitted);
    }
    assert_eq!(runs[0], runs[1]);
    assert_eq!(runs[0].len(), 2);
}

#[test]
fn first_error_is_kept_over_later_ones() {
    let config = test_config("sha256");
    let measurer = FileMeasurer::new();
    let mut session = measurer.measure(&config).unwrap();
    session.supply_expansions(vec![b"/m/a".to_vec(), b"/m/b".to_vec()]);
    let client = AAClient::new(&config.attestation_agent_socket).unwrap();

    session.supply_content(Err("first failure".to_string()));
    let rec = session.supply_content(Ok(b"y".to_vec()));
    assert!(rec.is_some());
    session.extend_replied(client.interpret_reply(ExtendReply::Rejected("second failure".to_string())));

    match session.finish() {
        Err(MeasurementError::Io(m)) => assert_eq!(m, "first failure"),
        _ => panic!("expected the first recorded error"),
    }
}
