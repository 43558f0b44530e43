use runtime_measurer::error::MeasurementError;
use runtime_measurer::rpc_client::{AAClient, ExtendReply, EXTEND_TIMEOUT_NANO};

#[test]
fn an_empty_agent_address_is_rejected() {
    match AAClient::new("") {
        Err(MeasurementError::RpcClient(m)) => {
            assert_eq!(m, "attestation agent address is empty");
        }
        _ => panic!("expected the client-construction error"),
    }
}

#[test]
fn the_client_keeps_the_address_and_the_fixed_timeout() {
    let client = AAClient::new("unix:///run/attestation.sock").unwrap();
    assert_eq!(client.socket_address, "unix:///run/attestation.sock");
    assert_eq!(client.timeout_nano, EXTEND_TIMEOUT_NANO);
    assert_eq!(EXTEND_TIMEOUT_NANO, 5_000_000_000);
}

#[test]
fn an_extend_call_carries_exactly_the_record_fields() {
    let client = AAClient::new("unix:///run/attestation.sock").unwrap();
    let call = client.extend_runtime_measurement(Some(11), "domain-x", "op-y", "abc123");
    assert_eq!(call.register_index, Some(11));
    assert_eq!(call.domain, "domain-x");
    assert_eq!(call.operation, "op-y");
    assert_eq!(call.content, "abc123");
    assert_eq!(call.timeout_nano, 5_000_000_000);

    let without_register = client.extend_runtime_measurement(None, "d", "o", "c");
    assert_eq!(without_register.register_index, None);
}

#[test]
fn every_reply_kind_is_classified() {
    let client = AAClient::new("unix:///run/attestation.sock").unwrap();
    assert!(client.interpret_reply(ExtendReply::Acknowledged).is_ok());
    match client.interpret_reply(ExtendReply::TimedOut) {
        Err(MeasurementError::AttestationAgentClient(m)) => {
            assert_eq!(m, "extend call timed out");
        }
        _ => panic!("expected the agent client error"),
    }
    match client.interpret_reply(ExtendReply::Transport("connection reset".to_string())) {
        Err(MeasurementError::AttestationAgentClient(m)) => assert_eq!(m, "connection reset"),
        _ => panic!("expected the agent client error"),
    }
    match client.interpret_reply(ExtendReply::Rejected("invalid register index".to_string())) {
        Err(MeasurementError::AttestationAgentClient(m)) => {
            assert_eq!(m, "invalid register index");
        }
        _ => panic!("expected the agent client error"),
    }
}

#[test]
fn error_messages_name_the_kind_and_the_cause() {
    assert_eq!(MeasurementError::Io("open failed".to_string()).message(), "IO error: open failed");
    assert_eq!(
        MeasurementError::Pattern(3, "invalid range pattern".to_string()).message(),
        "Glob pattern error: invalid range pattern"
    );
    assert_eq!(MeasurementError::RpcClient("x".to_string()).message(), "RPC client error: x");
    assert_eq!(
        MeasurementError::UnsupportedHashAlgorithm("md2".to_string()).message(),
        "Unsupported hash algorithm: md2"
    );
    assert_eq!(
        MeasurementError::AttestationAgentClient("y".to_string()).message(),
        "Attestation agent client error: y"
    );
    assert_eq!(MeasurementError::Other("z".to_string()).message(), "z");
}
