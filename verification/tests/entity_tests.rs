use relayer_core::connection::{
    validate_version, validate_versions, ConnectionEnd, Counterparty, ProtoConnectionEnd,
    ProtoCounterparty, State,
};
use relayer_core::errors::ValidationError;
use relayer_core::identifier::{ChannelId, ClientId, CommitmentPrefix, ConnectionId, PortId};

#[test]
fn valid_identifiers_round_trip() {
    for s in ["client-a", "07-tendermint-0", "transfer", "a", "x.y_z+w-1"] {
        let id = ClientId::new(s.to_string()).unwrap();
        assert_eq!(id.as_str(), s);
    }
    let c = ChannelId::new("channel-0".to_string()).unwrap();
    assert_eq!(c.as_str(), "channel-0");
    let p = PortId::new("transfer".to_string()).unwrap();
    assert_eq!(p.as_str(), "transfer");
    let n = ConnectionId::new("connection-1".to_string()).unwrap();
    assert_eq!(n.as_str(), "connection-1");
}

#[test]
fn invalid_identifiers_are_rejected() {
    let too_long = "a".repeat(65);
    for s in ["", " ", "white space", "exclamation!", "slash/slash", too_long.as_str()] {
        assert_eq!(
            ClientId::new(s.to_string()).unwrap_err(),
            ValidationError::InvalidIdentifier
        );
    }
    // The largest admitted length still passes.
    assert!(ClientId::new("a".repeat(64)).is_ok());
}

#[test]
fn version_validation_exact_cases() {
    assert_eq!(validate_versions(vec![]).unwrap_err(), "missing versions");
    assert_eq!(
        validate_versions(vec!["".to_string()]).unwrap_err(),
        "empty version string"
    );
    assert_eq!(
        validate_versions(vec!["1".to_string()]).unwrap(),
        vec!["1".to_string()]
    );
    assert_eq!(
        validate_versions(vec!["1".to_string(), "  ".to_string()]).unwrap_err(),
        "empty version string"
    );
    assert_eq!(validate_version("1".to_string()).unwrap(), "1");
    assert_eq!(validate_version(" \t".to_string()).unwrap_err(), "empty version string");
    // Entries of non-ASCII white space trim to nothing as well.
    assert_eq!(
        validate_versions(vec!["\u{00A0}".to_string()]).unwrap_err(),
        "empty version string"
    );
    assert_eq!(
        validate_version("\u{2028}\u{205F}\u{3000}".to_string()).unwrap_err(),
        "empty version string"
    );
    assert_eq!(validate_version("\u{00A0}1\u{00A0}".to_string()).unwrap(), "\u{00A0}1\u{00A0}");
}

#[test]
fn connection_end_starts_uninitialized() {
    let client = ClientId::new("client-a".to_string()).unwrap();
    let cp = Counterparty::new(
        "client-b".to_string(),
        None,
        CommitmentPrefix::new(b"ibc".to_vec()),
    )
    .unwrap();
    let end = ConnectionEnd::new(client, cp, vec!["1".to_string()]).unwrap();
    assert_eq!(*end.state(), State::Uninitialized);
    assert_eq!(end.client_id(), "client-a");
    assert_eq!(end.versions(), vec!["1".to_string()]);
    assert!(end.validate_basic().is_ok());
    let cp2 = end.counterparty();
    assert_eq!(cp2.client_id(), "client-b");
    assert!(cp2.connection_id().is_none());
    assert_eq!(cp2.prefix().as_bytes(), b"ibc");
}

#[test]
fn connection_end_rejects_bad_versions() {
    for versions in [vec![], vec!["\u{00A0}".to_string()]] {
        let client = ClientId::new("client-a".to_string()).unwrap();
        let cp = Counterparty::new(
            "client-b".to_string(),
            None,
            CommitmentPrefix::new(b"ibc".to_vec()),
        )
        .unwrap();
        assert_eq!(
            ConnectionEnd::new(client, cp, versions).unwrap_err(),
            ValidationError::InvalidVersion
        );
    }
}

#[test]
fn counterparty_rejects_bad_identifiers() {
    assert_eq!(
        Counterparty::new("".to_string(), None, CommitmentPrefix::new(vec![]))
            .unwrap_err(),
        ValidationError::InvalidIdentifier
    );
    assert_eq!(
        Counterparty::new(
            "client-b".to_string(),
            Some("not valid".to_string()),
            CommitmentPrefix::new(vec![]),
        )
        .unwrap_err(),
        ValidationError::InvalidIdentifier
    );
}

fn proto_counterparty(prefix: Option<Vec<u8>>, connection_id: &str) -> ProtoCounterparty {
    ProtoCounterparty {
        client_id: "client-b".to_string(),
        connection_id: connection_id.to_string(),
        prefix,
    }
}

#[test]
fn proto_counterparty_decoding() {
    assert_eq!(
        Counterparty::from_proto_counterparty(proto_counterparty(None, "connection-1"))
            .unwrap_err(),
        ValidationError::MissingCounterpartyPrefix
    );
    let cp =
        Counterparty::from_proto_counterparty(proto_counterparty(Some(b"ibc".to_vec()), ""))
            .unwrap();
    assert!(cp.connection_id().is_none());
    let cp2 = Counterparty::from_proto_counterparty(proto_counterparty(
        Some(b"ibc".to_vec()),
        "connection-1",
    ))
    .unwrap();
    assert_eq!(cp2.connection_id().as_deref(), Some("connection-1"));
}

#[test]
fn proto_connection_decoding() {
    let missing = ProtoConnectionEnd {
        client_id: "client-a".to_string(),
        versions: vec!["1".to_string()],
        state: 1,
        counterparty: None,
    };
    assert_eq!(
        ConnectionEnd::from_proto_connection(missing).unwrap_err(),
        ValidationError::MissingCounterparty
    );

    let open = ProtoConnectionEnd {
        client_id: "client-a".to_string(),
        versions: vec!["1".to_string()],
        state: 3,
        counterparty: Some(proto_counterparty(Some(b"ibc".to_vec()), "connection-1")),
    };
    let end = ConnectionEnd::from_proto_connection(open).unwrap();
    assert_eq!(*end.state(), State::Open);
    assert_eq!(end.counterparty().connection_id().as_deref(), Some("connection-1"));
    assert_eq!(end.counterparty().prefix().as_bytes(), b"ibc");

    // An open end must know the counterparty connection identifier.
    let open_without_id = ProtoConnectionEnd {
        client_id: "client-a".to_string(),
        versions: vec!["1".to_string()],
        state: 3,
        counterparty: Some(proto_counterparty(Some(b"ibc".to_vec()), "")),
    };
    assert_eq!(
        ConnectionEnd::from_proto_connection(open_without_id).unwrap_err(),
        ValidationError::MissingCounterparty
    );

    // Unknown state integers fall back to Uninitialized.
    let unknown = ProtoConnectionEnd {
        client_id: "client-a".to_string(),
        versions: vec!["1".to_string()],
        state: 42,
        counterparty: Some(proto_counterparty(Some(b"ibc".to_vec()), "")),
    };
    assert_eq!(*ConnectionEnd::from_proto_connection(unknown).unwrap().state(), State::Uninitialized);
}
