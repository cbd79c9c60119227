use relayer_core::connector::{
    decode_simple_message, decode_status_message, ChainStatus, Connector, ConnectorError,
};

fn version_output() -> String {
    "{\"status\":\"success\",\"message\":\"v0.1.0\"}".to_string()
}

fn status_output() -> String {
    let chain_1 = "{\"name\":\"chain-1\",\"chain-id\":\"chain-1\",\"config-dir\":\"/tmp/gm/chain-1\",\"pid\":4242,\"ports\":{\"rpc\":27000,\"app\":27001,\"grpc\":27002,\"p2p\":27003,\"pprof\":27004,\"grpc-web\":27005}}";
    let chain_2 = "{\"name\":\"chain-2\",\"chain-id\":\"chain-2\",\"config-dir\":\"/tmp/gm/chain-2\",\"pid\":4243,\"ports\":{\"rpc\":27010,\"app\":27011,\"grpc\":27012,\"p2p\":27013,\"pprof\":27014,\"grpc-web\":27015}}";
    let node_a = "{\"name\":\"node-a\",\"chain-id\":\"chain-1\",\"config-dir\":\"/tmp/gm/node-a\",\"pid\":null,\"ports\":null}";
    format!("{{\"status\":\"success\",\"message\":[{},{},{}]}}", chain_1, chain_2, node_a)
}

fn get_gm_with_test_config() -> Connector {
    Connector::new(
        &"../scripts/gm/bin/gm".to_string(),
        Some("./test-gm.toml".to_string()),
        &version_output(),
    )
    .unwrap()
}

fn find<'a>(chains: &'a [ChainStatus], name: &str) -> &'a ChainStatus {
    chains.iter().find(|c| c.name == name).unwrap()
}

#[test]
fn get_version_test() {
    let gm = Connector::new(&"../scripts/gm/bin/gm".to_string(), None, &version_output()).unwrap();
    assert_eq!(gm.get_version(), "v0.1.0");
}

#[test]
fn get_status_test() {
    let gm = get_gm_with_test_config();
    let chains = gm.get_status(&status_output()).unwrap();
    assert_eq!(chains.len(), 3);
    assert_eq!(find(&chains, "node-a").chain_id, "chain-1");
}

#[test]
fn startup_shutdown_test() {
    // Initialize the connector
    let gm = get_gm_with_test_config();

    // Start all networks
    let start_req = gm.start(None);
    assert!(start_req.params_arg.is_none());
    assert_eq!(start_req.subcommand, "start");

    // Get network status and endpoints
    let status = gm.get_status(&status_output()).unwrap();
    assert!(find(&status, "chain-1").pid.as_ref().is_some());
    assert_eq!(find(&status, "chain-2").ports.as_ref().unwrap().rpc, 27010);
    assert!(find(&status, "node-a").config_dir.ends_with("node-a"));

    // Stop all networks
    let stop_one = gm.stop(Some(vec!["node-a"]));
    assert_eq!(stop_one.params_arg.as_deref(), Some("node-a"));
    let stop_all = gm.stop(None);
    assert_eq!(stop_all.subcommand, "stop");
    assert!(stop_all.params_arg.is_none());
}

#[test]
fn request_carries_path_config_and_joined_params() {
    let gm = get_gm_with_test_config();
    let req = gm.rm(vec!["node-a", "chain-2"]);
    assert_eq!(req.program, "../scripts/gm/bin/gm");
    assert_eq!(req.gm_toml.as_deref(), Some("./test-gm.toml"));
    assert_eq!(req.subcommand, "rm");
    assert_eq!(req.params_arg.as_deref(), Some("node-a chain-2"));
    let reset = gm.reset(None);
    assert_eq!(reset.subcommand, "reset");
}

#[test]
fn unsuccessful_reply_reports_its_message() {
    let out = "{\"status\":\"error\",\"message\":\"no such network\"}".to_string();
    match Connector::new(&"gm".to_string(), None, &out) {
        Err(ConnectorError::Unsuccessful(m)) => assert_eq!(m, "no such network"),
        other => panic!("expected an unsuccessful reply, got {:?}", other.err()),
    }
}

#[test]
fn malformed_replies_are_rejected() {
    assert!(matches!(
        decode_simple_message(&"not json".to_string()),
        Err(ConnectorError::MalformedOutput)
    ));
    assert!(matches!(
        decode_simple_message(&"{\"status\":\"success\"}".to_string()),
        Err(ConnectorError::MalformedOutput)
    ));
    // A ports object with a value outside the 16-bit range fails decoding.
    let bad = "{\"status\":\"success\",\"message\":[{\"name\":\"n\",\"chain-id\":\"c\",\"config-dir\":\"d\",\"pid\":1,\"ports\":{\"rpc\":99999,\"app\":1,\"grpc\":2,\"p2p\":3,\"pprof\":4,\"grpc-web\":5}}]}".to_string();
    assert!(matches!(decode_status_message(&bad), Err(ConnectorError::MalformedOutput)));
    let unsuccessful = "{\"status\":\"error\",\"message\":[]}".to_string();
    match decode_status_message(&unsuccessful) {
        Err(ConnectorError::Unsuccessful(m)) => assert_eq!(m, "could not decode chain status"),
        other => panic!("expected unsuccessful, got {:?}", other.err()),
    }
}

#[test]
fn command_outcomes_map_to_errors() {
    assert!(matches!(
        Connector::command_outcome(false, Some(3), None),
        Err(ConnectorError::CommandFailed(3))
    ));
    assert!(matches!(
        Connector::command_outcome(false, None, None),
        Err(ConnectorError::TerminatedBySignal)
    ));
    assert!(matches!(
        Connector::command_outcome(true, Some(0), None),
        Err(ConnectorError::InvalidUtf8)
    ));
    assert_eq!(Connector::command_outcome(true, Some(0), Some("out".to_string())).unwrap(), "out");
}
