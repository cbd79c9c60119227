//! The chain-manager connector: building the commands the manager
//! runs and decoding the JSON it prints.
//!
//! Executing the manager binary is I/O and lives outside this
//! library; here stand the command requests (what to run, with which
//! environment and arguments), the decoding of the manager's replies,
//! and the mapping of raw process outcomes to errors. JSON field
//! access goes through `serde_json` behind trusted wrappers whose
//! results are named by the `*_field` spec functions.

use vstd::prelude::*;
use vstd::string::StringExecFns;

verus! {

/// The string field a JSON object text holds under a key, if any.
pub uninterp spec fn str_field(s: Seq<char>, key: Seq<char>) -> Option<Seq<char>>;

/// The integer field a JSON object text holds under a key, if any.
pub uninterp spec fn int_field(s: Seq<char>, key: Seq<char>) -> Option<int>;

/// The non-null sub-object a JSON object text holds under a key,
/// re-serialized, if any.
pub uninterp spec fn sub_field(s: Seq<char>, key: Seq<char>) -> Option<Seq<char>>;

/// The elements of the array a JSON object text holds under a key,
/// each re-serialized, if any.
pub uninterp spec fn items_field(s: Seq<char>, key: Seq<char>) -> Option<Seq<Seq<char>>>;

/// Relies on serde_json::from_str and Value::get / Value::as_str:
/// the string field found depends on the text and key alone.
#[verifier::external_body]
fn json_str_field(text: &str, key: &str) -> (r: Option<String>)
    ensures
        match r {
            Some(v) => str_field(text@, key@) == Some(v@),
            None => str_field(text@, key@) is None,
        },
{
    let v: serde_json::Value = serde_json::from_str(text).ok()?;
    Some(v.get(key)?.as_str()?.to_string())
}

/// Relies on serde_json::from_str and Value::get / Value::as_i64:
/// the integer field found depends on the text and key alone.
#[verifier::external_body]
fn json_i64_field(text: &str, key: &str) -> (r: Option<i64>)
    ensures
        match r {
            Some(n) => int_field(text@, key@) == Some(n as int),
            None => int_field(text@, key@) is None,
        },
{
    let v: serde_json::Value = serde_json::from_str(text).ok()?;
    v.get(key)?.as_i64()
}

/// Relies on serde_json::from_str, Value::get, Value::is_null and
/// Value::to_string: the re-serialized sub-object depends on the text
/// and key alone.
#[verifier::external_body]
fn json_sub_field(text: &str, key: &str) -> (r: Option<String>)
    ensures
        match r {
            Some(v) => sub_field(text@, key@) == Some(v@),
            None => sub_field(text@, key@) is None,
        },
{
    let v: serde_json::Value = serde_json::from_str(text).ok()?;
    let f = v.get(key)?;
    if f.is_null() {
        None
    } else {
        Some(f.to_string())
    }
}

/// Relies on serde_json::from_str, Value::get, Value::as_array and
/// Value::to_string: the re-serialized array elements depend on the
/// text and key alone.
#[verifier::external_body]
fn json_items_field(text: &str, key: &str) -> (r: Option<Vec<String>>)
    ensures
        match r {
            Some(items) => items_field(text@, key@) == Some(items.deep_view()),
            None => items_field(text@, key@) is None,
        },
{
    let v: serde_json::Value = serde_json::from_str(text).ok()?;
    let mut out: Vec<String> = Vec::new();
    for e in v.get(key)?.as_array()? {
        out.push(e.to_string());
    }
    Some(out)
}

/// How talking to the chain manager fails.
#[derive(Debug)]
pub enum ConnectorError {
    /// The reply was not the JSON shape expected.
    MalformedOutput,
    /// The reply carried a status other than success; holds the
    /// reported message.
    Unsuccessful(String),
    /// The manager process exited with the given non-zero code.
    CommandFailed(i32),
    /// The manager process was ended by a signal.
    TerminatedBySignal,
    /// The manager printed bytes that are not a UTF-8 string.
    InvalidUtf8,
}

/// The status/message pair a simple manager reply decodes to.
pub open spec fn spec_simple_message(s: Seq<char>) -> Option<(Seq<char>, Seq<char>)> {
    match (str_field(s, "status"@), str_field(s, "message"@)) {
        (Some(st), Some(m)) => Some((st, m)),
        _ => None,
    }
}

/// Decodes a simple `{status, message}` reply: the message is handed
/// back on success, reported as `Unsuccessful` otherwise.
pub fn decode_simple_message(message: &String) -> (r: Result<String, ConnectorError>)
    ensures
        spec_simple_message(message@) is None ==> (r matches Err(e) && e is MalformedOutput),
        spec_simple_message(message@) matches Some(p) ==> (if p.0 == "success"@ {
            r matches Ok(v) && v@ == p.1
        } else {
            r matches Err(e) && (e matches ConnectorError::Unsuccessful(m) && m@ == p.1)
        }),
{
    let status = match json_str_field(message.as_str(), "status") {
        Some(s) => s,
        None => {
            return Err(ConnectorError::MalformedOutput);
        },
    };
    let msg = match json_str_field(message.as_str(), "message") {
        Some(s) => s,
        None => {
            return Err(ConnectorError::MalformedOutput);
        },
    };
    if status == String::from_str("success") {
        Ok(msg)
    } else {
        Err(ConnectorError::Unsuccessful(msg))
    }
}

/// Ports a running chain binary listens on.
pub struct Ports {
    pub rpc: i16,
    pub app: i16,
    pub grpc: i16,
    pub p2p: i16,
    pub pprof: i16,
    pub grpc_web: i16,
}

/// The running status of one chain node.
pub struct ChainStatus {
    pub name: String,
    pub chain_id: String,
    pub config_dir: String,
    pub pid: Option<i64>,
    pub ports: Option<Ports>,
}

/// Whether a ports object text decodes: all six ports present and
/// within the signed 16-bit range.
pub open spec fn spec_ports_ok(s: Seq<char>) -> bool {
    &&& (int_field(s, "rpc"@) matches Some(n) && i16::MIN <= n <= i16::MAX)
    &&& (int_field(s, "app"@) matches Some(n) && i16::MIN <= n <= i16::MAX)
    &&& (int_field(s, "grpc"@) matches Some(n) && i16::MIN <= n <= i16::MAX)
    &&& (int_field(s, "p2p"@) matches Some(n) && i16::MIN <= n <= i16::MAX)
    &&& (int_field(s, "pprof"@) matches Some(n) && i16::MIN <= n <= i16::MAX)
    &&& (int_field(s, "grpc-web"@) matches Some(n) && i16::MIN <= n <= i16::MAX)
}

/// Whether decoded ports carry exactly the fields of a ports text.
pub open spec fn ports_match(s: Seq<char>, p: Ports) -> bool {
    &&& int_field(s, "rpc"@) == Some(p.rpc as int)
    &&& int_field(s, "app"@) == Some(p.app as int)
    &&& int_field(s, "grpc"@) == Some(p.grpc as int)
    &&& int_field(s, "p2p"@) == Some(p.p2p as int)
    &&& int_field(s, "pprof"@) == Some(p.pprof as int)
    &&& int_field(s, "grpc-web"@) == Some(p.grpc_web as int)
}

/// Reads one 16-bit port field out of a ports object text.
fn decode_port(text: &String, key: &str) -> (r: Option<i16>)
    ensures
        r matches Some(p) ==> int_field(text@, key@) == Some(p as int),
        r is None <==> !(int_field(text@, key@) matches Some(n) && i16::MIN <= n <= i16::MAX),
{
    match json_i64_field(text.as_str(), key) {
        Some(n) => {
            if -32768 <= n && n <= 32767 {
                Some(n as i16)
            } else {
                None
            }
        },
        None => None,
    }
}

/// Decodes the six ports of one node.
pub fn decode_ports(text: &String) -> (r: Option<Ports>)
    ensures
        r is Some <==> spec_ports_ok(text@),
        r matches Some(p) ==> ports_match(text@, p),
{
    let rpc = match decode_port(text, "rpc") {
        Some(p) => p,
        None => {
            return None;
        },
    };
    let app = match decode_port(text, "app") {
        Some(p) => p,
        None => {
            return None;
        },
    };
    let grpc = match decode_port(text, "grpc") {
        Some(p) => p,
        None => {
            return None;
        },
    };
    let p2p = match decode_port(text, "p2p") {
        Some(p) => p,
        None => {
            return None;
        },
    };
    let pprof = match decode_port(text, "pprof") {
        Some(p) => p,
        None => {
            return None;
        },
    };
    let grpc_web = match decode_port(text, "grpc-web") {
        Some(p) => p,
        None => {
            return None;
        },
    };
    Some(Ports { rpc, app, grpc, p2p, pprof, grpc_web })
}

/// Whether one node's status text decodes.
pub open spec fn spec_chain_status_ok(s: Seq<char>) -> bool {
    &&& str_field(s, "name"@) is Some
    &&& str_field(s, "chain-id"@) is Some
    &&& str_field(s, "config-dir"@) is Some
    &&& (sub_field(s, "ports"@) matches Some(ps) ==> spec_ports_ok(ps))
}

/// Whether a decoded status carries exactly the fields of its text.
pub open spec fn chain_status_matches(s: Seq<char>, c: ChainStatus) -> bool {
    &&& str_field(s, "name"@) == Some(c.name@)
    &&& str_field(s, "chain-id"@) == Some(c.chain_id@)
    &&& str_field(s, "config-dir"@) == Some(c.config_dir@)
    &&& (match c.pid {
        Some(n) => int_field(s, "pid"@) == Some(n as int),
        None => int_field(s, "pid"@) is None,
    })
    &&& (c.ports is Some <==> sub_field(s, "ports"@) is Some)
    &&& (match c.ports {
        Some(p) => sub_field(s, "ports"@) matches Some(ps) && ports_match(ps, p),
        None => true,
    })
}

/// Decodes one node's status text.
pub fn decode_chain_status(text: &String) -> (r: Option<ChainStatus>)
    ensures
        r is Some <==> spec_chain_status_ok(text@),
        r matches Some(c) ==> chain_status_matches(text@, c),
{
    let name = match json_str_field(text.as_str(), "name") {
        Some(s) => s,
        None => {
            return None;
        },
    };
    let chain_id = match json_str_field(text.as_str(), "chain-id") {
        Some(s) => s,
        None => {
            return None;
        },
    };
    let config_dir = match json_str_field(text.as_str(), "config-dir") {
        Some(s) => s,
        None => {
            return None;
        },
    };
    let pid = json_i64_field(text.as_str(), "pid");
    let ports = match json_sub_field(text.as_str(), "ports") {
        Some(ptext) => match decode_ports(&ptext) {
            Some(p) => Some(p),
            None => {
                return None;
            },
        },
        None => None,
    };
    Some(ChainStatus { name, chain_id, config_dir, pid, ports })
}

/// Whether every re-serialized status entry decodes.
pub open spec fn all_statuses_ok(items: Seq<Seq<char>>) -> bool {
    forall|i: int| 0 <= i < items.len() ==> spec_chain_status_ok(#[trigger] items[i])
}

/// Whether decoded statuses carry, entry by entry, exactly the
/// fields of their texts.
pub open spec fn statuses_match(items: Seq<Seq<char>>, v: Seq<ChainStatus>) -> bool {
    forall|i: int| 0 <= i < items.len() ==> chain_status_matches(items[i], #[trigger] v[i])
}

/// Decodes a whole status reply: a success status wrapping one entry
/// per running node, in the order the manager reported them.
pub fn decode_status_message(message: &String) -> (r: Result<Vec<ChainStatus>, ConnectorError>)
    ensures
        str_field(message@, "status"@) is None ==> (r matches Err(e) && e is MalformedOutput),
        str_field(message@, "status"@) matches Some(st) && st != "success"@ ==> (r matches Err(e)
            && (e matches ConnectorError::Unsuccessful(m) && m@
            == "could not decode chain status"@)),
        str_field(message@, "status"@) == Some("success"@) ==> (items_field(message@, "message"@)
            is None ==> (r matches Err(e) && e is MalformedOutput)),
        str_field(message@, "status"@) == Some("success"@) ==> (items_field(message@, "message"@)
            matches Some(items) ==> (if all_statuses_ok(items) {
            r matches Ok(v) && v@.len() == items.len() && statuses_match(items, v@)
        } else {
            r matches Err(e) && e is MalformedOutput
        })),
{
    let status = match json_str_field(message.as_str(), "status") {
        Some(s) => s,
        None => {
            return Err(ConnectorError::MalformedOutput);
        },
    };
    if !(status == String::from_str("success")) {
        return Err(ConnectorError::Unsuccessful(String::from_str(
            "could not decode chain status",
        )));
    }
    let items = match json_items_field(message.as_str(), "message") {
        Some(v) => v,
        None => {
            return Err(ConnectorError::MalformedOutput);
        },
    };
    let ghost items_view = items.deep_view();
    let mut out: Vec<ChainStatus> = Vec::new();
    for i in 0..items.len()
        invariant
            str_field(message@, "status"@) == Some("success"@),
            items_field(message@, "message"@) == Some(items_view),
            items_view == items.deep_view(),
            items_view.len() == items@.len(),
            out@.len() == i,
            forall|j: int| 0 <= j < i ==> spec_chain_status_ok(#[trigger] items_view[j]),
            forall|j: int| 0 <= j < i ==> chain_status_matches(items_view[j], #[trigger] out@[j]),
    {
        proof {
            assert(items_view[i as int] == items@[i as int]@);
        }
        match decode_chain_status(&items[i]) {
            Some(c) => {
                out.push(c);
            },
            None => {
                proof {
                    assert(!spec_chain_status_ok(items_view[i as int]));
                    assert(!all_statuses_ok(items_view));
                }
                return Err(ConnectorError::MalformedOutput);
            },
        }
    }
    Ok(out)
}

/// What the manager must be asked to run: the binary, its
/// environment (JSON output always; the configuration file when one
/// is set), the subcommand, and the parameters joined into a single
/// argument.
pub struct CommandRequest {
    pub program: String,
    pub gm_toml: Option<String>,
    pub subcommand: String,
    pub params_arg: Option<String>,
}

/// The parameters of a command joined with single spaces.
pub open spec fn spec_join_spaced(parts: Seq<&str>) -> Seq<char>
    decreases parts.len(),
{
    if parts.len() == 0 {
        Seq::empty()
    } else if parts.len() == 1 {
        parts[0]@
    } else {
        spec_join_spaced(parts.drop_last()) + " "@ + parts.last()@
    }
}

/// Joins parameters with single spaces.
pub fn join_spaced(parts: &Vec<&str>) -> (r: String)
    ensures
        r@ == spec_join_spaced(parts@),
{
    let mut s = String::new();
    for i in 0..parts.len()
        invariant
            s@ == spec_join_spaced(parts@.subrange(0, i as int)),
    {
        if i > 0 {
            s.append(" ");
        }
        s.append(parts[i]);
        proof {
            assert(parts@.subrange(0, i + 1 as int).drop_last() =~= parts@.subrange(0, i as int));
            assert(parts@.subrange(0, i + 1 as int).last() == parts@[i as int]);
        }
    }
    proof {
        assert(parts@.subrange(0, parts@.len() as int) =~= parts@);
    }
    s
}

/// The configuration path of a connector, as a view.
pub open spec fn opt_string_view(o: Option<String>) -> Option<Seq<char>> {
    match o {
        Some(s) => Some(s@),
        None => None,
    }
}

/// A handle on the chain manager: where its binary lives, which
/// configuration it runs under, and the version it reported when the
/// connector was built.
pub struct Connector {
    gm_path: String,
    version: String,
    config: Option<String>,
}

impl Connector {
    /// The manager binary path held.
    pub closed spec fn spec_gm_path(&self) -> Seq<char> {
        self.gm_path@
    }

    /// The version string held.
    pub closed spec fn spec_version(&self) -> Seq<char> {
        self.version@
    }

    /// The configuration path held, if any.
    pub closed spec fn spec_config(&self) -> Option<Seq<char>> {
        opt_string_view(self.config)
    }

    /// Builds a connector from the manager's reply to a version
    /// command (the run itself happens outside this library).
    pub fn new(gm_path: &String, config: Option<String>, version_output: &String) -> (r: Result<
        Connector,
        ConnectorError,
    >)
        ensures
            spec_simple_message(version_output@) is None ==> (r matches Err(e)
                && e is MalformedOutput),
            spec_simple_message(version_output@) matches Some(p) ==> (if p.0 == "success"@ {
                r matches Ok(c) && c.spec_version() == p.1 && c.spec_gm_path() == gm_path@
                    && c.spec_config() == opt_string_view(config)
            } else {
                r matches Err(e) && (e matches ConnectorError::Unsuccessful(m) && m@ == p.1)
            }),
    {
        match decode_simple_message(version_output) {
            Ok(v) => Ok(Connector { gm_path: gm_path.clone(), version: v, config }),
            Err(e) => Err(e),
        }
    }

    /// The manager version reported when the connector was built.
    pub fn get_version(&self) -> (r: &String)
        ensures
            r@ == self.spec_version(),
    {
        &self.version
    }

    /// Decodes the manager's reply to a status command into the list
    /// of node statuses, in reported order.
    pub fn get_status(&self, status_output: &String) -> (r: Result<
        Vec<ChainStatus>,
        ConnectorError,
    >)
        ensures
            str_field(status_output@, "status"@) is None ==> (r matches Err(e)
                && e is MalformedOutput),
            str_field(status_output@, "status"@) matches Some(st) && st != "success"@ ==> (r
                matches Err(e) && (e matches ConnectorError::Unsuccessful(m) && m@
                == "could not decode chain status"@)),
            str_field(status_output@, "status"@) == Some("success"@) ==> (items_field(
                status_output@,
                "message"@,
            ) is None ==> (r matches Err(e) && e is MalformedOutput)),
            str_field(status_output@, "status"@) == Some("success"@) ==> (items_field(
                status_output@,
                "message"@,
            ) matches Some(items) ==> (if all_statuses_ok(items) {
                r matches Ok(v) && v@.len() == items.len() && statuses_match(items, v@)
            } else {
                r matches Err(e) && e is MalformedOutput
            })),
    {
        decode_status_message(status_output)
    }

    /// The request for one manager invocation.
    pub fn command_request(&self, subcommand: &str, params: Option<Vec<&str>>) -> (r:
        CommandRequest)
        ensures
            r.program@ == self.spec_gm_path(),
            opt_string_view(r.gm_toml) == self.spec_config(),
            r.subcommand@ == subcommand@,
            match params {
                Some(vs) => opt_string_view(r.params_arg) == Some(spec_join_spaced(vs@)),
                None => r.params_arg is None,
            },
    {
        CommandRequest {
            program: self.gm_path.clone(),
            gm_toml: match &self.config {
                Some(c) => Some(c.clone()),
                None => None,
            },
            subcommand: subcommand.to_owned(),
            params_arg: match params {
                Some(vs) => Some(join_spaced(&vs)),
                None => None,
            },
        }
    }

    /// The request that starts the networks.
    pub fn start(&self, params: Option<Vec<&str>>) -> (r: CommandRequest)
        ensures
            r.program@ == self.spec_gm_path(),
            opt_string_view(r.gm_toml) == self.spec_config(),
            r.subcommand@ == "start"@,
            match params {
                Some(vs) => opt_string_view(r.params_arg) == Some(spec_join_spaced(vs@)),
                None => r.params_arg is None,
            },
    {
        self.command_request("start", params)
    }

    /// The request that stops the networks.
    pub fn stop(&self, params: Option<Vec<&str>>) -> (r: CommandRequest)
        ensures
            r.program@ == self.spec_gm_path(),
            opt_string_view(r.gm_toml) == self.spec_config(),
            r.subcommand@ == "stop"@,
            match params {
                Some(vs) => opt_string_view(r.params_arg) == Some(spec_join_spaced(vs@)),
                None => r.params_arg is None,
            },
    {
        self.command_request("stop", params)
    }

    /// The request that resets the network databases.
    pub fn reset(&self, params: Option<Vec<&str>>) -> (r: CommandRequest)
        ensures
            r.program@ == self.spec_gm_path(),
            opt_string_view(r.gm_toml) == self.spec_config(),
            r.subcommand@ == "reset"@,
            match params {
                Some(vs) => opt_string_view(r.params_arg) == Some(spec_join_spaced(vs@)),
                None => r.params_arg is None,
            },
    {
        self.command_request("reset", params)
    }

    /// The request that removes network configurations.
    pub fn rm(&self, params: Vec<&str>) -> (r: CommandRequest)
        ensures
            r.program@ == self.spec_gm_path(),
            opt_string_view(r.gm_toml) == self.spec_config(),
            r.subcommand@ == "rm"@,
            opt_string_view(r.params_arg) == Some(spec_join_spaced(params@)),
    {
        self.command_request("rm", Some(params))
    }

    /// Maps the raw outcome of a manager run — whether it succeeded,
    /// its exit code, and its output decoded as UTF-8 — to the reply
    /// text or the matching error.
    pub fn command_outcome(success: bool, exit_code: Option<i32>, stdout_utf8: Option<String>) -> (
        r: Result<String, ConnectorError>)
        ensures
            !success ==> (exit_code matches Some(c) ==> (r matches Err(e) && (e matches
                ConnectorError::CommandFailed(k) && k == c))),
            !success && exit_code is None ==> (r matches Err(e) && e is TerminatedBySignal),
            success && stdout_utf8 is None ==> (r matches Err(e) && e is InvalidUtf8),
            success ==> (stdout_utf8 matches Some(s) ==> (r matches Ok(v) && v == s)),
    {
        if !success {
            return match exit_code {
                Some(c) => Err(ConnectorError::CommandFailed(c)),
                None => Err(ConnectorError::TerminatedBySignal),
            };
        }
        match stdout_utf8 {
            Some(s) => Ok(s),
            None => Err(ConnectorError::InvalidUtf8),
        }
    }
}

} // verus!
