//! Connection ends, their counterparty mirror, and version validation.
//!
//! A `ConnectionEnd` is the local half of a connection; its `state`
//! only ever advances through `Uninitialized -> Init -> TryOpen ->
//! Open`, and an end cannot reach `Open` while the counterparty
//! connection identifier is still unknown.

use vstd::prelude::*;
use vstd::string::StrSliceExecFns;
use vstd::string::StringExecFns;
use crate::errors::ValidationError;
use crate::identifier::{ClientId, CommitmentPrefix, ConnectionId, is_valid_identifier};

verus! {

/// Lifecycle stage of a connection end.
#[derive(Clone, Copy, Debug, PartialEq, Eq, Structural)]
pub enum State {
    Uninitialized,
    Init,
    TryOpen,
    Open,
}

/// Position of a state in the four-step lifecycle.
pub open spec fn state_index(s: State) -> int {
    match s {
        State::Uninitialized => 0,
        State::Init => 1,
        State::TryOpen => 2,
        State::Open => 3,
    }
}

/// A transition never moves backward in the lifecycle.
pub open spec fn state_advances(from: State, to: State) -> bool {
    state_index(from) <= state_index(to)
}

/// The state a raw protocol integer denotes; unknown values fall back
/// to `Uninitialized`.
pub open spec fn spec_state_from_i32(i: int) -> State {
    if i == 1 {
        State::Init
    } else if i == 2 {
        State::TryOpen
    } else if i == 3 {
        State::Open
    } else {
        State::Uninitialized
    }
}

impl State {
    /// Decodes the protocol integer encoding of a state.
    pub fn from_i32(i: i32) -> (r: State)
        ensures
            r == spec_state_from_i32(i as int),
    {
        if i == 1 {
            State::Init
        } else if i == 2 {
            State::TryOpen
        } else if i == 3 {
            State::Open
        } else {
            State::Uninitialized
        }
    }
}

/// A white-space character, as trimming understands it: the Unicode
/// White_Space set.
pub open spec fn is_space_char(c: char) -> bool {
    let u = c as u32;
    ||| (9 <= u && u <= 13)  // tab through carriage return
    ||| u == 32  // space
    ||| u == 0x85  // next line
    ||| u == 0xA0  // no-break space
    ||| u == 0x1680  // ogham space mark
    ||| (0x2000 <= u && u <= 0x200A)  // en quad through hair space
    ||| u == 0x2028  // line separator
    ||| u == 0x2029  // paragraph separator
    ||| u == 0x202F  // narrow no-break space
    ||| u == 0x205F  // medium mathematical space
    ||| u == 0x3000  // ideographic space
}

/// A string that trims to nothing: white space only (the empty
/// string included).
pub open spec fn is_blank(s: Seq<char>) -> bool {
    forall|i: int| 0 <= i < s.len() ==> is_space_char(s[i])
}

/// Decides `is_blank` for a string slice.
pub fn is_blank_str(s: &str) -> (r: bool)
    ensures
        r == is_blank(s@),
{
    let n = s.unicode_len();
    for i in 0..n
        invariant
            n == s@.len(),
            forall|j: int| 0 <= j < i ==> is_space_char(s@[j]),
    {
        let u = s.get_char(i) as u32;
        let space = (9 <= u && u <= 13) || u == 32 || u == 0x85 || u == 0xA0 || u == 0x1680 || (
        0x2000 <= u && u <= 0x200A) || u == 0x2028 || u == 0x2029 || u == 0x202F || u == 0x205F
            || u == 0x3000;
        if !space {
            return false;
        }
    }
    true
}

/// What a version list must satisfy: non-empty, and no blank entry.
pub open spec fn versions_ok(vs: Seq<String>) -> bool {
    &&& vs.len() > 0
    &&& forall|i: int| 0 <= i < vs.len() ==> !is_blank(vs[i]@)
}

/// Checks a single version entry, handing it back unchanged when it is
/// not blank.
pub fn validate_version(version: String) -> (r: Result<String, String>)
    ensures
        !is_blank(version@) ==> r == Result::<String, String>::Ok(version),
        is_blank(version@) ==> (r matches Err(m) && m@ == "empty version string"@),
{
    if is_blank_str(version.as_str()) {
        Err(String::from_str("empty version string"))
    } else {
        Ok(version)
    }
}

/// Checks a whole version list: it must be non-empty and free of blank
/// entries, and valid input comes back unchanged.
pub fn validate_versions(versions: Vec<String>) -> (r: Result<Vec<String>, String>)
    ensures
        r is Ok <==> versions_ok(versions@),
        r matches Ok(v) ==> v == versions,
        versions@.len() == 0 ==> (r matches Err(m) && m@ == "missing versions"@),
        versions@.len() > 0 && !versions_ok(versions@) ==> (r matches Err(m) && m@
            == "empty version string"@),
{
    if versions.len() == 0 {
        return Err(String::from_str("missing versions"));
    }
    for i in 0..versions.len()
        invariant
            forall|j: int| 0 <= j < i ==> !is_blank(versions@[j]@),
    {
        if is_blank_str(versions[i].as_str()) {
            return Err(String::from_str("empty version string"));
        }
    }
    Ok(versions)
}

/// The optional connection identifier of a counterparty, as a view.
pub open spec fn opt_conn_view(o: Option<ConnectionId>) -> Option<Seq<char>> {
    match o {
        Some(c) => Some(c@),
        None => None,
    }
}

/// The remote chain's half of a connection, as mirrored locally. The
/// connection identifier stays unknown until the remote chain commits
/// to one.
#[derive(Debug)]
pub struct Counterparty {
    pub client_id: ClientId,
    pub connection_id: Option<ConnectionId>,
    pub prefix: CommitmentPrefix,
}

impl Counterparty {
    /// Well-formedness: every identifier held passed validation.
    pub open spec fn wf(&self) -> bool {
        &&& self.client_id.wf()
        &&& (self.connection_id matches Some(c) ==> c.wf())
    }

    /// Builds a counterparty from raw strings, validating each
    /// identifier; an absent connection identifier is legitimate until
    /// the remote chain commits to one.
    pub fn new(client_id: String, connection_id: Option<String>, prefix: CommitmentPrefix) -> (r:
        Result<Counterparty, ValidationError>)
        ensures
            r is Ok <==> is_valid_identifier(client_id@) && (connection_id matches Some(s)
                ==> is_valid_identifier(s@)),
            r matches Ok(cp) ==> {
                &&& cp.client_id@ == client_id@
                &&& cp.prefix@ == prefix@
                &&& cp.wf()
                &&& (match connection_id {
                    Some(s) => opt_conn_view(cp.connection_id) == Some(s@),
                    None => cp.connection_id is None,
                })
            },
            r is Err ==> r == Result::<Counterparty, ValidationError>::Err(
                ValidationError::InvalidIdentifier,
            ),
    {
        let cid = match ClientId::new(client_id) {
            Ok(c) => c,
            Err(e) => {
                return Err(e);
            },
        };
        let conn = match connection_id {
            Some(s) => match ConnectionId::new(s) {
                Ok(c) => Some(c),
                Err(e) => {
                    return Err(e);
                },
            },
            None => None,
        };
        Ok(Counterparty { client_id: cid, connection_id: conn, prefix })
    }

    /// The counterparty's client identifier, as an owned string.
    pub fn client_id(&self) -> (r: String)
        ensures
            r@ == self.client_id@,
    {
        self.client_id.as_str().to_owned()
    }

    /// The counterparty's connection identifier, if known.
    pub fn connection_id(&self) -> (r: Option<String>)
        ensures
            match r {
                Some(s) => opt_conn_view(self.connection_id) == Some(s@),
                None => self.connection_id is None,
            },
    {
        match &self.connection_id {
            Some(c) => Some(c.as_str().to_owned()),
            None => None,
        }
    }

    /// The commitment prefix the counterparty stores its state under.
    pub fn prefix(&self) -> (r: &CommitmentPrefix)
        ensures
            r@ == self.prefix@,
    {
        &self.prefix
    }

    /// Re-checks the held identifiers at runtime.
    pub fn validate_basic(&self) -> (r: Result<(), ValidationError>)
        ensures
            r is Ok <==> self.wf(),
            r is Err ==> r == Result::<(), ValidationError>::Err(
                ValidationError::InvalidIdentifier,
            ),
    {
        if !validate_identifier_of(self.client_id.as_str()) {
            return Err(ValidationError::InvalidIdentifier);
        }
        match &self.connection_id {
            Some(c) => {
                if !validate_identifier_of(c.as_str()) {
                    return Err(ValidationError::InvalidIdentifier);
                }
            },
            None => {},
        }
        Ok(())
    }

    /// An owned copy with the same views.
    pub fn dup(&self) -> (r: Counterparty)
        ensures
            r.client_id@ == self.client_id@,
            opt_conn_view(r.connection_id) == opt_conn_view(self.connection_id),
            r.prefix@ == self.prefix@,
            r.wf() == self.wf(),
    {
        Counterparty {
            client_id: self.client_id.dup(),
            connection_id: match &self.connection_id {
                Some(c) => Some(c.dup()),
                None => None,
            },
            prefix: self.prefix.dup(),
        }
    }
}

/// Local alias so the identifier check reads naturally here.
fn validate_identifier_of(s: &str) -> (r: bool)
    ensures
        r == is_valid_identifier(s@),
{
    crate::identifier::validate_identifier(s)
}

/// The local half of a connection between two chains.
#[derive(Debug)]
pub struct ConnectionEnd {
    pub state: State,
    pub client_id: ClientId,
    pub counterparty: Counterparty,
    pub versions: Vec<String>,
}

impl ConnectionEnd {
    /// Well-formedness: identifiers validated, versions acceptable,
    /// and `Open` only with the counterparty connection known.
    pub open spec fn wf(&self) -> bool {
        &&& self.client_id.wf()
        &&& self.counterparty.wf()
        &&& versions_ok(self.versions@)
        &&& (self.state == State::Open ==> self.counterparty.connection_id is Some)
    }

    /// Creates the end in `Uninitialized` state, rejecting an
    /// unacceptable version list.
    pub fn new(client_id: ClientId, counterparty: Counterparty, versions: Vec<String>) -> (r:
        Result<ConnectionEnd, ValidationError>)
        ensures
            r is Ok <==> versions_ok(versions@),
            r matches Ok(c) ==> {
                &&& c.state == State::Uninitialized
                &&& c.client_id == client_id
                &&& c.counterparty == counterparty
                &&& c.versions == versions
            },
            r matches Ok(c) ==> (client_id.wf() && counterparty.wf() ==> c.wf()),
            r is Err ==> r == Result::<ConnectionEnd, ValidationError>::Err(
                ValidationError::InvalidVersion,
            ),
    {
        match validate_versions(versions) {
            Ok(v) => Ok(
                ConnectionEnd { state: State::Uninitialized, client_id, counterparty, versions: v },
            ),
            Err(_) => Err(ValidationError::InvalidVersion),
        }
    }

    /// Advances the lifecycle state after the matching step was
    /// observed on chain; the state never moves backward, and `Open`
    /// demands a known counterparty connection.
    pub fn set_state(&mut self, new_state: State)
        requires
            state_advances(old(self).state, new_state),
            new_state == State::Open ==> old(self).counterparty.connection_id is Some,
        ensures
            final(self).state == new_state,
            final(self).client_id == old(self).client_id,
            final(self).counterparty == old(self).counterparty,
            final(self).versions == old(self).versions,
            old(self).wf() ==> final(self).wf(),
    {
        self.state = new_state;
    }

    /// Records the counterparty connection identifier once the remote
    /// chain has committed to one.
    pub fn set_counterparty_connection_id(&mut self, id: ConnectionId)
        ensures
            final(self).state == old(self).state,
            final(self).client_id == old(self).client_id,
            final(self).versions == old(self).versions,
            final(self).counterparty.client_id == old(self).counterparty.client_id,
            final(self).counterparty.prefix == old(self).counterparty.prefix,
            final(self).counterparty.connection_id == Some(id),
            old(self).wf() && id.wf() ==> final(self).wf(),
    {
        self.counterparty.connection_id = Some(id);
    }

    /// The current lifecycle state.
    pub fn state(&self) -> (r: &State)
        ensures
            *r == self.state,
    {
        &self.state
    }

    /// The local client identifier, as an owned string.
    pub fn client_id(&self) -> (r: String)
        ensures
            r@ == self.client_id@,
    {
        self.client_id.as_str().to_owned()
    }

    /// An owned copy of the counterparty mirror.
    pub fn counterparty(&self) -> (r: Counterparty)
        ensures
            r.client_id@ == self.counterparty.client_id@,
            opt_conn_view(r.connection_id) == opt_conn_view(self.counterparty.connection_id),
            r.prefix@ == self.counterparty.prefix@,
            r.wf() == self.counterparty.wf(),
    {
        self.counterparty.dup()
    }

    /// An owned copy of the version list.
    pub fn versions(&self) -> (r: Vec<String>)
        ensures
            r@ == self.versions@,
    {
        clone_string_vec(&self.versions)
    }

    /// Re-checks the counterparty identifiers at runtime.
    pub fn validate_basic(&self) -> (r: Result<(), ValidationError>)
        ensures
            r is Ok <==> self.counterparty.wf(),
            r is Err ==> r == Result::<(), ValidationError>::Err(
                ValidationError::InvalidIdentifier,
            ),
    {
        self.counterparty.validate_basic()
    }
}

/// Copies a vector of strings, preserving its view.
fn clone_string_vec(v: &Vec<String>) -> (r: Vec<String>)
    ensures
        r@ == v@,
{
    let mut r: Vec<String> = Vec::new();
    for i in 0..v.len()
        invariant
            r@ == v@.subrange(0, i as int),
    {
        r.push(v[i].clone());
        proof {
            assert(r@ =~= v@.subrange(0, i + 1 as int));
        }
    }
    proof {
        assert(v@.subrange(0, v@.len() as int) =~= v@);
    }
    r
}

/// A connection end as carried on the wire: the counterparty may be
/// absent, the state is a raw integer, and an empty counterparty
/// connection identifier means "not yet known".
#[derive(Debug)]
pub struct ProtoConnectionEnd {
    pub client_id: String,
    pub versions: Vec<String>,
    pub state: i32,
    pub counterparty: Option<ProtoCounterparty>,
}

/// A counterparty as carried on the wire; the prefix may be absent.
#[derive(Debug)]
pub struct ProtoCounterparty {
    pub client_id: String,
    pub connection_id: String,
    pub prefix: Option<Vec<u8>>,
}

/// What a wire counterparty must satisfy to decode.
pub open spec fn proto_counterparty_ok(pc: ProtoCounterparty) -> bool {
    &&& pc.prefix is Some
    &&& is_valid_identifier(pc.client_id@)
    &&& (pc.connection_id@.len() == 0 || is_valid_identifier(pc.connection_id@))
}

impl Counterparty {
    /// Decodes a wire counterparty: a missing prefix is rejected, an
    /// empty connection identifier decodes as "not yet known".
    pub fn from_proto_counterparty(pc: ProtoCounterparty) -> (r: Result<
        Counterparty,
        ValidationError,
    >)
        ensures
            r is Ok <==> proto_counterparty_ok(pc),
            pc.prefix is None ==> r == Result::<Counterparty, ValidationError>::Err(
                ValidationError::MissingCounterpartyPrefix,
            ),
            pc.prefix is Some && !(r is Ok) ==> r == Result::<Counterparty, ValidationError>::Err(
                ValidationError::InvalidIdentifier,
            ),
            r matches Ok(cp) ==> {
                &&& cp.client_id@ == pc.client_id@
                &&& pc.prefix matches Some(b) && cp.prefix@ == b@
                &&& (if pc.connection_id@.len() == 0 {
                    cp.connection_id is None
                } else {
                    opt_conn_view(cp.connection_id) == Some(pc.connection_id@)
                })
                &&& cp.wf()
            },
    {
        match pc.prefix {
            None => Err(ValidationError::MissingCounterpartyPrefix),
            Some(bytes) => {
                let conn = if pc.connection_id.as_str().is_empty() {
                    None
                } else {
                    Some(pc.connection_id)
                };
                Counterparty::new(pc.client_id, conn, CommitmentPrefix::new(bytes))
            },
        }
    }
}

/// What a wire connection end must satisfy to decode.
pub open spec fn proto_connection_ok(pc: ProtoConnectionEnd) -> bool {
    &&& pc.counterparty matches Some(pcp) && proto_counterparty_ok(pcp)
    &&& is_valid_identifier(pc.client_id@)
    &&& versions_ok(pc.versions@)
    &&& (spec_state_from_i32(pc.state as int) == State::Open ==> (pc.counterparty matches Some(
        pcp2,
    ) && pcp2.connection_id@.len() != 0))
}

impl ConnectionEnd {
    /// Decodes a wire connection end. A missing counterparty, a
    /// missing prefix, an invalid identifier, an unacceptable version
    /// list, or an `Open` state without a counterparty connection
    /// identifier are each rejected.
    pub fn from_proto_connection(pc: ProtoConnectionEnd) -> (r: Result<
        ConnectionEnd,
        ValidationError,
    >)
        ensures
            r is Ok <==> proto_connection_ok(pc),
            pc.counterparty is None ==> r == Result::<ConnectionEnd, ValidationError>::Err(
                ValidationError::MissingCounterparty,
            ),
            pc.counterparty matches Some(pcp) && pcp.prefix is None ==> r == Result::<
                ConnectionEnd,
                ValidationError,
            >::Err(ValidationError::MissingCounterpartyPrefix),
            r matches Ok(c) ==> {
                &&& c.client_id@ == pc.client_id@
                &&& c.versions@ == pc.versions@
                &&& c.state == spec_state_from_i32(pc.state as int)
                &&& pc.counterparty matches Some(pcp) && c.counterparty.client_id@ == pcp.client_id@
                &&& pc.counterparty matches Some(pcp2) && pcp2.prefix matches Some(b)
                    && c.counterparty.prefix@ == b@
                &&& pc.counterparty matches Some(pcp3) && (if pcp3.connection_id@.len() == 0 {
                    c.counterparty.connection_id is None
                } else {
                    opt_conn_view(c.counterparty.connection_id) == Some(pcp3.connection_id@)
                })
                &&& (c.state == State::Open ==> c.counterparty.connection_id is Some)
                &&& c.wf()
            },
    {
        let pcp = match pc.counterparty {
            None => {
                return Err(ValidationError::MissingCounterparty);
            },
            Some(c) => c,
        };
        let cp = match Counterparty::from_proto_counterparty(pcp) {
            Ok(c) => c,
            Err(e) => {
                return Err(e);
            },
        };
        let cid = match ClientId::new(pc.client_id) {
            Ok(c) => c,
            Err(e) => {
                return Err(e);
            },
        };
        let mut conn = match ConnectionEnd::new(cid, cp, pc.versions) {
            Ok(c) => c,
            Err(e) => {
                return Err(e);
            },
        };
        let target = State::from_i32(pc.state);
        if target == State::Open && conn.counterparty.connection_id.is_none() {
            return Err(ValidationError::MissingCounterparty);
        }
        conn.set_state(target);
        Ok(conn)
    }
}

} // verus!
