//! Validated identifiers and commitment prefixes.
//!
//! An identifier is a non-empty string of at most `MAX_IDENTIFIER_LEN`
//! characters drawn from a restricted set (ASCII letters, digits, and
//! `.`, `_`, `+`, `-`). Construction rejects anything else with
//! `ValidationError::InvalidIdentifier`; once constructed, an
//! identifier is immutable and converts back to exactly the string it
//! was built from.

use vstd::prelude::*;
use vstd::string::StrSliceExecFns;
use crate::errors::ValidationError;

verus! {

/// Largest number of characters an identifier may hold.
pub const MAX_IDENTIFIER_LEN: usize = 64;

/// A character the identifier alphabet admits: ASCII letters, digits,
/// and the punctuation `.`, `_`, `+`, `-`.
pub open spec fn is_id_char(c: char) -> bool {
    let u = c as u32;
    (48 <= u && u <= 57)  // '0' ..= '9'
    || (65 <= u && u <= 90)  // 'A' ..= 'Z'
    || (97 <= u && u <= 122)  // 'a' ..= 'z'
    || u == 46  // '.'
    || u == 95  // '_'
    || u == 43  // '+'
    || u == 45  // '-'
}

/// What every identifier kind requires of its underlying string.
pub open spec fn is_valid_identifier(s: Seq<char>) -> bool {
    &&& 1 <= s.len() <= MAX_IDENTIFIER_LEN
    &&& forall|i: int| 0 <= i < s.len() ==> is_id_char(s[i])
}

/// Decides `is_valid_identifier` for a string slice.
pub fn validate_identifier(s: &str) -> (r: bool)
    ensures
        r == is_valid_identifier(s@),
{
    let n = s.unicode_len();
    if n < 1 || n > MAX_IDENTIFIER_LEN {
        return false;
    }
    for i in 0..n
        invariant
            n == s@.len(),
            forall|j: int| 0 <= j < i ==> is_id_char(s@[j]),
    {
        let u = s.get_char(i) as u32;
        let ok = (48 <= u && u <= 57) || (65 <= u && u <= 90) || (97 <= u && u <= 122)
            || u == 46 || u == 95 || u == 43 || u == 45;
        if !ok {
            return false;
        }
    }
    true
}

/// Identifier of a light client hosted on a chain.
#[derive(Debug)]
pub struct ClientId {
    id: String,
}

impl View for ClientId {
    type V = Seq<char>;

    closed spec fn view(&self) -> Seq<char> {
        self.id@
    }
}

impl ClientId {
    /// Well-formedness: the underlying string passed validation.
    pub open spec fn wf(&self) -> bool {
        is_valid_identifier(self@)
    }

    /// Builds a client identifier, rejecting invalid strings.
    pub fn new(s: String) -> (r: Result<ClientId, ValidationError>)
        ensures
            r is Ok <==> is_valid_identifier(s@),
            r matches Ok(id) ==> id@ == s@ && id.wf(),
            r is Err ==> r == Result::<ClientId, ValidationError>::Err(
                ValidationError::InvalidIdentifier,
            ),
    {
        if validate_identifier(s.as_str()) {
            Ok(ClientId { id: s })
        } else {
            Err(ValidationError::InvalidIdentifier)
        }
    }

    /// The exact string the identifier was built from.
    pub fn as_str(&self) -> (r: &str)
        ensures
            r@ == self@,
    {
        self.id.as_str()
    }

    /// An owned copy with the same view.
    pub fn dup(&self) -> (r: ClientId)
        ensures
            r@ == self@,
            r.wf() == self.wf(),
    {
        ClientId { id: self.id.clone() }
    }
}

/// Identifier of a connection end.
#[derive(Debug)]
pub struct ConnectionId {
    id: String,
}

impl View for ConnectionId {
    type V = Seq<char>;

    closed spec fn view(&self) -> Seq<char> {
        self.id@
    }
}

impl ConnectionId {
    /// Well-formedness: the underlying string passed validation.
    pub open spec fn wf(&self) -> bool {
        is_valid_identifier(self@)
    }

    /// Builds a connection identifier, rejecting invalid strings.
    pub fn new(s: String) -> (r: Result<ConnectionId, ValidationError>)
        ensures
            r is Ok <==> is_valid_identifier(s@),
            r matches Ok(id) ==> id@ == s@ && id.wf(),
            r is Err ==> r == Result::<ConnectionId, ValidationError>::Err(
                ValidationError::InvalidIdentifier,
            ),
    {
        if validate_identifier(s.as_str()) {
            Ok(ConnectionId { id: s })
        } else {
            Err(ValidationError::InvalidIdentifier)
        }
    }

    /// The exact string the identifier was built from.
    pub fn as_str(&self) -> (r: &str)
        ensures
            r@ == self@,
    {
        self.id.as_str()
    }

    /// An owned copy with the same view.
    pub fn dup(&self) -> (r: ConnectionId)
        ensures
            r@ == self@,
            r.wf() == self.wf(),
    {
        ConnectionId { id: self.id.clone() }
    }
}

/// Identifier of a channel end.
#[derive(Debug)]
pub struct ChannelId {
    id: String,
}

impl View for ChannelId {
    type V = Seq<char>;

    closed spec fn view(&self) -> Seq<char> {
        self.id@
    }
}

impl ChannelId {
    /// Well-formedness: the underlying string passed validation.
    pub open spec fn wf(&self) -> bool {
        is_valid_identifier(self@)
    }

    /// Builds a channel identifier, rejecting invalid strings.
    pub fn new(s: String) -> (r: Result<ChannelId, ValidationError>)
        ensures
            r is Ok <==> is_valid_identifier(s@),
            r matches Ok(id) ==> id@ == s@ && id.wf(),
            r is Err ==> r == Result::<ChannelId, ValidationError>::Err(
                ValidationError::InvalidIdentifier,
            ),
    {
        if validate_identifier(s.as_str()) {
            Ok(ChannelId { id: s })
        } else {
            Err(ValidationError::InvalidIdentifier)
        }
    }

    /// The exact string the identifier was built from.
    pub fn as_str(&self) -> (r: &str)
        ensures
            r@ == self@,
    {
        self.id.as_str()
    }

    /// An owned copy with the same view.
    pub fn dup(&self) -> (r: ChannelId)
        ensures
            r@ == self@,
            r.wf() == self.wf(),
    {
        ChannelId { id: self.id.clone() }
    }

    /// Whether two channel identifiers hold the same string.
    pub fn eq_id(&self, other: &ChannelId) -> (r: bool)
        ensures
            r == (self@ == other@),
    {
        self.id == other.id
    }
}

/// Identifier of a port bound by an application module.
#[derive(Debug)]
pub struct PortId {
    id: String,
}

impl View for PortId {
    type V = Seq<char>;

    closed spec fn view(&self) -> Seq<char> {
        self.id@
    }
}

impl PortId {
    /// Well-formedness: the underlying string passed validation.
    pub open spec fn wf(&self) -> bool {
        is_valid_identifier(self@)
    }

    /// Builds a port identifier, rejecting invalid strings.
    pub fn new(s: String) -> (r: Result<PortId, ValidationError>)
        ensures
            r is Ok <==> is_valid_identifier(s@),
            r matches Ok(id) ==> id@ == s@ && id.wf(),
            r is Err ==> r == Result::<PortId, ValidationError>::Err(
                ValidationError::InvalidIdentifier,
            ),
    {
        if validate_identifier(s.as_str()) {
            Ok(PortId { id: s })
        } else {
            Err(ValidationError::InvalidIdentifier)
        }
    }

    /// The exact string the identifier was built from.
    pub fn as_str(&self) -> (r: &str)
        ensures
            r@ == self@,
    {
        self.id.as_str()
    }

    /// An owned copy with the same view.
    pub fn dup(&self) -> (r: PortId)
        ensures
            r@ == self@,
            r.wf() == self.wf(),
    {
        PortId { id: self.id.clone() }
    }

    /// Whether two port identifiers hold the same string.
    pub fn eq_id(&self, other: &PortId) -> (r: bool)
        ensures
            r == (self@ == other@),
    {
        self.id == other.id
    }
}

/// Opaque byte string naming the storage prefix a chain keeps its
/// commitments under. Immutable once constructed.
#[derive(Debug)]
pub struct CommitmentPrefix {
    bytes: Vec<u8>,
}

impl View for CommitmentPrefix {
    type V = Seq<u8>;

    closed spec fn view(&self) -> Seq<u8> {
        self.bytes@
    }
}

impl CommitmentPrefix {
    /// Wraps the given bytes unchanged.
    pub fn new(bytes: Vec<u8>) -> (r: CommitmentPrefix)
        ensures
            r@ == bytes@,
    {
        CommitmentPrefix { bytes }
    }

    /// The exact bytes the prefix was built from.
    pub fn as_bytes(&self) -> (r: &Vec<u8>)
        ensures
            r@ == self@,
    {
        &self.bytes
    }

    /// An owned copy with the same view.
    pub fn dup(&self) -> (r: CommitmentPrefix)
        ensures
            r@ == self@,
    {
        CommitmentPrefix { bytes: self.bytes.clone() }
    }
}

} // verus!
