//! The foreign client: the light-client record a chain keeps of its
//! counterparty's consensus state, and the update decision.

use vstd::prelude::*;
use crate::errors::ClientError;

verus! {

/// The locally relevant summary of a light client: the highest
/// header height it trusts, and whether it is frozen (expired or
/// shown a conflicting header).
#[derive(Debug)]
pub struct ClientStateInfo {
    pub trusted_height: u64,
    pub frozen: bool,
}

/// Concludes a client-creation attempt: the submission's acceptance
/// is decided by the target chain; a rejection is reported as
/// `ClientCreationFailed`.
pub fn create_client(initial_height: u64, accepted: bool) -> (r: Result<
    ClientStateInfo,
    ClientError,
>)
    ensures
        accepted ==> (r matches Ok(c) && c.trusted_height == initial_height && !c.frozen),
        !accepted ==> r == Result::<ClientStateInfo, ClientError>::Err(
            ClientError::ClientCreationFailed,
        ),
{
    if accepted {
        Ok(ClientStateInfo { trusted_height: initial_height, frozen: false })
    } else {
        Err(ClientError::ClientCreationFailed)
    }
}

/// Applies one update attempt with a header at `header_height`,
/// `header_trusted` saying whether the header verified against the
/// client's trust threshold (the light-client check is the outside
/// capability).
///
/// Updating with a header at or below the trusted height is a no-op,
/// not an error; a frozen client rejects updates as `ClientExpired`;
/// an untrusted fresh header is rejected as `UntrustedHeader` and
/// not retried. Only a successful update moves the trusted height,
/// and only forward.
pub fn apply_client_update(client: &mut ClientStateInfo, header_height: u64, header_trusted:
    bool) -> (r: Result<bool, ClientError>)
    ensures
        old(client).frozen ==> r == Result::<bool, ClientError>::Err(ClientError::ClientExpired)
            && *final(client) == *old(client),
        !old(client).frozen && header_height <= old(client).trusted_height ==> r == Result::<
            bool,
            ClientError,
        >::Ok(false) && *final(client) == *old(client),
        !old(client).frozen && header_height > old(client).trusted_height && !header_trusted ==> r
            == Result::<bool, ClientError>::Err(ClientError::UntrustedHeader) && *final(client)
            == *old(client),
        !old(client).frozen && header_height > old(client).trusted_height && header_trusted ==> r
            == Result::<bool, ClientError>::Ok(true) && final(client).trusted_height
            == header_height && !final(client).frozen,
        final(client).trusted_height >= old(client).trusted_height,
{
    if client.frozen {
        return Err(ClientError::ClientExpired);
    }
    if header_height <= client.trusted_height {
        return Ok(false);
    }
    if !header_trusted {
        return Err(ClientError::UntrustedHeader);
    }
    client.trusted_height = header_height;
    Ok(true)
}

} // verus!
