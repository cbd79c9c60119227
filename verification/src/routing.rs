//! The routing envelope: the closed set of message kinds the local
//! routing module can dispatch, and the dispatch decision itself.

use vstd::prelude::*;
use crate::errors::RoutingError;
use crate::identifier::{ChannelId, ClientId, ConnectionId, PortId};

verus! {

/// Messages of the client lifecycle.
pub enum ClientMsg {
    Create { client_id: ClientId },
    Update { client_id: ClientId, header_height: u64 },
}

/// Messages of the connection-open handshake.
pub enum ConnectionMsg {
    OpenInit { connection_id: ConnectionId },
    OpenTry { connection_id: ConnectionId },
    OpenAck { connection_id: ConnectionId },
    OpenConfirm { connection_id: ConnectionId },
}

/// Messages of the channel-open handshake.
pub enum ChannelMsg {
    OpenInit { port_id: PortId, channel_id: ChannelId },
    OpenTry { port_id: PortId, channel_id: ChannelId },
    OpenAck { port_id: PortId, channel_id: ChannelId },
    OpenConfirm { port_id: PortId, channel_id: ChannelId },
}

/// An application token transfer to be carried in a packet.
pub struct MsgTransfer {
    pub source_port: PortId,
    pub source_channel: ChannelId,
    pub denom: String,
    pub amount: u64,
    pub receiver: String,
    pub timeout_height: u64,
}

/// Enumeration of all messages the local routing module is capable
/// of dispatching. A dispatch key only: it carries no state and is
/// built fresh per outgoing message.
pub enum Ics26Envelope {
    Ics2Msg(ClientMsg),
    Ics3Msg(ConnectionMsg),
    Ics4Msg(ChannelMsg),
    Ics20Msg(MsgTransfer),
}

/// The module a message category is dispatched to.
#[derive(Clone, Copy, Debug, PartialEq, Eq, Structural)]
pub enum ModuleId {
    Client,
    Connection,
    Channel,
    Transfer,
}

/// Which handler modules are registered.
pub struct RouterConfig {
    pub client_enabled: bool,
    pub connection_enabled: bool,
    pub channel_enabled: bool,
    pub transfer_enabled: bool,
}

/// The module an envelope addresses.
pub open spec fn spec_module_of(e: &Ics26Envelope) -> ModuleId {
    match e {
        Ics26Envelope::Ics2Msg(_) => ModuleId::Client,
        Ics26Envelope::Ics3Msg(_) => ModuleId::Connection,
        Ics26Envelope::Ics4Msg(_) => ModuleId::Channel,
        Ics26Envelope::Ics20Msg(_) => ModuleId::Transfer,
    }
}

/// Whether a module's handler is registered.
pub open spec fn spec_enabled(cfg: &RouterConfig, m: ModuleId) -> bool {
    match m {
        ModuleId::Client => cfg.client_enabled,
        ModuleId::Connection => cfg.connection_enabled,
        ModuleId::Channel => cfg.channel_enabled,
        ModuleId::Transfer => cfg.transfer_enabled,
    }
}

/// Validates an envelope before dispatch: it goes to its module's
/// handler exactly when one is registered, and is rejected as
/// `UnroutableMessage` — never silently dropped — otherwise.
pub fn route(env: &Ics26Envelope, cfg: &RouterConfig) -> (r: Result<ModuleId, RoutingError>)
    ensures
        spec_enabled(cfg, spec_module_of(env)) ==> r == Result::<ModuleId, RoutingError>::Ok(
            spec_module_of(env),
        ),
        !spec_enabled(cfg, spec_module_of(env)) ==> r == Result::<ModuleId, RoutingError>::Err(
            RoutingError::UnroutableMessage,
        ),
{
    let module = match env {
        Ics26Envelope::Ics2Msg(_) => ModuleId::Client,
        Ics26Envelope::Ics3Msg(_) => ModuleId::Connection,
        Ics26Envelope::Ics4Msg(_) => ModuleId::Channel,
        Ics26Envelope::Ics20Msg(_) => ModuleId::Transfer,
    };
    let enabled = match module {
        ModuleId::Client => cfg.client_enabled,
        ModuleId::Connection => cfg.connection_enabled,
        ModuleId::Channel => cfg.channel_enabled,
        ModuleId::Transfer => cfg.transfer_enabled,
    };
    if enabled {
        Ok(module)
    } else {
        Err(RoutingError::UnroutableMessage)
    }
}

} // verus!
