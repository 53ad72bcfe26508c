use vstd::prelude::*;

verus! {

/// Message type of a synchronisation status update.
pub const SYNC_STATUS: u8 = 0;
/// Message type of a node status update.
pub const STATUS: u8 = 1;
/// Message type of the transactions per second.
pub const TPS_METRICS: u8 = 2;
/// Message type of the tip selection metrics.
pub const TIP_SEL_METRIC: u8 = 3;
/// Message type of a zero-value transaction.
pub const TX_ZERO_VALUE: u8 = 4;
/// Message type of a value transaction; shares its number with `TX_ZERO_VALUE`.
pub const TX_VALUE: u8 = 4;
/// Message type of a milestone.
pub const MS: u8 = 5;
/// Message type of the peer metrics.
pub const PEER_METRIC: u8 = 6;
/// Message type of the confirmed milestone metrics.
pub const CONFIRMED_MS_METRICS: u8 = 7;
/// Message type of a tangle vertex.
pub const VERTEX: u8 = 8;
/// Message type of a solidification.
pub const SOLID_INFO: u8 = 9;
/// Message type of a confirmation.
pub const CONFIRMED_INFO: u8 = 10;
/// Message type of a milestone's information.
pub const MILESTONE_INFO: u8 = 11;
/// Message type of a tip.
pub const TIP_INFO: u8 = 12;
/// Message type of the database size metric.
pub const DB_SIZE_METRIC: u8 = 13;
/// Message type of a database cleanup.
pub const DB_CLEANUP: u8 = 14;
/// Message type of the spam metrics.
pub const SPAM_METRICS: u8 = 15;
/// Message type of the average spam metrics.
pub const AVG_SPAM_METRICS: u8 = 16;

/// The kinds of message that a dashboard websocket client sends.
#[derive(Clone, Copy, Debug, PartialEq, Eq, Structural)]
pub enum ClientMessage {
    Ping,
    Pong,
    Text,
    Binary,
    Close,
    /// Any other frame, or a protocol error.
    Other,
}

/// What the dashboard websocket does with a client message.
#[derive(Clone, Copy, Debug, PartialEq, Eq, Structural)]
pub enum Reaction {
    /// Notes that the client is alive and answers the ping with a pong of the same payload.
    HeartbeatAndPong,
    /// Notes that the client is alive.
    Heartbeat,
    /// Sends the text back.
    EchoText,
    /// Sends the bytes back.
    EchoBinary,
    /// Closes the connection with the client's reason, then stops.
    CloseAndStop,
    /// Stops.
    Stop,
}

/// The reaction of the dashboard websocket to each kind of client message.
pub fn reaction(message: ClientMessage) -> (r: Reaction)
    ensures
        r == match message {
            ClientMessage::Ping => Reaction::HeartbeatAndPong,
            ClientMessage::Pong => Reaction::Heartbeat,
            ClientMessage::Text => Reaction::EchoText,
            ClientMessage::Binary => Reaction::EchoBinary,
            ClientMessage::Close => Reaction::CloseAndStop,
            ClientMessage::Other => Reaction::Stop,
        },
{
    match message {
        ClientMessage::Ping => Reaction::HeartbeatAndPong,
        ClientMessage::Pong => Reaction::Heartbeat,
        ClientMessage::Text => Reaction::EchoText,
        ClientMessage::Binary => Reaction::EchoBinary,
        ClientMessage::Close => Reaction::CloseAndStop,
        ClientMessage::Other => Reaction::Stop,
    }
}

/// How often the dashboard pings each client, in milliseconds.
pub const HEARTBEAT_INTERVAL_MILLIS: u64 = 1000;

/// How long a client may stay silent before it is dropped, in milliseconds.
pub const CLIENT_TIMEOUT_MILLIS: u64 = 10000;

/// What the dashboard does with a client at each heartbeat.
#[derive(Clone, Copy, Debug, PartialEq, Eq, Structural)]
pub enum HeartbeatAction {
    /// Pings the client.
    Ping,
    /// Drops the client: it has been silent too long.
    Stop,
}

/// At each heartbeat, a client silent for longer than the timeout is dropped; any other is pinged.
pub fn heartbeat(millis_since_last_heartbeat: u64) -> (r: HeartbeatAction)
    ensures
        r == if millis_since_last_heartbeat > CLIENT_TIMEOUT_MILLIS {
            HeartbeatAction::Stop
        } else {
            HeartbeatAction::Ping
        },
{
    if millis_since_last_heartbeat > CLIENT_TIMEOUT_MILLIS {
        HeartbeatAction::Stop
    } else {
        HeartbeatAction::Ping
    }
}

} // verus!
