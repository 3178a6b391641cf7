use vstd::prelude::*;

verus! {

/// How long a connection attempt may take before it fails, in milliseconds.
pub const CONNECT_TIMEOUT_MS: u64 = 500;

/// An IP address held as plain numbers.
#[derive(Clone, Copy, Debug, PartialEq, Eq)]
pub enum IpAddress {
    V4([u8; 4]),
    V6([u16; 8]),
}

/// The address of a telemetry server: an IP address and a port.
#[derive(Clone, Copy, Debug, PartialEq, Eq)]
pub struct ServerAddr {
    pub ip: IpAddress,
    pub port: u16,
}

/// Why a connection attempt failed, as the client library described it.
#[derive(Clone, Debug, PartialEq, Eq)]
pub struct ConnectError {
    pub reason: String,
}

/// One value pushed by the server: the topic it belongs to and the value as text.
#[derive(Clone, Debug, PartialEq, Eq)]
pub struct TopicUpdate {
    pub topic_name: String,
    pub data: String,
}

/// A command sent to the connection supervisor.
#[derive(Clone, Debug, PartialEq, Eq)]
pub enum TokioMessage {
    Start(ServerAddr),
    Close,
    Reconnect,
    /// The task receiving subscription data ended; sent only by that task.
    SubscriptionTerminated,
}

/// An event sent from the connection supervisor to the render loop.
#[derive(Debug, PartialEq, Eq)]
pub enum EguiMessage {
    /// Result of a connection attempt made for `Start`, `Reconnect` or a
    /// terminated subscription.
    StartResult(Result<(), ConnectError>),
    /// Topic data sent by the server.
    Message(TopicUpdate),
    /// The client was disconnected.
    Disconnect,
    /// The client was reconnected.
    Reconnect,
}

} // verus!
