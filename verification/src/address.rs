//! The commands that the outside sends to the agent, and the replies.

use crate::firmware::Metadata;
use crate::runtime_settings::RuntimeSettings;
use crate::settings::Settings;
use vstd::prelude::*;

verus! {

/// A command.
#[derive(Debug, Clone, PartialEq, Eq)]
pub enum Message {
    Info,
    /// Ask the server now, at the given address if there is one.
    Probe(Option<String>),
    AbortDownload,
    /// Install the package in the given local file.
    LocalInstall(String),
    /// Install the package behind the given URL.
    RemoteInstall(String),
}

/// A snapshot of the agent.
#[derive(Debug, Clone, PartialEq, Eq)]
pub struct InfoResponse {
    /// The name of the current state.
    pub state: &'static str,
    /// The version of the agent.
    pub version: &'static str,
    pub config: Settings,
    pub firmware: Metadata,
    pub runtime_settings: RuntimeSettings,
}

#[derive(Debug, Clone, PartialEq, Eq)]
pub enum ProbeResponse {
    /// The server has no update.
    Unavailable,
    /// The server has an update; its installation begins.
    Available,
    /// The server asks to be asked again after so many seconds.
    Delayed(u64),
    /// The agent is busy in the named state and did not ask.
    Busy(&'static str),
}

#[derive(Debug, Clone, Copy, PartialEq, Eq, Structural)]
pub enum AbortDownloadResponse {
    RequestAccepted,
    InvalidState,
}

/// The reply to a request for an installation, with the name of the state
/// in which the request found the agent.
#[derive(Debug, Clone, PartialEq, Eq)]
pub enum StateResponse {
    RequestAccepted(&'static str),
    InvalidState(&'static str),
}

/// The reply to a command.
#[derive(Debug, Clone, PartialEq, Eq)]
pub enum Response {
    Info(InfoResponse),
    Probe(ProbeResponse),
    AbortDownload(AbortDownloadResponse),
    LocalInstall(StateResponse),
    RemoteInstall(StateResponse),
}

} // verus!
