//! The configuration that the agent is started with. It does not change
//! while the agent runs.

use vstd::prelude::*;

verus! {

#[derive(Debug, Clone, PartialEq, Eq)]
pub struct Network {
    /// The update server that is asked unless the runtime settings name
    /// another.
    pub server_address: String,
    /// Where the local control surface listens.
    pub listen_socket: String,
}

#[derive(Debug, Clone, Copy, PartialEq, Eq, Structural)]
pub struct Polling {
    pub enabled: bool,
    /// Seconds from one poll to the next.
    pub interval: u64,
    /// The most seconds by which a poll is put off at random.
    pub jitter: u64,
}

#[derive(Debug, Clone, PartialEq, Eq)]
pub struct Storage {
    /// The file that holds the runtime settings.
    pub runtime_settings: String,
    pub read_only: bool,
}

#[derive(Debug, Clone, PartialEq, Eq)]
pub struct Firmware {
    /// The directory that holds the firmware metadata and the callbacks.
    pub metadata: String,
}

#[derive(Debug, PartialEq, Eq)]
pub struct Settings {
    pub network: Network,
    pub polling: Polling,
    pub storage: Storage,
    pub firmware: Firmware,
}

impl Clone for Settings {
    fn clone(&self) -> (r: Self)
        ensures
            r == *self,
    {
        Settings {
            network: Network {
                server_address: self.network.server_address.clone(),
                listen_socket: self.network.listen_socket.clone(),
            },
            polling: self.polling,
            storage: Storage {
                runtime_settings: self.storage.runtime_settings.clone(),
                read_only: self.storage.read_only,
            },
            firmware: Firmware { metadata: self.firmware.metadata.clone() },
        }
    }
}

} // verus!
