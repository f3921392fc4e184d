//! What is said to the update server and what it answers.

use crate::firmware::Metadata;
use crate::update_package::Signature;
use crate::update_package::UpdatePackage;
use vstd::prelude::*;

verus! {

/// The server's answer to the question whether an update is available.
#[derive(Debug, Clone, PartialEq, Eq)]
pub enum ProbeResponse {
    /// Ask again after so many seconds.
    ExtraPoll(u64),
    NoUpdate,
    Update(UpdatePackage, Signature),
}

/// The question whether an update is available.
#[derive(Debug, Clone, PartialEq, Eq)]
pub struct ProbeRequest {
    pub server_address: String,
    /// How often the poll was tried again before.
    pub retries: u64,
    pub firmware: Metadata,
}

/// A progress report.
#[derive(Debug, Clone, PartialEq, Eq)]
pub struct Report {
    pub server_address: String,
    pub firmware: Metadata,
    /// The package that the progress is about, where the state holds one.
    pub package_uid: Option<String>,
    /// The name under which the progress is reported.
    pub state: &'static str,
    /// In a report of a failure, the name under which the state that
    /// failed was entered.
    pub previous_state: Option<&'static str>,
    pub error_message: Option<String>,
    /// In a report of a failure, what the memory log holds.
    pub current_log: Option<String>,
}

} // verus!
