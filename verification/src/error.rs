//! The errors that stop a transition.

use crate::target_type::TargetError;
use vstd::prelude::*;
use vstd::string::StringExecFns;

verus! {

/// Why a package is not acceptable.
#[derive(Debug, PartialEq, Eq)]
pub enum PackageError {
    /// The package is not made for the hardware of this device.
    UnsupportedHardware,
    /// The manifest or its signature was refused; the words of whoever refused it.
    Invalid(String),
}

/// Why an object could not be installed.
#[derive(Debug, PartialEq, Eq)]
pub enum InstallationError {
    /// The place that the object goes to cannot be written to.
    Target(TargetError),
    /// The installer backend failed; its words.
    Backend(String),
}

/// Why a state could not be left in the ordinary way. The variants that stand
/// for a failure of a collaborator carry that collaborator's own words.
#[derive(Debug, PartialEq, Eq)]
pub enum TransitionError {
    /// A request to an external link failed, or an answer did not fit the
    /// state that it was given to.
    InvalidRequest,
    /// The objects of the package are not all in the object store.
    ObjectsNotReady,
    /// The update server could not be reached or refused.
    Client(String),
    /// The firmware metadata or one of its callbacks failed.
    Firmware(String),
    /// An object could not be installed.
    Installation(InstallationError),
    /// The runtime settings could not be read or stored.
    RuntimeSettings(String),
    /// The package manifest or its signature is not acceptable.
    UpdatePackage(PackageError),
    /// A local archive could not be unpacked.
    Uncompress(String),
    /// A document could not be encoded or decoded.
    Serialization(String),
    /// The file system refused.
    Io(String),
    /// The command channel is closed.
    Mailbox(String),
    /// A callback script could not be run.
    Process(String),
}

impl Clone for PackageError {
    fn clone(&self) -> (r: Self)
        ensures
            r == *self,
    {
        match self {
            PackageError::UnsupportedHardware => PackageError::UnsupportedHardware,
            PackageError::Invalid(s) => PackageError::Invalid(s.clone()),
        }
    }
}

impl Clone for InstallationError {
    fn clone(&self) -> (r: Self)
        ensures
            r == *self,
    {
        match self {
            InstallationError::Target(e) => InstallationError::Target(e.clone()),
            InstallationError::Backend(s) => InstallationError::Backend(s.clone()),
        }
    }
}

impl PackageError {
    pub open spec fn message_spec(&self) -> Seq<char> {
        match self {
            PackageError::UnsupportedHardware => "Incompatible hardware"@,
            PackageError::Invalid(s) => s@,
        }
    }

    pub fn message(&self) -> (r: String)
        ensures
            r@ == self.message_spec(),
    {
        match self {
            PackageError::UnsupportedHardware => String::from_str("Incompatible hardware"),
            PackageError::Invalid(s) => s.clone(),
        }
    }
}

impl InstallationError {
    pub open spec fn message_spec(&self) -> Seq<char> {
        match self {
            InstallationError::Target(e) => e.message_spec(),
            InstallationError::Backend(s) => s@,
        }
    }

    pub fn message(&self) -> (r: String)
        ensures
            r@ == self.message_spec(),
    {
        match self {
            InstallationError::Target(e) => e.message(),
            InstallationError::Backend(s) => s.clone(),
        }
    }
}

impl Clone for TransitionError {
    fn clone(&self) -> (r: Self)
        ensures
            r == *self,
    {
        match self {
            TransitionError::InvalidRequest => TransitionError::InvalidRequest,
            TransitionError::ObjectsNotReady => TransitionError::ObjectsNotReady,
            TransitionError::Client(s) => TransitionError::Client(s.clone()),
            TransitionError::Firmware(s) => TransitionError::Firmware(s.clone()),
            TransitionError::Installation(e) => TransitionError::Installation(e.clone()),
            TransitionError::RuntimeSettings(s) => TransitionError::RuntimeSettings(s.clone()),
            TransitionError::UpdatePackage(e) => TransitionError::UpdatePackage(e.clone()),
            TransitionError::Uncompress(s) => TransitionError::Uncompress(s.clone()),
            TransitionError::Serialization(s) => TransitionError::Serialization(s.clone()),
            TransitionError::Io(s) => TransitionError::Io(s.clone()),
            TransitionError::Mailbox(s) => TransitionError::Mailbox(s.clone()),
            TransitionError::Process(s) => TransitionError::Process(s.clone()),
        }
    }
}

impl TransitionError {
    /// The text that introduces the error in logs and reports.
    pub open spec fn prefix(&self) -> Seq<char> {
        match self {
            TransitionError::InvalidRequest => "Request to external link failed"@,
            TransitionError::ObjectsNotReady => "Not all objects are ready for use"@,
            TransitionError::Client(_) => "Client error: "@,
            TransitionError::Firmware(_) => "Firmware error: "@,
            TransitionError::Installation(_) => "Installation error: "@,
            TransitionError::RuntimeSettings(_) => "Runtime settings error: "@,
            TransitionError::UpdatePackage(_) => "Update package error: "@,
            TransitionError::Uncompress(_) => "Uncompress error: "@,
            TransitionError::Serialization(_) => "Serde error: "@,
            TransitionError::Io(_) => "Update package error: "@,
            TransitionError::Mailbox(_) => "Mailbox error: "@,
            TransitionError::Process(_) => "Process error: "@,
        }
    }

    /// The collaborator's own words, empty where the error has none.
    pub open spec fn detail(&self) -> Seq<char> {
        match self {
            TransitionError::InvalidRequest => Seq::empty(),
            TransitionError::ObjectsNotReady => Seq::empty(),
            TransitionError::Client(s) => s@,
            TransitionError::Firmware(s) => s@,
            TransitionError::Installation(e) => e.message_spec(),
            TransitionError::RuntimeSettings(s) => s@,
            TransitionError::UpdatePackage(e) => e.message_spec(),
            TransitionError::Uncompress(s) => s@,
            TransitionError::Serialization(s) => s@,
            TransitionError::Io(s) => s@,
            TransitionError::Mailbox(s) => s@,
            TransitionError::Process(s) => s@,
        }
    }

    /// The whole message: the prefix followed by the detail.
    pub open spec fn message_spec(&self) -> Seq<char> {
        self.prefix() + self.detail()
    }

    /// The message as it goes into logs and error reports.
    pub fn message(&self) -> (r: String)
        ensures
            r@ == self.message_spec(),
    {
        match self {
            TransitionError::InvalidRequest => String::from_str("Request to external link failed"),
            TransitionError::ObjectsNotReady => String::from_str(
                "Not all objects are ready for use",
            ),
            TransitionError::Client(s) => String::from_str("Client error: ").concat(s.as_str()),
            TransitionError::Firmware(s) => String::from_str("Firmware error: ").concat(
                s.as_str(),
            ),
            TransitionError::Installation(e) => String::from_str("Installation error: ").concat(
                e.message().as_str(),
            ),
            TransitionError::RuntimeSettings(s) => String::from_str(
                "Runtime settings error: ",
            ).concat(s.as_str()),
            TransitionError::UpdatePackage(e) => String::from_str("Update package error: ").concat(
                e.message().as_str(),
            ),
            TransitionError::Uncompress(s) => String::from_str("Uncompress error: ").concat(
                s.as_str(),
            ),
            TransitionError::Serialization(s) => String::from_str("Serde error: ").concat(
                s.as_str(),
            ),
            TransitionError::Io(s) => String::from_str("Update package error: ").concat(
                s.as_str(),
            ),
            TransitionError::Mailbox(s) => String::from_str("Mailbox error: ").concat(s.as_str()),
            TransitionError::Process(s) => String::from_str("Process error: ").concat(s.as_str()),
        }
    }

    /// Whether the scheduler has to stop: only a closed command channel is
    /// fatal, every other error is recovered from through the `Error` state.
    pub fn is_fatal(&self) -> (r: bool)
        ensures
            r == (*self is Mailbox),
    {
        match self {
            TransitionError::Mailbox(_) => true,
            _ => false,
        }
    }
}

} // verus!
