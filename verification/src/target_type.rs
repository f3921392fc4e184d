//! Where an object of an update package is installed to.

use crate::text::same;
use vstd::prelude::*;
use vstd::string::StringExecFns;

verus! {

/// The kind of the place that an object is written to, with its name.
#[derive(Debug, Clone, PartialEq, Eq)]
pub enum TargetType {
    /// A block device, by its path.
    Device(String),
    /// A UBI volume, by its name.
    UBIVolume(String),
    /// An MTD partition, by its name.
    MTDName(String),
}

/// What the file system says of a device path.
#[derive(Debug, PartialEq, Eq)]
pub struct DeviceProbe {
    pub exists: bool,
    /// Whether the device may only be read, or why that could not be
    /// found out.
    pub read_only: Result<bool, String>,
}

/// Why a target cannot be written to.
#[derive(Debug, PartialEq, Eq)]
pub enum TargetError {
    /// There is no such device.
    Missing,
    /// The attributes of the device could not be read; the file system's
    /// words.
    Unreadable(String),
    /// The device may only be read.
    ReadOnly,
}

impl Clone for TargetError {
    fn clone(&self) -> (r: Self)
        ensures
            r == *self,
    {
        match self {
            TargetError::Missing => TargetError::Missing,
            TargetError::Unreadable(why) => TargetError::Unreadable(why.clone()),
            TargetError::ReadOnly => TargetError::ReadOnly,
        }
    }
}

impl TargetError {
    pub open spec fn message_spec(&self) -> Seq<char> {
        match self {
            TargetError::Missing => "Target device does not exists"@,
            TargetError::Unreadable(why) => why@,
            TargetError::ReadOnly => "User doesn't have write permission on target device"@,
        }
    }

    pub fn message(&self) -> (r: String)
        ensures
            r@ == self.message_spec(),
    {
        match self {
            TargetError::Missing => String::from_str("Target device does not exists"),
            TargetError::Unreadable(why) => why.clone(),
            TargetError::ReadOnly => String::from_str(
                "User doesn't have write permission on target device",
            ),
        }
    }
}

impl TargetType {
    /// What stands in the way of writing to the target: a device has to
    /// exist and to be writable, a volume or a partition is taken as it is.
    pub open spec fn obstacle(&self, probe: DeviceProbe) -> Option<TargetError> {
        match self {
            TargetType::Device(_) => if !probe.exists {
                Some(TargetError::Missing)
            } else {
                match probe.read_only {
                    Err(why) => Some(TargetError::Unreadable(why)),
                    Ok(true) => Some(TargetError::ReadOnly),
                    Ok(false) => None,
                }
            },
            TargetType::UBIVolume(_) => None,
            TargetType::MTDName(_) => None,
        }
    }

    /// Checks that the target can be written to, given what the file
    /// system says of the path of a device.
    pub fn valid(&self, probe: &DeviceProbe) -> (r: Result<&Self, TargetError>)
        ensures
            match self.obstacle(*probe) {
                None => r == Ok::<&Self, TargetError>(self),
                Some(e) => r == Err::<&Self, TargetError>(e),
            },
    {
        match self {
            TargetType::Device(_) => {
                if !probe.exists {
                    return Err(TargetError::Missing);
                }
                match &probe.read_only {
                    Err(why) => Err(TargetError::Unreadable(why.clone())),
                    Ok(true) => Err(TargetError::ReadOnly),
                    Ok(false) => Ok(self),
                }
            },
            TargetType::UBIVolume(_) => Ok(self),
            TargetType::MTDName(_) => Ok(self),
        }
    }

    /// The target that a manifest names by its kind in lower case
    /// (`device`, `ubivolume`, `mtdname`) and its content.
    pub open spec fn tagged(kind: Seq<char>, target: String) -> Option<TargetType> {
        if kind == "device"@ {
            Some(TargetType::Device(target))
        } else if kind == "ubivolume"@ {
            Some(TargetType::UBIVolume(target))
        } else if kind == "mtdname"@ {
            Some(TargetType::MTDName(target))
        } else {
            None
        }
    }

    /// Reads a target as a manifest writes it: under `target-type` its
    /// kind, under `target` its content.
    pub fn from_tagged(kind: &str, target: String) -> (r: Option<TargetType>)
        ensures
            r == Self::tagged(kind@, target),
    {
        if same(kind, "device") {
            Some(TargetType::Device(target))
        } else if same(kind, "ubivolume") {
            Some(TargetType::UBIVolume(target))
        } else if same(kind, "mtdname") {
            Some(TargetType::MTDName(target))
        } else {
            None
        }
    }
}

} // verus!
