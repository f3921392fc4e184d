//! What the device says of itself, its two installation sets, and the
//! answers of the user's callback scripts.

use crate::error::TransitionError;
use vstd::prelude::*;
use vstd::string::StrSliceExecFns;
use vstd::string::StringExecFns;

verus! {

/// Product and version identifiers of the running firmware.
#[derive(Debug, PartialEq, Eq)]
pub struct Metadata {
    pub product_uid: String,
    pub version: String,
    pub hardware: String,
}

impl Clone for Metadata {
    fn clone(&self) -> (r: Self)
        ensures
            r == *self,
    {
        Metadata {
            product_uid: self.product_uid.clone(),
            version: self.version.clone(),
            hardware: self.hardware.clone(),
        }
    }
}

/// One of the two slots that can hold an installation.
#[derive(Debug, Clone, Copy, PartialEq, Eq, Structural)]
pub enum InstallationSet {
    A,
    B,
}

impl InstallationSet {
    /// The number under which the bootloader knows the set.
    pub open spec fn index_spec(self) -> u8 {
        match self {
            InstallationSet::A => 0,
            InstallationSet::B => 1,
        }
    }

    #[verifier::when_used_as_spec(index_spec)]
    pub fn index(self) -> (r: u8)
        ensures
            r == self.index_spec(),
    {
        match self {
            InstallationSet::A => 0,
            InstallationSet::B => 1,
        }
    }

    /// The set with the given number, if there is one.
    pub fn from_index(index: u8) -> (r: Option<InstallationSet>)
        ensures
            index == 0 ==> r == Some(InstallationSet::A),
            index == 1 ==> r == Some(InstallationSet::B),
            index > 1 ==> r.is_none(),
    {
        if index == 0 {
            Some(InstallationSet::A)
        } else if index == 1 {
            Some(InstallationSet::B)
        } else {
            None
        }
    }

    /// The set that is not this one.
    pub open spec fn other_spec(self) -> InstallationSet {
        match self {
            InstallationSet::A => InstallationSet::B,
            InstallationSet::B => InstallationSet::A,
        }
    }

    #[verifier::when_used_as_spec(other_spec)]
    pub fn other(self) -> (r: InstallationSet)
        ensures
            r == self.other_spec(),
    {
        match self {
            InstallationSet::A => InstallationSet::B,
            InstallationSet::B => InstallationSet::A,
        }
    }
}

/// What a callback asks of the agent.
#[derive(Debug, Clone, Copy, PartialEq, Eq, Structural)]
pub enum Transition {
    Continue,
    Cancel,
}

/// How the run of a callback script ended.
#[derive(Debug, Clone, PartialEq, Eq)]
pub enum CallbackOutput {
    /// The firmware has no such script.
    Missing,
    /// The script could not be run or ended with a failure status; the
    /// process runner's words.
    Failed(String),
    /// The script ran; what it wrote to its standard output.
    Completed(String),
}

/// Unicode's white space.
pub open spec fn is_blank(c: char) -> bool {
    let n = c as u32;
    ||| (0x09 <= n <= 0x0d)
    ||| n == 0x20
    ||| n == 0x85
    ||| n == 0xa0
    ||| n == 0x1680
    ||| (0x2000 <= n <= 0x200a)
    ||| n == 0x2028
    ||| n == 0x2029
    ||| n == 0x202f
    ||| n == 0x205f
    ||| n == 0x3000
}

/// `s` without the white space that it begins with.
pub open spec fn trim_start(s: Seq<char>) -> Seq<char>
    decreases s.len(),
{
    if s.len() > 0 && is_blank(s[0]) {
        trim_start(s.subrange(1, s.len() as int))
    } else {
        s
    }
}

/// `s` without the white space that it ends with.
pub open spec fn trim_end(s: Seq<char>) -> Seq<char>
    decreases s.len(),
{
    if s.len() > 0 && is_blank(s[s.len() - 1]) {
        trim_end(s.subrange(0, s.len() - 1))
    } else {
        s
    }
}

/// `s` without the white space around it.
pub open spec fn trimmed(s: Seq<char>) -> Seq<char> {
    trim_end(trim_start(s))
}

/// What the output of a callback means: `cancel` cancels, nothing
/// continues, a missing script continues, and anything else is an error.
pub open spec fn callback_transition(output: CallbackOutput) -> Result<
    Transition,
    TransitionError,
> {
    match output {
        CallbackOutput::Missing => Ok(Transition::Continue),
        CallbackOutput::Failed(why) => Err(TransitionError::Process(why)),
        CallbackOutput::Completed(text) => if trimmed(text@) == "cancel"@ {
            Ok(Transition::Cancel)
        } else if trimmed(text@).len() == 0 {
            Ok(Transition::Continue)
        } else {
            Err(TransitionError::Firmware(text))
        },
    }
}

fn blank(c: char) -> (r: bool)
    ensures
        r == is_blank(c),
{
    let n: u32 = c as u32;
    (0x09 <= n && n <= 0x0d) || n == 0x20 || n == 0x85 || n == 0xa0 || n == 0x1680 || (0x2000 <= n
        && n <= 0x200a) || n == 0x2028 || n == 0x2029 || n == 0x202f || n == 0x205f || n == 0x3000
}

/// The text between the white space at both ends of `text`.
pub fn trim(text: &str) -> (r: &str)
    ensures
        r@ == trimmed(text@),
{
    let n: usize = text.unicode_len();
    let mut i: usize = 0;
    proof {
        assert(text@.subrange(0, n as int) == text@);
    }
    while i < n && blank(text.get_char(i))
        invariant
            i <= n,
            n == text@.len(),
            trim_start(text@) == trim_start(text@.subrange(i as int, n as int)),
        decreases n - i,
    {
        proof {
            let rest = text@.subrange(i as int, n as int);
            assert(rest.subrange(1, rest.len() as int) == text@.subrange(i + 1, n as int));
        }
        i = i + 1;
    }
    let mut j: usize = n;
    while j > i && blank(text.get_char(j - 1))
        invariant
            i <= j <= n,
            n == text@.len(),
            trimmed(text@) == trim_end(text@.subrange(i as int, j as int)),
        decreases j,
    {
        proof {
            let rest = text@.subrange(i as int, j as int);
            assert(rest.subrange(0, rest.len() - 1) == text@.subrange(i as int, j - 1));
        }
        j = j - 1;
    }
    text.substring_char(i, j)
}

/// Reads the answer of a callback script.
pub fn transition_of(output: CallbackOutput) -> (r: Result<Transition, TransitionError>)
    ensures
        r == callback_transition(output),
{
    match output {
        CallbackOutput::Missing => Ok(Transition::Continue),
        CallbackOutput::Failed(why) => Err(TransitionError::Process(why)),
        CallbackOutput::Completed(text) => {
            let word: String = String::from_str(trim(text.as_str()));
            if word == String::from_str("cancel") {
                Ok(Transition::Cancel)
            } else if word.as_str().unicode_len() == 0 {
                Ok(Transition::Continue)
            } else {
                Err(TransitionError::Firmware(text))
            }
        },
    }
}

} // verus!
