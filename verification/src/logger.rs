//! The log that is kept in memory while an installation is under way. It
//! goes into the report of a failure.

use vstd::prelude::*;
use vstd::string::StringExecFns;

verus! {

#[derive(Debug, Clone, PartialEq, Eq)]
pub struct MemoryLog {
    /// Whether lines are kept.
    pub enabled: bool,
    /// The lines kept so far, each followed by a line feed.
    pub buffer: String,
}

/// What a log that holds `buffer` holds once `line` was handed to it.
pub open spec fn recorded(enabled: bool, buffer: Seq<char>, line: Seq<char>) -> Seq<char> {
    if enabled {
        buffer + line + seq!['\n']
    } else {
        buffer
    }
}

impl MemoryLog {
    /// An empty log that keeps nothing yet.
    pub fn new() -> (r: Self)
        ensures
            !r.enabled,
            r.buffer@ == Seq::<char>::empty(),
    {
        MemoryLog { enabled: false, buffer: String::new() }
    }

    /// From now on lines are kept.
    pub fn start_memory_logging(&mut self)
        ensures
            final(self).enabled,
            final(self).buffer == old(self).buffer,
    {
        self.enabled = true;
    }

    /// Hands a line to the log. It is kept only while logging is on.
    pub fn record(&mut self, line: &str)
        ensures
            final(self).enabled == old(self).enabled,
            final(self).buffer@ == recorded(old(self).enabled, old(self).buffer@, line@),
    {
        if self.enabled {
            proof {
                reveal_strlit("\n");
                assert("\n"@ == seq!['\n']);
            }
            self.buffer.append(line);
            self.buffer.append("\n");
        }
    }

    /// What the log holds.
    pub fn get_memory_log(&self) -> (r: String)
        ensures
            r == self.buffer,
    {
        self.buffer.clone()
    }
}

} // verus!
