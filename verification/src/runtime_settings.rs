//! The settings that the agent changes while it runs and keeps across
//! restarts.

use crate::firmware::InstallationSet;
use vstd::prelude::*;

verus! {

#[derive(Debug, Clone, PartialEq, Eq)]
pub struct RuntimePolling {
    pub enabled: bool,
    /// When the server was last asked, in seconds since the epoch.
    pub last: i64,
    /// How often the last poll was tried again.
    pub retries: u64,
    /// The server to ask in place of the configured one.
    pub server_address: Option<String>,
}

#[derive(Debug, Clone, Copy, PartialEq, Eq, Structural)]
pub struct RuntimeUpdate {
    /// The set that the device is expected to run from after the reboot
    /// that ends an installation; empty when no installation awaits its
    /// validation.
    pub upgrade_to_installation: Option<InstallationSet>,
}

#[derive(Debug, PartialEq, Eq)]
pub struct RuntimeSettings {
    pub polling: RuntimePolling,
    pub update: RuntimeUpdate,
    /// Whether changes are to be written to storage.
    pub persistent: bool,
    /// Whether a change was made since the settings were last written.
    pub dirty: bool,
}

impl Clone for RuntimeSettings {
    fn clone(&self) -> (r: Self)
        ensures
            r == *self,
    {
        let server_address = match &self.polling.server_address {
            Some(s) => Some(s.clone()),
            None => None,
        };
        RuntimeSettings {
            polling: RuntimePolling {
                enabled: self.polling.enabled,
                last: self.polling.last,
                retries: self.polling.retries,
                server_address,
            },
            update: self.update,
            persistent: self.persistent,
            dirty: self.dirty,
        }
    }
}

impl RuntimeSettings {
    /// Whether the settings are to be written now: after every change, and
    /// only where they are persistent.
    pub open spec fn needs_save_spec(&self) -> bool {
        self.persistent && self.dirty
    }

    /// The settings of a device that has never polled: nothing stored, no
    /// override, no installation under way, not persistent.
    pub fn new(polling_enabled: bool) -> (r: Self)
        ensures
            r.polling.enabled == polling_enabled,
            r.polling.last == 0,
            r.polling.retries == 0,
            r.polling.server_address.is_none(),
            r.update.upgrade_to_installation.is_none(),
            !r.persistent,
            !r.dirty,
    {
        RuntimeSettings {
            polling: RuntimePolling {
                enabled: polling_enabled,
                last: 0,
                retries: 0,
                server_address: None,
            },
            update: RuntimeUpdate { upgrade_to_installation: None },
            persistent: false,
            dirty: false,
        }
    }

    /// From now on every change is to be written to storage.
    pub fn enable_persistency(&mut self)
        ensures
            final(self).persistent,
            final(self).dirty == old(self).dirty,
            final(self).polling == old(self).polling,
            final(self).update == old(self).update,
    {
        self.persistent = true;
    }

    pub fn is_persistent(&self) -> (r: bool)
        ensures
            r == self.persistent,
    {
        self.persistent
    }

    #[verifier::when_used_as_spec(needs_save_spec)]
    pub fn needs_save(&self) -> (r: bool)
        ensures
            r == self.needs_save_spec(),
    {
        self.persistent && self.dirty
    }

    /// Records that the settings as they stand were written.
    pub fn mark_saved(&mut self)
        ensures
            !final(self).dirty,
            final(self).persistent == old(self).persistent,
            final(self).polling == old(self).polling,
            final(self).update == old(self).update,
    {
        self.dirty = false;
    }

    pub fn is_polling_enabled(&self) -> (r: bool)
        ensures
            r == self.polling.enabled,
    {
        self.polling.enabled
    }

    pub fn last_polling(&self) -> (r: i64)
        ensures
            r == self.polling.last,
    {
        self.polling.last
    }

    pub fn retries(&self) -> (r: u64)
        ensures
            r == self.polling.retries,
    {
        self.polling.retries
    }

    pub fn upgrade_to_installation(&self) -> (r: Option<InstallationSet>)
        ensures
            r == self.update.upgrade_to_installation,
    {
        self.update.upgrade_to_installation
    }

    /// The server that takes the place of the configured one, if any.
    pub fn custom_server_address(&self) -> (r: Option<&str>)
        ensures
            r.is_some() == self.polling.server_address.is_some(),
            r.is_some() ==> r.unwrap()@ == self.polling.server_address.unwrap()@,
    {
        match &self.polling.server_address {
            Some(s) => Some(s.as_str()),
            None => None,
        }
    }

    /// The settings once `server_address` is the server to ask.
    pub open spec fn with_server_address(self, server_address: String) -> RuntimeSettings {
        RuntimeSettings {
            polling: RuntimePolling { server_address: Some(server_address), ..self.polling },
            dirty: true,
            ..self
        }
    }

    /// The settings once a poll at `now` is stored.
    pub open spec fn with_last_polling(self, now: i64) -> RuntimeSettings {
        RuntimeSettings {
            polling: RuntimePolling { last: now, ..self.polling },
            dirty: true,
            ..self
        }
    }

    /// The settings once an installation to `set` awaits its validation, or
    /// none does.
    pub open spec fn with_upgrade(self, set: Option<InstallationSet>) -> RuntimeSettings {
        RuntimeSettings {
            update: RuntimeUpdate { upgrade_to_installation: set },
            dirty: true,
            ..self
        }
    }

    /// Names the server to ask from now on.
    pub fn set_custom_server_address(&mut self, server_address: String)
        ensures
            *final(self) == old(self).with_server_address(server_address),
    {
        self.polling.server_address = Some(server_address);
        self.dirty = true;
    }

    /// Stores the time of the poll that has just been made.
    pub fn set_last_polling(&mut self, now: i64)
        ensures
            *final(self) == old(self).with_last_polling(now),
    {
        self.polling.last = now;
        self.dirty = true;
    }

    /// Notes the set that the installation which has just ended is to be
    /// booted from.
    pub fn set_upgrade_to_installation(&mut self, set: InstallationSet)
        ensures
            *final(self) == old(self).with_upgrade(Some(set)),
    {
        self.update.upgrade_to_installation = Some(set);
        self.dirty = true;
    }

    /// Forgets the installation under way.
    pub fn reset_installation_settings(&mut self)
        ensures
            *final(self) == old(self).with_upgrade(None),
    {
        self.update.upgrade_to_installation = None;
        self.dirty = true;
    }
}

/// Storing a poll never moves the time of the last poll back, as long as
/// the clock that gives the time of the poll does not run backwards.
pub proof fn lemma_last_polling_monotonic(settings: RuntimeSettings, now: i64)
    requires
        settings.polling.last <= now,
    ensures
        settings.polling.last <= settings.with_last_polling(now).polling.last,
        forall|address: String|
            (#[trigger] settings.with_server_address(address)).polling.last
                == settings.polling.last,
        forall|set: Option<InstallationSet>|
            (#[trigger] settings.with_upgrade(set)).polling.last == settings.polling.last,
{
}

} // verus!
