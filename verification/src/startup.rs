//! What is decided before the scheduler starts: whether changes are kept
//! across restarts, and what becomes of an installation that awaits its
//! validation.

use crate::error::TransitionError;
use crate::firmware::callback_transition;
use crate::firmware::transition_of;
use crate::firmware::CallbackOutput;
use crate::firmware::InstallationSet;
use crate::firmware::Metadata;
use crate::firmware::Transition;
use crate::machine::Facts;
use crate::machine::Model;
use crate::machine::StateMachine;
use crate::runtime_settings::RuntimeSettings;
use crate::settings::Settings;
use crate::states::State;
use vstd::prelude::*;

verus! {

/// What the outside does about an installation that awaits its validation.
#[derive(Debug, Clone, Copy, PartialEq, Eq, Structural)]
pub enum StartupAction {
    /// Nothing: no installation awaits its validation.
    Proceed,
    /// The device runs from the set that was installed to: run the
    /// validate script and hand its answer to `after_validation`.
    Validate,
    /// The device runs from the other set: run the rollback script and
    /// hand its answer to `after_rollback`.
    Rollback,
}

/// What the outside does once the validate script has answered.
#[derive(Debug, Clone, Copy, PartialEq, Eq, Structural)]
pub enum ValidationAction {
    /// The script refuses the installation: make the other set the active
    /// one and reboot.
    SwapAndReboot,
    /// The script accepts the installation: mark it as validated.
    MarkValidated,
}

/// What is done at startup about the installation that the runtime
/// settings expect, on a device that runs from `active`.
pub open spec fn startup_action(settings: RuntimeSettings, active: InstallationSet)
    -> StartupAction {
    match settings.update.upgrade_to_installation {
        None => StartupAction::Proceed,
        Some(expected) => if expected == active {
            StartupAction::Validate
        } else {
            StartupAction::Rollback
        },
    }
}

/// Changes to the runtime settings are kept across restarts unless the
/// storage may only be read.
pub fn mark_persistency(settings: &Settings, runtime_settings: &mut RuntimeSettings)
    ensures
        final(runtime_settings).persistent == (old(runtime_settings).persistent
            || !settings.storage.read_only),
        final(runtime_settings).dirty == old(runtime_settings).dirty,
        final(runtime_settings).polling == old(runtime_settings).polling,
        final(runtime_settings).update == old(runtime_settings).update,
{
    if !settings.storage.read_only {
        runtime_settings.enable_persistency();
    }
}

/// Decides what is done about an installation that awaits its validation,
/// given the set that the device runs from, or why that set could not be
/// read. Where no installation awaits, the set is not looked at.
pub fn handle_startup_callbacks(
    runtime_settings: &RuntimeSettings,
    active: Result<InstallationSet, TransitionError>,
) -> (r: Result<StartupAction, TransitionError>)
    ensures
        r == match (runtime_settings.update.upgrade_to_installation, active) {
            (None, _) => Ok::<StartupAction, TransitionError>(StartupAction::Proceed),
            (Some(_), Err(e)) => Err::<StartupAction, TransitionError>(e),
            (Some(_), Ok(set)) => Ok::<StartupAction, TransitionError>(
                startup_action(*runtime_settings, set),
            ),
        },
{
    match runtime_settings.upgrade_to_installation() {
        None => Ok(StartupAction::Proceed),
        Some(expected) => match active {
            Err(e) => Err(e),
            Ok(set) => if expected.index() == set.index() {
                Ok(StartupAction::Validate)
            } else {
                Ok(StartupAction::Rollback)
            },
        },
    }
}

/// Takes the answer of the validate script. An installation that the
/// script accepts no longer awaits its validation; one that it refuses, or
/// a script that fails, leaves the runtime settings as they are.
pub fn after_validation(runtime_settings: &mut RuntimeSettings, output: CallbackOutput) -> (r:
    Result<ValidationAction, TransitionError>)
    ensures
        match callback_transition(output) {
            Ok(Transition::Continue) => r == Ok::<ValidationAction, TransitionError>(
                ValidationAction::MarkValidated,
            ) && *final(runtime_settings) == old(runtime_settings).with_upgrade(None),
            Ok(Transition::Cancel) => r == Ok::<ValidationAction, TransitionError>(
                ValidationAction::SwapAndReboot,
            ) && *final(runtime_settings) == *old(runtime_settings),
            Err(e) => r == Err::<ValidationAction, TransitionError>(e) && *final(runtime_settings)
                == *old(runtime_settings),
        },
{
    match transition_of(output) {
        Ok(Transition::Continue) => {
            runtime_settings.reset_installation_settings();
            Ok(ValidationAction::MarkValidated)
        },
        Ok(Transition::Cancel) => Ok(ValidationAction::SwapAndReboot),
        Err(e) => Err(e),
    }
}

/// Takes the outcome of the rollback script. Unless the script could not
/// be run, the installation that was expected is forgotten, whatever the
/// script wrote.
pub fn after_rollback(runtime_settings: &mut RuntimeSettings, output: CallbackOutput) -> (r:
    Result<(), TransitionError>)
    ensures
        match output {
            CallbackOutput::Failed(why) => r == Err::<(), TransitionError>(
                TransitionError::Process(why),
            ) && *final(runtime_settings) == *old(runtime_settings),
            _ => r == Ok::<(), TransitionError>(()) && *final(runtime_settings) == old(runtime_settings).with_upgrade(None),
        },
{
    match output {
        CallbackOutput::Failed(why) => Err(TransitionError::Process(why)),
        _ => {
            runtime_settings.reset_installation_settings();
            Ok(())
        },
    }
}

/// The machine as the scheduler starts it: at the entry point, with
/// nothing waiting.
pub fn start(settings: Settings, runtime_settings: RuntimeSettings, firmware: Metadata) -> (r:
    StateMachine)
    ensures
        r.wf(),
        r@ == (Model {
            state: State::EntryPoint,
            facts: Facts { settings, runtime_settings, firmware },
            commands: Seq::empty(),
            waker: Seq::empty(),
            logging: false,
            log: Seq::empty(),
        }),
{
    StateMachine::new(State::EntryPoint, settings, runtime_settings, firmware)
}

/// A device that boots from another set than the one that was installed
/// to rolls back and forgets the installation; one that boots from the
/// expected set validates.
pub proof fn lemma_wrong_set_rolls_back(settings: RuntimeSettings, active: InstallationSet)
    requires
        settings.update.upgrade_to_installation.is_some(),
    ensures
        settings.update.upgrade_to_installation != Some(active) <==> startup_action(
            settings,
            active,
        ) == StartupAction::Rollback,
        settings.update.upgrade_to_installation == Some(active) <==> startup_action(
            settings,
            active,
        ) == StartupAction::Validate,
        settings.with_upgrade(None).update.upgrade_to_installation.is_none(),
{
}

} // verus!
