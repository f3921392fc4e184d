//! The states of the update lifecycle and how each is left.

use crate::clock::Clock;
use crate::cloud::ProbeRequest;
use crate::cloud::ProbeResponse;
use crate::error::InstallationError;
use crate::error::PackageError;
use crate::error::TransitionError;
use crate::firmware::InstallationSet;
use crate::machine::Context;
use crate::machine::Facts;
use crate::runtime_settings::RuntimeSettings;
use crate::target_type::DeviceProbe;
use crate::target_type::TargetError;
use crate::text::texts;
use crate::update_package::Object;
use crate::update_package::Signature;
use crate::update_package::UpdatePackage;
use vstd::prelude::*;

verus! {

/// What the scheduler does once a state is left.
#[derive(Debug, Clone, Copy, PartialEq, Eq, Structural)]
pub enum StepTransition {
    /// Go on after so many seconds, or as soon as something wakes the
    /// scheduler.
    Delayed(u64),
    /// Go on at once.
    Immediate,
    /// Rest until something wakes the scheduler.
    Never,
}

/// A state of the update lifecycle, with the data that it works on.
#[derive(Debug, Clone, PartialEq, Eq)]
pub enum State {
    Park,
    EntryPoint,
    Poll,
    Probe,
    PrepareDownload { package: UpdatePackage, sign: Signature },
    DirectDownload { url: String },
    PrepareLocalInstall { update_file: String },
    Download { package: UpdatePackage, sign: Signature },
    Install { package: UpdatePackage, installation_set: InstallationSet },
    Reboot,
    Error(TransitionError),
}

/// The outside work that a state needs done before it can be left.
#[derive(Debug, Clone, PartialEq, Eq)]
pub enum Request {
    /// None: the state is left by itself.
    Nothing,
    /// Ask the server whether an update is available.
    Probe(ProbeRequest),
    /// Check the signature of the package of the state against the key of
    /// the firmware, and look at the device of each of its objects.
    Verify,
    /// Fetch what is behind the URL into a local file.
    Fetch { url: String },
    /// Unpack the file if it is an archive, parse the manifest in it, check
    /// its signature, and read the active installation set.
    Unpack { update_file: String },
    /// Fetch from the server each object of the package that the object
    /// store lacks, then read the active installation set.
    Download { server_address: String },
    /// List the object store, and where it holds every object of the
    /// package install each of them to the set.
    Install { installation_set: InstallationSet },
    /// Reboot the device.
    Reboot,
}

/// What the outside found when a package from the server was checked.
#[derive(Debug, PartialEq, Eq)]
pub struct Verified {
    /// What the file system says of the device of each object, in the
    /// order of the package.
    pub devices: Vec<DeviceProbe>,
}

/// What the outside found in a local package file.
#[derive(Debug, Clone, PartialEq, Eq)]
pub struct Unpacked {
    pub package: UpdatePackage,
    pub active_set: InstallationSet,
}

/// The result of the outside work that a state asked for.
#[derive(Debug, PartialEq, Eq)]
pub enum Answer {
    Nothing,
    Probed(Result<ProbeResponse, TransitionError>),
    Verified(Result<Verified, TransitionError>),
    /// The local file that holds what was fetched.
    Fetched(Result<String, TransitionError>),
    Unpacked(Result<Unpacked, TransitionError>),
    /// The active installation set, read after every object was fetched.
    Downloaded(Result<InstallationSet, TransitionError>),
    /// The hashes that the object store holds, and how the installers
    /// ended where they were run.
    Installed { present: Vec<String>, outcome: Result<(), TransitionError> },
    Rebooted(Result<(), TransitionError>),
}

/// The state that follows, what the scheduler does before it is handled,
/// and the runtime settings as the step leaves them.
pub struct Step {
    pub state: State,
    pub transition: StepTransition,
    pub runtime_settings: RuntimeSettings,
}

/// The seconds by which a poll is put off: the draw, brought into the
/// range from nothing to `bound`.
pub open spec fn jitter_offset(bound: u64, draw: u32) -> int {
    draw as int % (bound as int + 1)
}

/// The seconds to wait at `now` for a poll that is due one interval after
/// the last. A poll that is due is not waited for, whatever the offset;
/// one that is not yet due is waited for, for what is left of the interval
/// and the offset on top, and no more than the counter of seconds holds.
pub open spec fn poll_delay(last: i64, interval: u64, offset: int, now: i64) -> int {
    let left = last + interval - now;
    if left <= 0 {
        0
    } else if left + offset > u64::MAX {
        u64::MAX as int
    } else {
        left + offset
    }
}

/// What the scheduler does before the probe that follows a poll.
pub open spec fn poll_transition(facts: Facts, clock: Clock) -> StepTransition {
    let wait = poll_delay(
        facts.runtime_settings.polling.last,
        facts.settings.polling.interval,
        jitter_offset(facts.settings.polling.jitter, clock.nanos),
        clock.now,
    );
    if wait == 0 {
        StepTransition::Immediate
    } else {
        StepTransition::Delayed(wait as u64)
    }
}

/// The first thing that stands in the way of writing an object to its
/// target, from the object at `from` on.
pub open spec fn first_obstacle(objects: Seq<Object>, devices: Seq<DeviceProbe>, from: int)
    -> Option<TargetError>
    decreases objects.len() - from,
{
    if from < 0 || from >= objects.len() || from >= devices.len() {
        None
    } else {
        match objects[from].target.obstacle(devices[from]) {
            Some(e) => Some(e),
            None => first_obstacle(objects, devices, from + 1),
        }
    }
}

/// Whether a package from the server may be downloaded, or why not: it
/// has to be made for the hardware, the outside has to have looked at the
/// device of each object, and each target has to be writable.
pub open spec fn acceptance(package: UpdatePackage, facts: Facts, found: Verified) -> Result<
    (),
    TransitionError,
> {
    if !package.supports(facts.firmware.hardware@) {
        Err(TransitionError::UpdatePackage(PackageError::UnsupportedHardware))
    } else if found.devices@.len() != package.objects@.len() {
        Err(TransitionError::InvalidRequest)
    } else {
        match first_obstacle(package.objects@, found.devices@, 0) {
            Some(e) => Err(TransitionError::Installation(InstallationError::Target(e))),
            None => Ok(()),
        }
    }
}

impl State {
    /// The name under which the state is known to the outside.
    pub open spec fn name_spec(&self) -> &'static str {
        match self {
            State::Park => "park",
            State::EntryPoint => "entry_point",
            State::Poll => "poll",
            State::Probe => "probe",
            State::PrepareDownload { .. } => "prepare_download",
            State::DirectDownload { .. } => "direct_download",
            State::PrepareLocalInstall { .. } => "prepare_local_install",
            State::Download { .. } => "download",
            State::Install { .. } => "install",
            State::Reboot => "reboot",
            State::Error(_) => "error",
        }
    }

    #[verifier::when_used_as_spec(name_spec)]
    pub fn name(&self) -> (r: &'static str)
        ensures
            r == self.name_spec(),
    {
        match self {
            State::Park => "park",
            State::EntryPoint => "entry_point",
            State::Poll => "poll",
            State::Probe => "probe",
            State::PrepareDownload { .. } => "prepare_download",
            State::DirectDownload { .. } => "direct_download",
            State::PrepareLocalInstall { .. } => "prepare_local_install",
            State::Download { .. } => "download",
            State::Install { .. } => "install",
            State::Reboot => "reboot",
            State::Error(_) => "error",
        }
    }

    /// Whether a request for an installation, or for a probe, may take the
    /// place of the state: true of the states in which the agent is idle.
    /// `Poll` hands over to `Probe` before the scheduler waits for the poll
    /// to be due, so an agent that waits for its next poll is in `Probe`,
    /// and refuses such requests until the probe is made.
    pub open spec fn is_preemptive(&self) -> bool {
        *self is Park || *self is EntryPoint || *self is Poll
    }

    #[verifier::when_used_as_spec(is_preemptive)]
    pub fn is_preemptive_state(&self) -> (r: bool)
        ensures
            r == self.is_preemptive(),
    {
        match self {
            State::Park => true,
            State::EntryPoint => true,
            State::Poll => true,
            _ => false,
        }
    }

    /// Whether the state fetches a package, so that a download can be
    /// aborted.
    pub open spec fn handles_download(&self) -> bool {
        *self is Download || *self is DirectDownload
    }

    #[verifier::when_used_as_spec(handles_download)]
    pub fn is_handling_download(&self) -> (r: bool)
        ensures
            r == self.handles_download(),
    {
        match self {
            State::Download { .. } => true,
            State::DirectDownload { .. } => true,
            _ => false,
        }
    }

    /// The names under which entering and leaving the state are reported
    /// to the server, for the states whose progress is reported.
    pub open spec fn report_names_spec(&self) -> Option<(&'static str, &'static str)> {
        match self {
            State::Download { .. } => Some(("downloading", "downloaded")),
            State::Install { .. } => Some(("installing", "installed")),
            State::Reboot => Some(("rebooting", "rebooted")),
            _ => None,
        }
    }

    #[verifier::when_used_as_spec(report_names_spec)]
    pub fn report_names(&self) -> (r: Option<(&'static str, &'static str)>)
        ensures
            r == self.report_names_spec(),
    {
        match self {
            State::Download { .. } => Some(("downloading", "downloaded")),
            State::Install { .. } => Some(("installing", "installed")),
            State::Reboot => Some(("rebooting", "rebooted")),
            _ => None,
        }
    }

    /// The identifier of the package that the state works on.
    pub open spec fn package_uid_spec(&self) -> Option<String> {
        match self {
            State::PrepareDownload { package, .. } => Some(package.uid),
            State::Download { package, .. } => Some(package.uid),
            State::Install { package, .. } => Some(package.uid),
            _ => None,
        }
    }

    #[verifier::when_used_as_spec(package_uid_spec)]
    pub fn package_uid(&self) -> (r: Option<String>)
        ensures
            r == self.package_uid_spec(),
    {
        match self {
            State::PrepareDownload { package, .. } => Some(package.package_uid()),
            State::Download { package, .. } => Some(package.package_uid()),
            State::Install { package, .. } => Some(package.package_uid()),
            _ => None,
        }
    }

    /// Whether the state, left with the given answer, reads the clock:
    /// `Poll` does, to tell how long the poll is to be waited for, and so
    /// does `Probe` where the server has no update, to store the time of
    /// the poll.
    pub open spec fn reads_clock(self, answer: Answer) -> bool {
        ||| self is Poll && answer is Nothing
        ||| self is Probe && answer == Answer::Probed(
            Ok::<ProbeResponse, TransitionError>(ProbeResponse::NoUpdate),
        )
    }

    /// Tells whether the state, left with the given answer, reads the
    /// clock.
    pub fn needs_clock(&self, answer: &Answer) -> (r: bool)
        ensures
            r == self.reads_clock(*answer),
    {
        match self {
            State::Poll => match answer {
                Answer::Nothing => true,
                _ => false,
            },
            State::Probe => match answer {
                Answer::Probed(Ok(ProbeResponse::NoUpdate)) => true,
                _ => false,
            },
            _ => false,
        }
    }

    /// The state that stands for a failure.
    pub fn from(e: TransitionError) -> (r: State)
        ensures
            r == State::Error(e),
    {
        State::Error(e)
    }

    /// The outside work that the state needs.
    pub open spec fn request_spec(&self, facts: Facts) -> Request {
        match self {
            State::Park => Request::Nothing,
            State::EntryPoint => Request::Nothing,
            State::Poll => Request::Nothing,
            State::Probe => Request::Probe(facts.probe_request()),
            State::PrepareDownload { .. } => Request::Verify,
            State::DirectDownload { url } => Request::Fetch { url: *url },
            State::PrepareLocalInstall { update_file } => Request::Unpack {
                update_file: *update_file,
            },
            State::Download { .. } => Request::Download {
                server_address: facts.server_address(),
            },
            State::Install { installation_set, .. } => Request::Install {
                installation_set: *installation_set,
            },
            State::Reboot => Request::Reboot,
            State::Error(_) => Request::Nothing,
        }
    }

    pub fn request(&self, ctx: &Context) -> (r: Request)
        ensures
            r == self.request_spec(ctx.facts()),
    {
        match self {
            State::Park => Request::Nothing,
            State::EntryPoint => Request::Nothing,
            State::Poll => Request::Nothing,
            State::Probe => Request::Probe(ctx.probe_request()),
            State::PrepareDownload { .. } => Request::Verify,
            State::DirectDownload { url } => Request::Fetch { url: url.clone() },
            State::PrepareLocalInstall { update_file } => Request::Unpack {
                update_file: update_file.clone(),
            },
            State::Download { .. } => Request::Download {
                server_address: ctx.server_address_owned(),
            },
            State::Install { installation_set, .. } => Request::Install {
                installation_set: *installation_set,
            },
            State::Reboot => Request::Reboot,
            State::Error(_) => Request::Nothing,
        }
    }

    /// How the state is left, given the answer to its request and a
    /// reading of the clock. An answer to another request than that of the
    /// state is an invalid request.
    pub open spec fn progress_spec(self, facts: Facts, answer: Answer, clock: Clock) -> Result<
        Step,
        TransitionError,
    > {
        let settings = facts.runtime_settings;
        match (self, answer) {
            (State::Park, Answer::Nothing) => Ok(
                Step {
                    state: State::Park,
                    transition: StepTransition::Never,
                    runtime_settings: settings,
                },
            ),
            (State::EntryPoint, Answer::Nothing) => if settings.polling.enabled {
                Ok(
                    Step {
                        state: State::Poll,
                        transition: StepTransition::Immediate,
                        runtime_settings: settings,
                    },
                )
            } else {
                Ok(
                    Step {
                        state: State::Park,
                        transition: StepTransition::Never,
                        runtime_settings: settings,
                    },
                )
            },
            (State::Poll, Answer::Nothing) => Ok(
                Step {
                    state: State::Probe,
                    transition: poll_transition(facts, clock),
                    runtime_settings: settings,
                },
            ),
            (State::Probe, Answer::Probed(Ok(ProbeResponse::ExtraPoll(seconds)))) => Ok(
                Step {
                    state: State::EntryPoint,
                    transition: StepTransition::Delayed(seconds),
                    runtime_settings: settings,
                },
            ),
            (State::Probe, Answer::Probed(Ok(ProbeResponse::NoUpdate))) => Ok(
                Step {
                    state: State::EntryPoint,
                    transition: StepTransition::Immediate,
                    runtime_settings: settings.with_last_polling(clock.now),
                },
            ),
            (State::Probe, Answer::Probed(Ok(ProbeResponse::Update(package, sign)))) => Ok(
                Step {
                    state: State::PrepareDownload { package, sign },
                    transition: StepTransition::Immediate,
                    runtime_settings: settings,
                },
            ),
            (State::Probe, Answer::Probed(Err(e))) => Err(e),
            (State::PrepareDownload { package, sign }, Answer::Verified(Ok(found))) => {
                match acceptance(package, facts, found) {
                    Err(e) => Err(e),
                    Ok(_) => Ok(
                        Step {
                            state: State::Download { package, sign },
                            transition: StepTransition::Immediate,
                            runtime_settings: settings,
                        },
                    ),
                }
            },
            (State::PrepareDownload { .. }, Answer::Verified(Err(e))) => Err(e),
            (State::DirectDownload { .. }, Answer::Fetched(Ok(file))) => Ok(
                Step {
                    state: State::PrepareLocalInstall { update_file: file },
                    transition: StepTransition::Immediate,
                    runtime_settings: settings,
                },
            ),
            (State::DirectDownload { .. }, Answer::Fetched(Err(e))) => Err(e),
            (State::PrepareLocalInstall { .. }, Answer::Unpacked(Ok(found))) => Ok(
                Step {
                    state: State::Install {
                        package: found.package,
                        installation_set: found.active_set.other(),
                    },
                    transition: StepTransition::Immediate,
                    runtime_settings: settings,
                },
            ),
            (State::PrepareLocalInstall { .. }, Answer::Unpacked(Err(e))) => Err(e),
            (State::Download { package, .. }, Answer::Downloaded(Ok(active))) => Ok(
                Step {
                    state: State::Install { package, installation_set: active.other() },
                    transition: StepTransition::Immediate,
                    runtime_settings: settings,
                },
            ),
            (State::Download { .. }, Answer::Downloaded(Err(e))) => Err(e),
            (State::Install { package, installation_set }, Answer::Installed { present, outcome }) => {
                if !package.ready_in(texts(present@).to_set()) {
                    Err(TransitionError::ObjectsNotReady)
                } else {
                    match outcome {
                        Err(e) => Err(e),
                        Ok(_) => Ok(
                            Step {
                                state: State::Reboot,
                                transition: StepTransition::Immediate,
                                runtime_settings: settings.with_upgrade(Some(installation_set)),
                            },
                        ),
                    }
                }
            },
            (State::Reboot, Answer::Rebooted(Ok(_))) => Ok(
                Step {
                    state: State::Park,
                    transition: StepTransition::Never,
                    runtime_settings: settings,
                },
            ),
            (State::Reboot, Answer::Rebooted(Err(e))) => Err(e),
            (State::Error(_), Answer::Nothing) => Ok(
                Step {
                    state: State::EntryPoint,
                    transition: StepTransition::Immediate,
                    runtime_settings: settings.with_upgrade(None),
                },
            ),
            _ => Err(TransitionError::InvalidRequest),
        }
    }

    /// What the memory log holds once the state is left: the `Error` state
    /// hands the message of its error to the log, the others nothing.
    pub open spec fn log_after(self, logging: bool, log: Seq<char>, answer: Answer) -> Seq<char> {
        match (self, answer) {
            (State::Error(e), Answer::Nothing) => crate::logger::recorded(
                logging,
                log,
                e.message_spec(),
            ),
            _ => log,
        }
    }

    /// Leaves the state, given the answer to its request and a reading of
    /// the clock. Where the state cannot be left in the ordinary way the
    /// context stays as it was.
    pub fn progress(self, ctx: &mut Context, answer: Answer, clock: Clock) -> (r: Result<
        (State, StepTransition),
        TransitionError,
    >)
        ensures
            match self.progress_spec(old(ctx).facts(), answer, clock) {
                Ok(step) => r == Ok::<(State, StepTransition), TransitionError>(
                    (step.state, step.transition),
                ) && final(ctx).runtime_settings == step.runtime_settings,
                Err(e) => r == Err::<(State, StepTransition), TransitionError>(e)
                    && final(ctx).runtime_settings == old(ctx).runtime_settings,
            },
            final(ctx).settings == old(ctx).settings,
            final(ctx).firmware == old(ctx).firmware,
            final(ctx).communication == old(ctx).communication,
            final(ctx).waker == old(ctx).waker,
            final(ctx).log.enabled == old(ctx).log.enabled,
            final(ctx).log.buffer@ == self.log_after(
                old(ctx).log.enabled,
                old(ctx).log.buffer@,
                answer,
            ),
    {
        match self {
            State::Park => match answer {
                Answer::Nothing => Ok((State::Park, StepTransition::Never)),
                _ => Err(TransitionError::InvalidRequest),
            },
            State::EntryPoint => match answer {
                Answer::Nothing => if ctx.runtime_settings.is_polling_enabled() {
                    Ok((State::Poll, StepTransition::Immediate))
                } else {
                    Ok((State::Park, StepTransition::Never))
                },
                _ => Err(TransitionError::InvalidRequest),
            },
            State::Poll => match answer {
                Answer::Nothing => Ok((State::Probe, poll_step(ctx, clock))),
                _ => Err(TransitionError::InvalidRequest),
            },
            State::Probe => match answer {
                Answer::Probed(Ok(ProbeResponse::ExtraPoll(seconds))) => Ok(
                    (State::EntryPoint, StepTransition::Delayed(seconds)),
                ),
                Answer::Probed(Ok(ProbeResponse::NoUpdate)) => {
                    ctx.runtime_settings.set_last_polling(clock.now);
                    Ok((State::EntryPoint, StepTransition::Immediate))
                },
                Answer::Probed(Ok(ProbeResponse::Update(package, sign))) => Ok(
                    (State::PrepareDownload { package, sign }, StepTransition::Immediate),
                ),
                Answer::Probed(Err(e)) => Err(e),
                _ => Err(TransitionError::InvalidRequest),
            },
            State::PrepareDownload { package, sign } => match answer {
                Answer::Verified(Ok(found)) => match accept(&package, ctx, &found) {
                    Err(e) => Err(e),
                    Ok(_) => Ok((State::Download { package, sign }, StepTransition::Immediate)),
                },
                Answer::Verified(Err(e)) => Err(e),
                _ => Err(TransitionError::InvalidRequest),
            },
            State::DirectDownload { .. } => match answer {
                Answer::Fetched(Ok(file)) => Ok(
                    (State::PrepareLocalInstall { update_file: file }, StepTransition::Immediate),
                ),
                Answer::Fetched(Err(e)) => Err(e),
                _ => Err(TransitionError::InvalidRequest),
            },
            State::PrepareLocalInstall { .. } => match answer {
                Answer::Unpacked(Ok(found)) => {
                    let installation_set = found.active_set.other();
                    Ok(
                        (
                            State::Install { package: found.package, installation_set },
                            StepTransition::Immediate,
                        ),
                    )
                },
                Answer::Unpacked(Err(e)) => Err(e),
                _ => Err(TransitionError::InvalidRequest),
            },
            State::Download { package, .. } => match answer {
                Answer::Downloaded(Ok(active)) => Ok(
                    (
                        State::Install { package, installation_set: active.other() },
                        StepTransition::Immediate,
                    ),
                ),
                Answer::Downloaded(Err(e)) => Err(e),
                _ => Err(TransitionError::InvalidRequest),
            },
            State::Install { package, installation_set } => match answer {
                Answer::Installed { present, outcome } => {
                    if !package.objects_ready(&present) {
                        Err(TransitionError::ObjectsNotReady)
                    } else {
                        match outcome {
                            Err(e) => Err(e),
                            Ok(_) => {
                                ctx.runtime_settings.set_upgrade_to_installation(installation_set);
                                Ok((State::Reboot, StepTransition::Immediate))
                            },
                        }
                    }
                },
                _ => Err(TransitionError::InvalidRequest),
            },
            State::Reboot => match answer {
                Answer::Rebooted(Ok(_)) => Ok((State::Park, StepTransition::Never)),
                Answer::Rebooted(Err(e)) => Err(e),
                _ => Err(TransitionError::InvalidRequest),
            },
            State::Error(e) => match answer {
                Answer::Nothing => {
                    let message = e.message();
                    ctx.log.record(message.as_str());
                    ctx.runtime_settings.reset_installation_settings();
                    Ok((State::EntryPoint, StepTransition::Immediate))
                },
                _ => Err(TransitionError::InvalidRequest),
            },
        }
    }
}

/// Decides how long the scheduler waits before the probe that follows a
/// poll.
pub fn poll_step(ctx: &Context, clock: Clock) -> (r: StepTransition)
    ensures
        r == poll_transition(ctx.facts(), clock),
{
    let bound: u64 = ctx.settings.polling.jitter;
    let draw: u64 = clock.nanos as u64;
    let offset: u64 = if bound == u64::MAX {
        draw
    } else {
        draw % (bound + 1)
    };
    let left: i128 = ctx.runtime_settings.polling.last as i128
        + ctx.settings.polling.interval as i128 - clock.now as i128;
    if left <= 0 {
        StepTransition::Immediate
    } else if left + offset as i128 > u64::MAX as i128 {
        StepTransition::Delayed(u64::MAX)
    } else {
        StepTransition::Delayed((left + offset as i128) as u64)
    }
}

/// Looks for the first object whose target cannot be written to.
pub fn find_obstacle(objects: &Vec<Object>, devices: &Vec<DeviceProbe>) -> (r: Option<
    TargetError,
>)
    ensures
        r == first_obstacle(objects@, devices@, 0),
{
    let mut i: usize = 0;
    while i < objects.len() && i < devices.len()
        invariant
            first_obstacle(objects@, devices@, 0) == first_obstacle(objects@, devices@, i as int),
        decreases objects.len() - i,
    {
        match objects[i].target.valid(&devices[i]) {
            Err(e) => {
                return Some(e);
            },
            Ok(_) => {},
        }
        i = i + 1;
    }
    None
}

/// Decides whether a package from the server may be downloaded.
pub fn accept(package: &UpdatePackage, ctx: &Context, found: &Verified) -> (r: Result<
    (),
    TransitionError,
>)
    ensures
        r == acceptance(*package, ctx.facts(), *found),
{
    if !package.compatible_with(ctx.firmware.hardware.as_str()) {
        Err(TransitionError::UpdatePackage(PackageError::UnsupportedHardware))
    } else if found.devices.len() != package.objects.len() {
        Err(TransitionError::InvalidRequest)
    } else {
        match find_obstacle(&package.objects, &found.devices) {
            Some(e) => Err(TransitionError::Installation(InstallationError::Target(e))),
            None => Ok(()),
        }
    }
}

/// A poll that is due is followed by the probe at once. One that is not
/// yet due is waited for: for what is left of the interval at least, and
/// for no more than the configured jitter on top.
pub proof fn lemma_poll_waits(facts: Facts, clock: Clock)
    ensures
        ({
            let left = facts.runtime_settings.polling.last + facts.settings.polling.interval
                - clock.now;
            &&& left <= 0 <==> poll_transition(facts, clock) == StepTransition::Immediate
            &&& left > 0 ==> (poll_transition(facts, clock) matches StepTransition::Delayed(wait)
                && (left <= wait <= left + facts.settings.polling.jitter || (wait == u64::MAX
                && left + facts.settings.polling.jitter >= u64::MAX)))
        }),
{
    let bound = facts.settings.polling.jitter as int + 1;
    vstd::arithmetic::div_mod::lemma_mod_pos_bound(clock.nanos as int, bound);
}

/// How a state that does not read the clock is left does not depend on the
/// clock.
pub proof fn lemma_clock_is_not_read(
    state: State,
    facts: Facts,
    answer: Answer,
    one: Clock,
    other: Clock,
)
    requires
        !state.reads_clock(answer),
    ensures
        state.progress_spec(facts, answer, one) == state.progress_spec(facts, answer, other),
{
}

/// The same state, the same settings, runtime settings and firmware, the
/// same answer and the same reading of the clock give the same step:
/// nothing else decides how a state is left.
pub proof fn lemma_progress_deterministic(
    state: State,
    ctx: Context,
    answer: Answer,
    clock: Clock,
    state2: State,
    ctx2: Context,
    answer2: Answer,
    clock2: Clock,
)
    requires
        state == state2,
        ctx.settings == ctx2.settings,
        ctx.runtime_settings == ctx2.runtime_settings,
        ctx.firmware == ctx2.firmware,
        answer == answer2,
        clock == clock2,
    ensures
        state.progress_spec(ctx.facts(), answer, clock) == state2.progress_spec(
            ctx2.facts(),
            answer2,
            clock2,
        ),
{
}

/// No step moves the time of the last poll back, as long as the clock is
/// not behind the last poll.
pub proof fn lemma_progress_keeps_last_polling(
    state: State,
    facts: Facts,
    answer: Answer,
    clock: Clock,
)
    requires
        facts.runtime_settings.polling.last <= clock.now,
    ensures
        state.progress_spec(facts, answer, clock) matches Ok(step)
            ==> facts.runtime_settings.polling.last <= step.runtime_settings.polling.last,
{
}

} // verus!
