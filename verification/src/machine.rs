//! The scheduler's side of the agent: the context that the states work on,
//! the command bus, and the machine that holds the current state.

use crate::address::AbortDownloadResponse;
use crate::address::InfoResponse;
use crate::address::Message;
use crate::address::Response;
use crate::address::StateResponse;
use crate::channel::Channel;
use crate::clock::read_clock;
use crate::clock::Clock;
use crate::cloud::ProbeRequest;
use crate::cloud::Report;
use crate::error::TransitionError;
use crate::firmware::callback_transition;
use crate::firmware::transition_of;
use crate::firmware::CallbackOutput;
use crate::firmware::Metadata;
use crate::firmware::Transition;
use crate::logger::recorded;
use crate::logger::MemoryLog;
use crate::runtime_settings::RuntimeSettings;
use crate::settings::Settings;
use crate::states::Answer;
use crate::states::Request;
use crate::states::State;
use crate::states::StepTransition;
use vstd::prelude::*;

verus! {

/// Names the place that the reply to a command goes to. The sender of the
/// command picks it.
#[derive(Debug, Clone, Copy, PartialEq, Eq, Structural)]
pub struct ReplySink {
    pub id: u64,
}

/// What the states work on.
pub struct Context {
    /// The commands that wait to be handled, each with the place for its
    /// reply.
    pub communication: Channel<(Message, ReplySink)>,
    /// Holds a token while the scheduler is asked to wake up.
    pub waker: Channel<()>,
    pub settings: Settings,
    pub runtime_settings: RuntimeSettings,
    pub firmware: Metadata,
    pub log: MemoryLog,
}

/// What the states read of the context.
pub struct Facts {
    pub settings: Settings,
    pub runtime_settings: RuntimeSettings,
    pub firmware: Metadata,
}

impl Facts {
    /// The server that is asked: the one that the runtime settings name,
    /// and the configured one where they name none.
    pub open spec fn server_address(self) -> String {
        match self.runtime_settings.polling.server_address {
            Some(address) => address,
            None => self.settings.network.server_address,
        }
    }

    /// The question that is put to the server.
    pub open spec fn probe_request(self) -> ProbeRequest {
        ProbeRequest {
            server_address: self.server_address(),
            retries: self.runtime_settings.polling.retries,
            firmware: self.firmware,
        }
    }
}

impl Context {
    /// Holds of every context that `new` made, whatever the machine did
    /// with it since: ten commands can wait, and one wake token.
    pub open spec fn wf(&self) -> bool {
        &&& self.communication.wf()
        &&& self.communication.spec_capacity() == 10
        &&& self.waker.wf()
        &&& self.waker.spec_capacity() == 1
    }

    /// What the states read of the context.
    pub open spec fn facts(&self) -> Facts {
        Facts {
            settings: self.settings,
            runtime_settings: self.runtime_settings,
            firmware: self.firmware,
        }
    }

    /// Tells whether the context is as `new` makes it and the machine
    /// leaves it.
    pub fn is_well_formed(&self) -> (r: bool)
        ensures
            r == self.wf(),
    {
        self.communication.is_well_formed() && self.communication.capacity() == 10
            && self.waker.is_well_formed() && self.waker.capacity() == 1
    }

    pub fn new(settings: Settings, runtime_settings: RuntimeSettings, firmware: Metadata) -> (r:
        Self)
        ensures
            r.wf(),
            r.communication@ == Seq::<(Message, ReplySink)>::empty(),
            r.waker@ == Seq::<()>::empty(),
            r.settings == settings,
            r.runtime_settings == runtime_settings,
            r.firmware == firmware,
            !r.log.enabled,
            r.log.buffer@ == Seq::<char>::empty(),
    {
        Context {
            communication: Channel::new(10),
            waker: Channel::new(1),
            settings,
            runtime_settings,
            firmware,
            log: MemoryLog::new(),
        }
    }

    /// The server that is asked.
    pub fn server_address(&self) -> (r: &str)
        ensures
            r@ == self.facts().server_address()@,
    {
        match self.runtime_settings.custom_server_address() {
            Some(address) => address,
            None => self.settings.network.server_address.as_str(),
        }
    }

    pub fn server_address_owned(&self) -> (r: String)
        ensures
            r == self.facts().server_address(),
    {
        match &self.runtime_settings.polling.server_address {
            Some(address) => address.clone(),
            None => self.settings.network.server_address.clone(),
        }
    }

    /// The question that is put to the server.
    pub fn probe_request(&self) -> (r: ProbeRequest)
        ensures
            r == self.facts().probe_request(),
    {
        ProbeRequest {
            server_address: self.server_address_owned(),
            retries: self.runtime_settings.retries(),
            firmware: self.firmware.clone(),
        }
    }
}

/// The version of the agent.
pub open spec fn version_spec() -> &'static str {
    "0.1.0"
}

#[verifier::when_used_as_spec(version_spec)]
pub fn version() -> (r: &'static str)
    ensures
        r == version_spec(),
{
    "0.1.0"
}

/// What the waker holds once it was asked to hold a token: a token that
/// finds the waker full is dropped.
pub open spec fn woken(waker: Seq<()>) -> Seq<()> {
    if waker.len() < 1 {
        waker.push(())
    } else {
        waker
    }
}

/// How the handling of a command ends.
#[derive(Debug, Clone, PartialEq, Eq)]
pub enum Handled {
    /// With the reply.
    Reply(Response),
    /// With a question for the server; the reply is owed once the answer
    /// is handed to `complete_probe_request`.
    Probe(ProbeRequest),
}

/// How the handling of the waiting commands ends.
#[derive(Debug, Clone, PartialEq, Eq)]
pub struct Consumed {
    /// The replies to the commands that were handled, in the order of the
    /// commands, each with its place.
    pub replies: Vec<(ReplySink, Response)>,
    /// The question for the server at which the handling stopped, with
    /// the place for the reply that is owed. The commands behind it still
    /// wait.
    pub probe: Option<(ReplySink, ProbeRequest)>,
}

/// The run of the user's script that is asked before a reported state is
/// handled.
#[derive(Debug, Clone, PartialEq, Eq)]
pub struct CallbackCall {
    /// The directory that holds the script.
    pub metadata: String,
    /// The name of the state, handed to the script.
    pub state: &'static str,
}

/// What the outside does for the current state: the report to send first,
/// where the state is reported, and the work.
#[derive(Debug, Clone, PartialEq, Eq)]
pub struct Plan {
    pub report: Option<Report>,
    pub request: Request,
}

/// How the current state was left: what the scheduler does next, and the
/// report to send, where the state is reported.
#[derive(Debug, Clone, PartialEq, Eq)]
pub struct Moved {
    pub transition: StepTransition,
    pub report: Option<Report>,
}

/// The report that a state is entered or left under `name`.
pub open spec fn progress_report(facts: Facts, state: State, name: &'static str) -> Report {
    Report {
        server_address: facts.server_address(),
        firmware: facts.firmware,
        package_uid: state.package_uid_spec(),
        state: name,
        previous_state: None,
        error_message: None,
        current_log: None,
    }
}

/// Whether `report` says that `state`, entered under `enter`, failed with
/// `e`: it carries the message of the error and what the memory log held.
pub open spec fn is_error_report(
    report: Report,
    facts: Facts,
    log: Seq<char>,
    state: State,
    enter: &'static str,
    e: TransitionError,
) -> bool {
    &&& report.server_address == facts.server_address()
    &&& report.firmware == facts.firmware
    &&& report.package_uid == state.package_uid_spec()
    &&& report.state == "error"
    &&& report.previous_state == Some(enter)
    &&& report.error_message.is_some()
    &&& report.error_message.unwrap()@ == e.message_spec()
    &&& report.current_log.is_some()
    &&& report.current_log.unwrap()@ == log
}

/// The reply to a probe that the server answered with `outcome`.
pub open spec fn probe_reply(outcome: Result<crate::cloud::ProbeResponse, TransitionError>)
    -> Result<crate::address::ProbeResponse, TransitionError> {
    match outcome {
        Err(e) => Err(e),
        Ok(crate::cloud::ProbeResponse::ExtraPoll(seconds)) => Ok(
            crate::address::ProbeResponse::Delayed(seconds),
        ),
        Ok(crate::cloud::ProbeResponse::NoUpdate) => Ok(crate::address::ProbeResponse::Unavailable),
        Ok(crate::cloud::ProbeResponse::Update(_, _)) => Ok(
            crate::address::ProbeResponse::Available,
        ),
    }
}

/// Whether the answer of the server to a requested probe ends the state
/// that the agent is in, so that the time of the poll is stored.
pub open spec fn probe_settles(outcome: Result<crate::cloud::ProbeResponse, TransitionError>)
    -> bool {
    outcome matches Ok(found) && !(found is ExtraPoll)
}

/// The machine as the rules of the agent see it.
pub struct Model {
    pub state: State,
    pub facts: Facts,
    /// The commands that wait, the one that has waited longest first.
    pub commands: Seq<(Message, ReplySink)>,
    /// The wake tokens that wait.
    pub waker: Seq<()>,
    /// Whether the memory log keeps lines.
    pub logging: bool,
    /// What the memory log holds.
    pub log: Seq<char>,
}

impl Model {
    /// Ten commands can wait: one more is not taken.
    pub open spec fn sent(self, msg: Message, sink: ReplySink) -> Model {
        if self.commands.len() < 10 {
            Model { commands: self.commands.push((msg, sink)), ..self }
        } else {
            self
        }
    }

    /// Whether the command is accepted in the current state.
    pub open spec fn accepts(self, msg: Message) -> bool {
        match msg {
            Message::Info => true,
            Message::Probe(_) => self.state.is_preemptive(),
            Message::AbortDownload => self.state.handles_download(),
            Message::LocalInstall(_) => self.state.is_preemptive(),
            Message::RemoteInstall(_) => self.state.is_preemptive(),
        }
    }

    /// The snapshot that answers `Info`.
    pub open spec fn info(self) -> InfoResponse {
        InfoResponse {
            state: self.state.name_spec(),
            version: version_spec(),
            config: self.facts.settings,
            firmware: self.facts.firmware,
            runtime_settings: self.facts.runtime_settings,
        }
    }

    /// The machine once the command is handled. A request for an
    /// installation that is accepted takes the place of the state, turns
    /// the memory log on and wakes the scheduler; an abort that is
    /// accepted ends the download; a probe that is accepted stores the
    /// server that it names; anything else changes nothing.
    pub open spec fn handled(self, msg: Message) -> Model {
        if !self.accepts(msg) {
            self
        } else {
            match msg {
                Message::Info => self,
                Message::Probe(None) => self,
                Message::Probe(Some(address)) => Model {
                    facts: Facts {
                        runtime_settings: self.facts.runtime_settings.with_server_address(address),
                        ..self.facts
                    },
                    ..self
                },
                Message::AbortDownload => Model { state: State::EntryPoint, ..self },
                Message::LocalInstall(update_file) => Model {
                    state: State::PrepareLocalInstall { update_file },
                    waker: woken(self.waker),
                    logging: true,
                    ..self
                },
                Message::RemoteInstall(url) => Model {
                    state: State::DirectDownload { url },
                    waker: woken(self.waker),
                    logging: true,
                    ..self
                },
            }
        }
    }

    /// How the handling of the command ends: with the reply, or, for a
    /// probe that is accepted, with the question for the server.
    pub open spec fn reply(self, msg: Message) -> Handled {
        let name = self.state.name_spec();
        match msg {
            Message::Info => Handled::Reply(Response::Info(self.info())),
            Message::Probe(_) => if self.accepts(msg) {
                Handled::Probe(self.handled(msg).facts.probe_request())
            } else {
                Handled::Reply(Response::Probe(crate::address::ProbeResponse::Busy(name)))
            },
            Message::AbortDownload => if self.accepts(msg) {
                Handled::Reply(Response::AbortDownload(AbortDownloadResponse::RequestAccepted))
            } else {
                Handled::Reply(Response::AbortDownload(AbortDownloadResponse::InvalidState))
            },
            Message::LocalInstall(_) => if self.accepts(msg) {
                Handled::Reply(Response::LocalInstall(StateResponse::RequestAccepted(name)))
            } else {
                Handled::Reply(Response::LocalInstall(StateResponse::InvalidState(name)))
            },
            Message::RemoteInstall(_) => if self.accepts(msg) {
                Handled::Reply(Response::RemoteInstall(StateResponse::RequestAccepted(name)))
            } else {
                Handled::Reply(Response::RemoteInstall(StateResponse::InvalidState(name)))
            },
        }
    }

    /// The machine once a requested probe is ended with the answer of the
    /// server, read at `now`. An update or the lack of one wakes the
    /// scheduler, is stored as the last poll, and ends the current state;
    /// a delay or a failure changes nothing.
    pub open spec fn probed(
        self,
        outcome: Result<crate::cloud::ProbeResponse, TransitionError>,
        now: i64,
    ) -> Model {
        let polled = Facts {
            runtime_settings: self.facts.runtime_settings.with_last_polling(now),
            ..self.facts
        };
        match outcome {
            Ok(crate::cloud::ProbeResponse::NoUpdate) => Model {
                state: State::EntryPoint,
                facts: polled,
                waker: woken(self.waker),
                ..self
            },
            Ok(crate::cloud::ProbeResponse::Update(package, sign)) => Model {
                state: State::PrepareDownload { package, sign },
                facts: polled,
                waker: woken(self.waker),
                ..self
            },
            _ => self,
        }
    }

    /// The handling of the commands that wait, in their order: the
    /// machine that it leaves, the replies, and the question for the
    /// server at which it stops, if it comes to one.
    pub open spec fn consumed(self) -> (
        Model,
        Seq<(ReplySink, Response)>,
        Option<(ReplySink, ProbeRequest)>,
    )
        decreases self.commands.len(),
    {
        if self.commands.len() == 0 {
            (self, Seq::empty(), None)
        } else {
            let msg = self.commands[0].0;
            let sink = self.commands[0].1;
            let taken = Model {
                commands: self.commands.subrange(1, self.commands.len() as int),
                ..self
            };
            match taken.reply(msg) {
                Handled::Reply(response) => {
                    let rest = taken.handled(msg).consumed();
                    (rest.0, seq![(sink, response)] + rest.1, rest.2)
                },
                Handled::Probe(request) => (
                    taken.handled(msg),
                    Seq::empty(),
                    Some((sink, request)),
                ),
            }
        }
    }

    /// The run of the state-change script that is owed before the current
    /// state is handled: one for each state whose progress is reported.
    pub open spec fn callback(self) -> Option<CallbackCall> {
        if self.state.report_names_spec().is_some() {
            Some(
                CallbackCall {
                    metadata: self.facts.settings.firmware.metadata,
                    state: self.state.name_spec(),
                },
            )
        } else {
            None
        }
    }

    /// The machine once the state-change script has answered: a script
    /// that cancels sends a reported state back to the entry point, one
    /// that fails or says something else makes the state fail, and one
    /// that continues changes nothing. The states that are not reported
    /// do not listen to the script.
    pub open spec fn after_callback(self, output: CallbackOutput) -> Model {
        if self.state.report_names_spec().is_none() {
            self
        } else {
            match callback_transition(output) {
                Ok(Transition::Continue) => self,
                Ok(Transition::Cancel) => Model { state: State::EntryPoint, ..self },
                Err(e) => Model { state: State::Error(e), ..self },
            }
        }
    }

    /// Whether the answer of the state-change script ends the current
    /// state, so that its work is not done.
    pub open spec fn callback_ends(self, output: CallbackOutput) -> bool {
        self.state.report_names_spec().is_some() && callback_transition(output) != Ok::<
            Transition,
            TransitionError,
        >(Transition::Continue)
    }

    /// What the outside does for the current state.
    pub open spec fn plan(self) -> Plan {
        Plan {
            report: match self.state.report_names_spec() {
                Some(names) => Some(progress_report(self.facts, self.state, names.0)),
                None => None,
            },
            request: self.state.request_spec(self.facts),
        }
    }

    /// The machine once the current state is left with the answer to its
    /// request and a reading of the clock. The state that follows is the
    /// one that the state names, or `Error` where the state fails; a state
    /// that fails leaves the runtime settings as they were.
    pub open spec fn moved(self, answer: Answer, clock: Clock) -> Model {
        match self.state.progress_spec(self.facts, answer, clock) {
            Ok(step) => Model {
                state: step.state,
                facts: Facts { runtime_settings: step.runtime_settings, ..self.facts },
                log: self.state.log_after(self.logging, self.log, answer),
                ..self
            },
            Err(e) => Model {
                state: State::Error(e),
                log: self.state.log_after(self.logging, self.log, answer),
                ..self
            },
        }
    }

    /// The machine once the current state has failed with `e`: the state
    /// that follows is `Error`, and nothing else changes.
    pub open spec fn failed(self, e: TransitionError) -> Model {
        Model { state: State::Error(e), ..self }
    }

    /// What the scheduler does once the current state is left: what the
    /// state names, or nothing but to go on where the state fails.
    pub open spec fn transition(self, answer: Answer, clock: Clock) -> StepTransition {
        match self.state.progress_spec(self.facts, answer, clock) {
            Ok(step) => step.transition,
            Err(_) => StepTransition::Immediate,
        }
    }

    /// Whether `report` is the report that is owed once the current state
    /// is left: none for a state that is not reported, the report of the
    /// leaving where the state is left in the ordinary way, and the report
    /// of the failure where it fails.
    pub open spec fn owes_report(self, answer: Answer, clock: Clock, report: Option<Report>)
        -> bool {
        match self.state.report_names_spec() {
            None => report.is_none(),
            Some(names) => match self.state.progress_spec(self.facts, answer, clock) {
                Ok(_) => report == Some(progress_report(self.facts, self.state, names.1)),
                Err(e) => report.is_some() && is_error_report(
                    report.unwrap(),
                    self.facts,
                    self.log,
                    self.state,
                    names.0,
                    e,
                ),
            },
        }
    }

    /// Whether the wait that follows a step is over: at once after an
    /// immediate step; otherwise as soon as a wake token or a command
    /// waits, and for a delayed step when the delay has passed.
    pub open spec fn resumes(self, transition: StepTransition, elapsed: u64) -> bool {
        match transition {
            StepTransition::Immediate => true,
            StepTransition::Delayed(delay) => elapsed >= delay || self.waker.len() > 0
                || self.commands.len() > 0,
            StepTransition::Never => self.waker.len() > 0 || self.commands.len() > 0,
        }
    }
}

/// The scheduler's machine: the current state and the context.
pub struct StateMachine {
    pub state: State,
    pub context: Context,
}

impl View for StateMachine {
    type V = Model;

    open spec fn view(&self) -> Model {
        Model {
            state: self.state,
            facts: self.context.facts(),
            commands: self.context.communication@,
            waker: self.context.waker@,
            logging: self.context.log.enabled,
            log: self.context.log.buffer@,
        }
    }
}

impl StateMachine {
    pub open spec fn wf(&self) -> bool {
        self.context.wf()
    }

    /// Tells whether the machine is fit for use: true of every machine
    /// that `new` made and that only the methods of the machine changed.
    pub fn is_well_formed(&self) -> (r: bool)
        ensures
            r == self.wf(),
    {
        self.context.is_well_formed()
    }

    pub fn new(
        state: State,
        settings: Settings,
        runtime_settings: RuntimeSettings,
        firmware: Metadata,
    ) -> (r: Self)
        ensures
            r.wf(),
            r@ == (Model {
                state,
                facts: Facts { settings, runtime_settings, firmware },
                commands: Seq::empty(),
                waker: Seq::empty(),
                logging: false,
                log: Seq::empty(),
            }),
    {
        StateMachine { state, context: Context::new(settings, runtime_settings, firmware) }
    }

    /// Hands a command to the agent. Ten commands can wait; one that finds
    /// the channel full comes back, for the sender to try again later.
    pub fn send(&mut self, msg: Message, sink: ReplySink) -> (r: Result<(), Message>)
        requires
            old(self).wf(),
        ensures
            final(self).wf(),
            final(self)@ == old(self)@.sent(msg, sink),
            r == if old(self)@.commands.len() < 10 {
                Ok::<(), Message>(())
            } else {
                Err::<(), Message>(msg)
            },
    {
        match self.context.communication.try_send((msg, sink)) {
            Ok(_) => Ok(()),
            Err(back) => Err(back.0),
        }
    }

    /// Asks the scheduler to wake up. One token is kept: a second one is
    /// dropped.
    pub fn wake(&mut self)
        requires
            old(self).wf(),
        ensures
            final(self).wf(),
            final(self)@ == (Model { waker: woken(old(self)@.waker), ..old(self)@ }),
    {
        let _ = self.context.waker.try_send(());
    }

    /// Begins an iteration of the scheduler: the loop runs, so a token
    /// that waits in the waker is stale and is thrown away.
    pub fn discard_wake(&mut self)
        requires
            old(self).wf(),
        ensures
            final(self).wf(),
            final(self)@ == (Model { waker: Seq::empty(), ..old(self)@ }),
    {
        proof {
            crate::channel::lemma_channel_bounded(self.context.waker);
        }
        let _ = self.context.waker.try_recv();
        assert(self.context.waker@ =~= Seq::<()>::empty());
    }

    /// Takes the command that has waited longest, with the place for its
    /// reply.
    pub fn next_communication(&mut self) -> (r: Option<(Message, ReplySink)>)
        requires
            old(self).wf(),
        ensures
            final(self).wf(),
            old(self)@.commands.len() == 0 ==> r.is_none() && final(self)@ == old(self)@,
            old(self)@.commands.len() > 0 ==> r == Some(old(self)@.commands[0]) && final(self)@
                == (Model {
                commands: old(self)@.commands.subrange(1, old(self)@.commands.len() as int),
                ..old(self)@
            }),
    {
        self.context.communication.try_recv()
    }

    /// The snapshot that answers `Info`.
    pub fn info(&self) -> (r: InfoResponse)
        ensures
            r == self@.info(),
    {
        InfoResponse {
            state: self.state.name(),
            version: version(),
            config: self.context.settings.clone(),
            firmware: self.context.firmware.clone(),
            runtime_settings: self.context.runtime_settings.clone(),
        }
    }

    /// Handles a command in the current state. A request for an
    /// installation that finds the agent idle takes the place of the
    /// state, turns the memory log on and wakes the scheduler; an abort
    /// that finds a download ends it; a probe that finds the agent idle
    /// stores the server that it names and asks for the server to be
    /// queried.
    pub fn handle_communication(&mut self, msg: Message) -> (r: Handled)
        requires
            old(self).wf(),
        ensures
            final(self).wf(),
            final(self)@ == old(self)@.handled(msg),
            r == old(self)@.reply(msg),
    {
        match msg {
            Message::Info => Handled::Reply(Response::Info(self.info())),
            Message::Probe(custom_server) => self.handle_probe_request(custom_server),
            Message::AbortDownload => {
                if self.state.is_handling_download() {
                    self.state = State::EntryPoint;
                    Handled::Reply(Response::AbortDownload(AbortDownloadResponse::RequestAccepted))
                } else {
                    Handled::Reply(Response::AbortDownload(AbortDownloadResponse::InvalidState))
                }
            },
            Message::LocalInstall(update_file) => {
                let state = self.state.name();
                if self.state.is_preemptive_state() {
                    self.context.log.start_memory_logging();
                    let _ = self.context.waker.try_send(());
                    self.state = State::PrepareLocalInstall { update_file };
                    Handled::Reply(Response::LocalInstall(StateResponse::RequestAccepted(state)))
                } else {
                    Handled::Reply(Response::LocalInstall(StateResponse::InvalidState(state)))
                }
            },
            Message::RemoteInstall(url) => {
                let state = self.state.name();
                if self.state.is_preemptive_state() {
                    self.context.log.start_memory_logging();
                    let _ = self.context.waker.try_send(());
                    self.state = State::DirectDownload { url };
                    Handled::Reply(Response::RemoteInstall(StateResponse::RequestAccepted(state)))
                } else {
                    Handled::Reply(Response::RemoteInstall(StateResponse::InvalidState(state)))
                }
            },
        }
    }

    /// Handles a request for a probe: a busy agent says so and asks
    /// nothing; an idle one stores the server that the request names and
    /// asks for the server to be queried.
    pub fn handle_probe_request(&mut self, custom_server: Option<String>) -> (r: Handled)
        requires
            old(self).wf(),
        ensures
            final(self).wf(),
            final(self)@ == old(self)@.handled(Message::Probe(custom_server)),
            r == old(self)@.reply(Message::Probe(custom_server)),
    {
        if !self.state.is_preemptive_state() {
            return Handled::Reply(
                Response::Probe(crate::address::ProbeResponse::Busy(self.state.name())),
            );
        }
        if let Some(server_address) = custom_server {
            self.context.runtime_settings.set_custom_server_address(server_address);
        }
        Handled::Probe(self.context.probe_request())
    }

    /// Ends a requested probe with the answer of the server, read at
    /// `now`. An update or the lack of one wakes the scheduler, is stored
    /// as the last poll, and ends the current state; a delay or a failure
    /// leaves the agent as it is.
    pub fn complete_probe_request_at(
        &mut self,
        outcome: Result<crate::cloud::ProbeResponse, TransitionError>,
        now: i64,
    ) -> (r: Result<crate::address::ProbeResponse, TransitionError>)
        requires
            old(self).wf(),
        ensures
            final(self).wf(),
            final(self)@ == old(self)@.probed(outcome, now),
            r == probe_reply(outcome),
    {
        match outcome {
            Err(e) => Err(e),
            Ok(crate::cloud::ProbeResponse::ExtraPoll(seconds)) => Ok(
                crate::address::ProbeResponse::Delayed(seconds),
            ),
            Ok(crate::cloud::ProbeResponse::NoUpdate) => {
                let _ = self.context.waker.try_send(());
                self.context.runtime_settings.set_last_polling(now);
                self.state = State::EntryPoint;
                Ok(crate::address::ProbeResponse::Unavailable)
            },
            Ok(crate::cloud::ProbeResponse::Update(package, sign)) => {
                let _ = self.context.waker.try_send(());
                self.context.runtime_settings.set_last_polling(now);
                self.state = State::PrepareDownload { package, sign };
                Ok(crate::address::ProbeResponse::Available)
            },
        }
    }

    /// Ends a requested probe with the answer of the server. Where the
    /// answer ends the current state, the time of the poll is read from
    /// the clock, and the machine is left as `complete_probe_request_at`
    /// leaves it for that time; where the clock cannot be read, the
    /// request fails and the machine stays as it is. A delay or a failure
    /// does not ask for the time.
    pub fn complete_probe_request(
        &mut self,
        outcome: Result<crate::cloud::ProbeResponse, TransitionError>,
    ) -> (r: Result<crate::address::ProbeResponse, TransitionError>)
        requires
            old(self).wf(),
        ensures
            final(self).wf(),
            !probe_settles(outcome) ==> final(self)@ == old(self)@ && r == probe_reply(outcome),
            probe_settles(outcome) ==> (exists|now: i64|
                final(self)@ == #[trigger] old(self)@.probed(outcome, now) && r == probe_reply(
                    outcome,
                )) || (final(self)@ == old(self)@ && r == Err::<
                crate::address::ProbeResponse,
                TransitionError,
            >(TransitionError::InvalidRequest)),
    {
        let settles = match &outcome {
            Ok(crate::cloud::ProbeResponse::NoUpdate) => true,
            Ok(crate::cloud::ProbeResponse::Update(_, _)) => true,
            _ => false,
        };
        if !settles {
            return self.complete_probe_request_at(outcome, 0);
        }
        match read_clock() {
            Some(clock) => {
                let ghost before = self@;
                let r = self.complete_probe_request_at(outcome, clock.now);
                assert(self@ == before.probed(outcome, clock.now));
                r
            },
            None => Err(TransitionError::InvalidRequest),
        }
    }

    /// Handles the commands that wait, in their order, up to the first
    /// that needs the server asked. The replies go to their places; for
    /// the question, the outside asks the server, hands the answer to
    /// `complete_probe_request`, the reply to its place, and comes back
    /// here for the commands that still wait.
    pub fn consume_pending_communication(&mut self) -> (r: Consumed)
        requires
            old(self).wf(),
        ensures
            final(self).wf(),
            final(self)@ == old(self)@.consumed().0,
            r.replies@ == old(self)@.consumed().1,
            r.probe == old(self)@.consumed().2,
    {
        let mut replies: Vec<(ReplySink, Response)> = Vec::new();
        let ghost start = self@;
        proof {
            assert(Seq::<(ReplySink, Response)>::empty() + start.consumed().1
                == start.consumed().1);
        }
        loop
            invariant
                self.wf(),
                start == old(self)@,
                start.consumed().0 == self@.consumed().0,
                start.consumed().1 == replies@ + self@.consumed().1,
                start.consumed().2 == self@.consumed().2,
            decreases self@.commands.len(),
        {
            let ghost before = self@;
            match self.next_communication() {
                None => {
                    proof {
                        assert(replies@ + Seq::<(ReplySink, Response)>::empty() == replies@);
                    }
                    return Consumed { replies, probe: None };
                },
                Some((msg, sink)) => {
                    match self.handle_communication(msg) {
                        Handled::Reply(response) => {
                            let ghost sofar = replies@;
                            replies.push((sink, response));
                            proof {
                                assert(sofar + (seq![(sink, response)] + self@.consumed().1)
                                    == replies@ + self@.consumed().1);
                            }
                        },
                        Handled::Probe(request) => {
                            proof {
                                assert(replies@ + Seq::<(ReplySink, Response)>::empty()
                                    == replies@);
                            }
                            return Consumed { replies, probe: Some((sink, request)) };
                        },
                    }
                },
            }
        }
    }

    /// The run of the state-change script that is owed before the current
    /// state is handled.
    pub fn callback(&self) -> (r: Option<CallbackCall>)
        ensures
            r == self@.callback(),
    {
        match self.state.report_names() {
            Some(_) => Some(
                CallbackCall {
                    metadata: self.context.settings.firmware.metadata.clone(),
                    state: self.state.name(),
                },
            ),
            None => None,
        }
    }

    /// Takes the answer of the state-change script. Where it ends the
    /// state, the result says what the scheduler does next, and the work
    /// of the state is not done; where it is empty, the state is handled.
    pub fn handle_callback(&mut self, output: CallbackOutput) -> (r: Option<StepTransition>)
        requires
            old(self).wf(),
        ensures
            final(self).wf(),
            final(self)@ == old(self)@.after_callback(output),
            r == if old(self)@.callback_ends(output) {
                Some(StepTransition::Immediate)
            } else {
                None
            },
    {
        if self.state.report_names().is_none() {
            return None;
        }
        match transition_of(output) {
            Ok(Transition::Continue) => None,
            Ok(Transition::Cancel) => {
                self.state = State::EntryPoint;
                Some(StepTransition::Immediate)
            },
            Err(e) => {
                self.state = State::from(e);
                Some(StepTransition::Immediate)
            },
        }
    }

    /// What the outside does for the current state.
    pub fn plan(&self) -> (r: Plan)
        ensures
            r == self@.plan(),
    {
        let report = match self.state.report_names() {
            Some(names) => Some(self.report(names.0)),
            None => None,
        };
        Plan { report, request: self.state.request(&self.context) }
    }

    fn report(&self, name: &'static str) -> (r: Report)
        ensures
            r == progress_report(self@.facts, self.state, name),
    {
        Report {
            server_address: self.context.server_address_owned(),
            firmware: self.context.firmware.clone(),
            package_uid: self.state.package_uid(),
            state: name,
            previous_state: None,
            error_message: None,
            current_log: None,
        }
    }

    /// Leaves the current state with the answer to its request and a
    /// reading of the clock, and commits the state that follows. A state
    /// that fails is followed by `Error`, at once.
    pub fn move_to_next_state_at(&mut self, answer: Answer, clock: Clock) -> (r: Moved)
        requires
            old(self).wf(),
        ensures
            final(self).wf(),
            final(self)@ == old(self)@.moved(answer, clock),
            r.transition == old(self)@.transition(answer, clock),
            old(self)@.owes_report(answer, clock, r.report),
    {
        let names = self.state.report_names();
        let enter = match names {
            Some(n) => Some(self.report(n.0)),
            None => None,
        };
        let leave = match names {
            Some(n) => Some(self.report(n.1)),
            None => None,
        };
        let log = self.context.log.get_memory_log();
        let mut state = State::Park;
        core::mem::swap(&mut self.state, &mut state);
        match state.progress(&mut self.context, answer, clock) {
            Ok((next, transition)) => {
                self.state = next;
                Moved { transition, report: leave }
            },
            Err(e) => {
                let report = match (enter, names) {
                    (Some(entered), Some(n)) => Some(
                        Report {
                            state: "error",
                            previous_state: Some(n.0),
                            error_message: Some(e.message()),
                            current_log: Some(log),
                            ..entered
                        },
                    ),
                    _ => None,
                };
                self.state = State::from(e);
                Moved { transition: StepTransition::Immediate, report }
            },
        }
    }

    /// Makes the current state fail with an error that the outside met
    /// while it worked for the agent, such as a failure to write the
    /// runtime settings: the state that follows is `Error`, which holds the
    /// error.
    pub fn fail(&mut self, e: TransitionError)
        requires
            old(self).wf(),
        ensures
            final(self).wf(),
            final(self)@ == old(self)@.failed(e),
    {
        self.state = State::from(e);
    }

    /// Leaves the current state with the answer to its request. A state
    /// that does not read the clock is left as `move_to_next_state_at`
    /// leaves it, whatever the time. One that reads the clock is left as
    /// `move_to_next_state_at` leaves it for the reading; where the clock
    /// cannot be read, it fails with an invalid request, at once and
    /// without a report.
    pub fn move_to_next_state(&mut self, answer: Answer) -> (r: Moved)
        requires
            old(self).wf(),
        ensures
            final(self).wf(),
            !old(self)@.state.reads_clock(answer) ==> {
                let any = Clock { now: 0, nanos: 0 };
                &&& final(self)@ == old(self)@.moved(answer, any)
                &&& r.transition == old(self)@.transition(answer, any)
                &&& old(self)@.owes_report(answer, any, r.report)
            },
            old(self)@.state.reads_clock(answer) ==> (exists|clock: Clock|
                {
                    &&& final(self)@ == #[trigger] old(self)@.moved(answer, clock)
                    &&& r.transition == old(self)@.transition(answer, clock)
                    &&& old(self)@.owes_report(answer, clock, r.report)
                }) || (final(self)@ == old(self)@.failed(TransitionError::InvalidRequest) && r == (
            Moved { transition: StepTransition::Immediate, report: None })),
    {
        if !self.state.needs_clock(&answer) {
            return self.move_to_next_state_at(answer, Clock { now: 0, nanos: 0 });
        }
        match read_clock() {
            Some(clock) => {
                let ghost before = self@;
                let r = self.move_to_next_state_at(answer, clock);
                assert(self@ == before.moved(answer, clock));
                r
            },
            None => {
                self.fail(TransitionError::InvalidRequest);
                Moved { transition: StepTransition::Immediate, report: None }
            },
        }
    }

    /// Decides whether the scheduler goes on, `elapsed` seconds after the
    /// step that asked for the wait.
    pub fn should_resume(&self, transition: StepTransition, elapsed: u64) -> (r: bool)
        ensures
            r == self@.resumes(transition, elapsed),
    {
        let stirred = !self.context.waker.is_empty() || !self.context.communication.is_empty();
        match transition {
            StepTransition::Immediate => true,
            StepTransition::Delayed(delay) => elapsed >= delay || stirred,
            StepTransition::Never => stirred,
        }
    }
}

/// A request to install a local file is accepted only where it finds the
/// agent idle, in `Park`, `EntryPoint` or `Poll`, and it then leaves the
/// agent in the state that prepares the installation of that file.
pub proof fn lemma_local_install_accepted(machine: Model, update_file: String)
    requires
        machine.reply(Message::LocalInstall(update_file)) matches Handled::Reply(
            Response::LocalInstall(StateResponse::RequestAccepted(_)),
        ),
    ensures
        machine.state is Park || machine.state is EntryPoint || machine.state is Poll,
        machine.handled(Message::LocalInstall(update_file)).state == (State::PrepareLocalInstall {
            update_file,
        }),
{
}

/// A request to install from a URL is accepted only where it finds the
/// agent idle, in `Park`, `EntryPoint` or `Poll`, and it then leaves the
/// agent in the state that fetches from that URL.
pub proof fn lemma_remote_install_accepted(machine: Model, url: String)
    requires
        machine.reply(Message::RemoteInstall(url)) matches Handled::Reply(
            Response::RemoteInstall(StateResponse::RequestAccepted(_)),
        ),
    ensures
        machine.state is Park || machine.state is EntryPoint || machine.state is Poll,
        machine.handled(Message::RemoteInstall(url)).state == (State::DirectDownload { url }),
{
}

/// An abort is accepted only where it finds a download, in `Download` or
/// `DirectDownload`, and it then leaves the agent at the entry point.
pub proof fn lemma_abort_accepted(machine: Model)
    requires
        machine.reply(Message::AbortDownload) == Handled::Reply(
            Response::AbortDownload(AbortDownloadResponse::RequestAccepted),
        ),
    ensures
        machine.state is Download || machine.state is DirectDownload,
        machine.handled(Message::AbortDownload).state == State::EntryPoint,
{
}

/// A state that fails is followed by `Error`, which holds the failure, and
/// the scheduler goes on at once.
pub proof fn lemma_failure_leads_to_error(machine: Model, answer: Answer, clock: Clock)
    requires
        machine.state.progress_spec(machine.facts, answer, clock) is Err,
    ensures
        machine.moved(answer, clock).state == State::Error(
            machine.state.progress_spec(machine.facts, answer, clock)->Err_0,
        ),
        machine.transition(answer, clock) == StepTransition::Immediate,
{
}

/// The waker of a machine that is fit for use holds one token at most, and
/// its command channel ten commands.
pub proof fn lemma_waker_bounded(machine: StateMachine)
    requires
        machine.wf(),
    ensures
        machine@.waker.len() <= 1,
        machine@.commands.len() <= 10,
{
    crate::channel::lemma_channel_bounded(machine.context.waker);
    crate::channel::lemma_channel_bounded(machine.context.communication);
}

/// Nothing that is done to a machine lets its waker hold more than one
/// token, or its command channel more than ten commands.
pub proof fn lemma_bounds_are_kept(
    machine: Model,
    msg: Message,
    sink: ReplySink,
    outcome: Result<crate::cloud::ProbeResponse, TransitionError>,
    now: i64,
    output: CallbackOutput,
    answer: Answer,
    clock: Clock,
)
    requires
        machine.waker.len() <= 1,
        machine.commands.len() <= 10,
    ensures
        machine.sent(msg, sink).waker.len() <= 1,
        machine.sent(msg, sink).commands.len() <= 10,
        machine.handled(msg).waker.len() <= 1,
        machine.handled(msg).commands.len() <= 10,
        machine.probed(outcome, now).waker.len() <= 1,
        machine.after_callback(output).waker.len() <= 1,
        machine.moved(answer, clock).waker.len() <= 1,
        woken(machine.waker).len() <= 1,
{
}

/// No command and no step moves the time of the last poll back, as long
/// as the clock is not behind the last poll.
pub proof fn lemma_last_polling_is_kept(
    machine: Model,
    msg: Message,
    outcome: Result<crate::cloud::ProbeResponse, TransitionError>,
    output: CallbackOutput,
    answer: Answer,
    clock: Clock,
)
    requires
        machine.facts.runtime_settings.polling.last <= clock.now,
    ensures
        machine.facts.runtime_settings.polling.last <= machine.handled(
            msg,
        ).facts.runtime_settings.polling.last,
        machine.facts.runtime_settings.polling.last <= machine.probed(
            outcome,
            clock.now,
        ).facts.runtime_settings.polling.last,
        machine.facts.runtime_settings.polling.last <= machine.after_callback(
            output,
        ).facts.runtime_settings.polling.last,
        machine.facts.runtime_settings.polling.last <= machine.moved(
            answer,
            clock,
        ).facts.runtime_settings.polling.last,
{
}

/// The commands that wait are handled in the order in which they came, and
/// each gets its reply. Where the handling comes to no question for the
/// server, no command is left waiting and there are as many replies as
/// there were commands.
pub proof fn lemma_commands_are_drained(machine: Model)
    ensures
        machine.consumed().2.is_none() ==> machine.consumed().0.commands.len() == 0
            && machine.consumed().1.len() == machine.commands.len(),
        machine.consumed().1.len() <= machine.commands.len(),
        forall|i: int|
            0 <= i < machine.consumed().1.len() ==> (#[trigger] machine.consumed().1[i]).0
                == machine.commands[i].1,
        machine.consumed().2.is_some() ==> machine.consumed().1.len() < machine.commands.len()
            && machine.consumed().2.unwrap().0 == machine.commands[machine.consumed().1.len() as int].1,
    decreases machine.commands.len(),
{
    if machine.commands.len() > 0 {
        let msg = machine.commands[0].0;
        let taken = Model {
            commands: machine.commands.subrange(1, machine.commands.len() as int),
            ..machine
        };
        match taken.reply(msg) {
            Handled::Reply(response) => {
                let next = taken.handled(msg);
                lemma_commands_are_drained(next);
                assert(next.commands == taken.commands);
                assert forall|i: int| 0 <= i < machine.consumed().1.len() implies (
                #[trigger] machine.consumed().1[i]).0 == machine.commands[i].1 by {
                    if i > 0 {
                        assert(machine.consumed().1[i] == next.consumed().1[i - 1]);
                        assert(next.commands[i - 1] == machine.commands[i]);
                    }
                }
                if machine.consumed().2.is_some() {
                    assert(next.commands[next.consumed().1.len() as int]
                        == machine.commands[machine.consumed().1.len() as int]);
                }
            },
            Handled::Probe(_) => {},
        }
    }
}

} // verus!
