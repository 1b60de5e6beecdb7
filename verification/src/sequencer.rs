//! The sequencer: the fixed order of the startup steps.
//!
//! The sequencer decides and the caller acts. Each call of
//! [`Sequencer::step`] takes the event that reports what the caller just
//! did and returns the action to perform next:
//!
//! 1. the caller observes the host and reports [`Event::HostObserved`];
//! 2. the sequencer derives the signals and the overrides and asks for the
//!    overrides to be applied;
//! 3. the caller applies them to the process environment, before any
//!    rendering surface exists, and reports [`Event::OverridesApplied`];
//! 4. the sequencer has the log sink built and then bound to the facade;
//! 5. the sequencer has the remaining auxiliary subsystems initialized;
//! 6. the sequencer hands off to the creation of the GUI surface.
//!
//! A failure while the sink is built or bound aborts the sequence. A failure
//! of an auxiliary subsystem does not.

use vstd::prelude::*;
use crate::features::{
    auxiliaries_for, consumer_for, deferred, select_auxiliaries, select_consumer, AuxiliarySet,
    PlatformClass,
};
use crate::logging::{
    bind_result, construct_result, Consumer, LogSink, LoggingBootstrap, LoggingError, LoggingFacade,
    Stage,
};
use crate::policy::{
    applicable_overrides, compute_overrides, overrides_for, record_of, writes_for, PolicyVariant,
    WorkaroundSet,
};
use crate::signals::{probe, signals_of, HostObservations, HostSignals};

verus! {

/// What the caller fixes before the sequence starts.
#[derive(Clone, Copy, Debug, PartialEq, Eq, Structural)]
pub struct BootstrapConfig {
    pub policy: PolicyVariant,
    pub platform: PlatformClass,
    pub sink: LogSink,
}

/// What the sequence has found out and carries from step to step. It is
/// dropped when the sequence ends.
#[derive(Clone, Copy, Debug, PartialEq, Eq, Structural)]
pub struct BootstrapContext {
    pub signals: HostSignals,
    pub overrides: WorkaroundSet,
    pub sink: LogSink,
}

/// A failure that ends the startup.
#[derive(Clone, Copy, Debug, PartialEq, Eq, Structural)]
pub enum FatalError {
    /// The sink configuration was refused.
    InvalidSinkConfiguration,
    /// The caller could not build the sink.
    SinkConstructionFailed,
    /// The logging facade was bound before the launcher could bind it.
    FacadeAlreadyBound,
    /// An event arrived that does not follow the step the sequence is at.
    OutOfSequence,
}

/// The failure that a refusal of the logging bootstrap amounts to.
pub open spec fn fatal_of(error: LoggingError) -> FatalError {
    match error {
        LoggingError::InvalidConfiguration => FatalError::InvalidSinkConfiguration,
        LoggingError::OutOfOrder => FatalError::OutOfSequence,
        LoggingError::FacadeAlreadyBound => FatalError::FacadeAlreadyBound,
    }
}

/// Names the failure that a refusal of the logging bootstrap amounts to.
fn fatal_from(error: LoggingError) -> (fatal: FatalError)
    ensures
        fatal == fatal_of(error),
{
    match error {
        LoggingError::InvalidConfiguration => FatalError::InvalidSinkConfiguration,
        LoggingError::OutOfOrder => FatalError::OutOfSequence,
        LoggingError::FacadeAlreadyBound => FatalError::FacadeAlreadyBound,
    }
}

impl FatalError {
    /// The diagnostic that goes with the failure.
    pub open spec fn message_chars(self) -> Seq<char> {
        match self {
            FatalError::InvalidSinkConfiguration =>
                "the log sink configuration is invalid: the maximal file size must be positive"@,
            FatalError::SinkConstructionFailed => "the log sink could not be constructed"@,
            FatalError::FacadeAlreadyBound => "the logging facade is already bound to a consumer"@,
            FatalError::OutOfSequence => "a startup step was reported out of sequence"@,
        }
    }

    /// The diagnostic that goes with the failure.
    pub fn message(&self) -> (message: &'static str)
        ensures
            message@ == self.message_chars(),
    {
        match self {
            FatalError::InvalidSinkConfiguration =>
                "the log sink configuration is invalid: the maximal file size must be positive",
            FatalError::SinkConstructionFailed => "the log sink could not be constructed",
            FatalError::FacadeAlreadyBound => "the logging facade is already bound to a consumer",
            FatalError::OutOfSequence => "a startup step was reported out of sequence",
        }
    }
}

/// The step the sequence is at.
#[derive(Clone, Copy, Debug, PartialEq, Eq, Structural)]
pub enum Phase {
    /// Nothing has happened; the host is still to be observed.
    AwaitingObservations,
    /// The overrides are computed and are being applied.
    ApplyingOverrides,
    /// The environment is ready and the sink is being built.
    ConstructingSink,
    /// The sink is built and the consumer is being bound to the facade.
    BindingConsumer,
    /// The facade is bound and the auxiliary subsystems are being
    /// initialized.
    InitializingAuxiliaries,
    /// The sequence is complete.
    HandedOff,
    /// The sequence was aborted.
    Aborted(FatalError),
}

/// How the initialization of the auxiliary subsystems went.
#[derive(Clone, Copy, Debug, PartialEq, Eq, Structural)]
pub enum AuxiliaryOutcome {
    AllReady,
    SomeFailed,
}

/// What the caller reports to the sequencer.
#[derive(Debug)]
pub enum Event {
    /// The host was observed.
    HostObserved(HostObservations),
    /// Every override of the last action is written to the environment.
    OverridesApplied,
    /// The sink is built.
    SinkConstructed,
    /// The sink could not be built.
    SinkFailed,
    /// The consumer is attached to the facade.
    ConsumerBound,
    /// The facade turned out to have a consumer already.
    FacadeConflict,
    /// The auxiliary subsystems were gone through.
    AuxiliariesFinished(AuxiliaryOutcome),
}

/// What the sequencer asks the caller to do.
#[derive(Clone, Copy, Debug, PartialEq, Eq, Structural)]
pub enum Action {
    /// Write the variable of each of these overrides to the environment.
    ApplyOverrides(WorkaroundSet),
    /// Build the log sink from this configuration.
    ConstructSink(LogSink),
    /// Attach this consumer to the logging facade. For the console relay
    /// this includes installing the relay first.
    BindConsumer(Consumer),
    /// Initialize these subsystems; log a failure and go on.
    InitializeAuxiliaries(AuxiliarySet),
    /// Create the GUI surface and register the plugins.
    HandOff,
    /// End the process with the diagnostic of this failure.
    Abort(FatalError),
}

/// The state of a sequencer as the contracts speak of it.
pub struct SequencerState {
    pub phase: Phase,
    pub config: BootstrapConfig,
    pub context: Option<BootstrapContext>,
    /// The stage of the logging bootstrap.
    pub stage: Stage,
    /// The consumer of the logging facade, if it has one.
    pub facade: Option<Consumer>,
    /// Whether the overrides were reported as applied.
    pub environment_ready: bool,
}

impl SequencerState {
    /// The consistency of a state: the books of the logging bootstrap agree
    /// with the phase, the context is carried exactly while the sequence
    /// runs, and the logging bootstrap has not begun unless the overrides
    /// were applied.
    pub open spec fn wf(self) -> bool {
        &&& self.stage != Stage::Uninitialized ==> self.environment_ready
        &&& self.context matches Some(context) ==> {
            &&& context.sink == self.config.sink
            &&& context.overrides == record_of(overrides_for(self.config.policy, context.signals))
        }
        &&& match self.phase {
            Phase::AwaitingObservations => {
                &&& self.context is None
                &&& self.stage == Stage::Uninitialized
                &&& !self.environment_ready
            },
            Phase::ApplyingOverrides => {
                &&& self.context is Some
                &&& self.stage == Stage::Uninitialized
                &&& !self.environment_ready
            },
            Phase::ConstructingSink => {
                &&& self.context is Some
                &&& self.config.sink.is_valid()
                &&& self.stage == Stage::Constructed(self.config.sink)
            },
            Phase::BindingConsumer | Phase::InitializingAuxiliaries => {
                &&& self.context matches Some(context)
                &&& self.stage == Stage::Bound(
                    self.config.sink,
                    consumer_for(context.signals.build_mode),
                )
                &&& self.facade == Some(consumer_for(context.signals.build_mode))
            },
            Phase::HandedOff => {
                &&& self.context is None
                &&& self.stage matches Stage::Bound(sink, consumer)
                &&& sink == self.config.sink
                &&& self.facade == Some(consumer)
            },
            Phase::Aborted(_) => self.context is None,
        }
    }
}

/// The state in which a sequence starts.
pub open spec fn initial_state(config: BootstrapConfig, facade: Option<Consumer>) -> SequencerState {
    SequencerState {
        phase: Phase::AwaitingObservations,
        config,
        context: None,
        stage: Stage::Uninitialized,
        facade,
        environment_ready: false,
    }
}

/// Aborting: the phase records the failure and the context is dropped.
pub open spec fn aborted(state: SequencerState, error: FatalError) -> (SequencerState, Action) {
    (SequencerState { phase: Phase::Aborted(error), context: None, ..state }, Action::Abort(error))
}

/// Steps 1 and 2: the observations become signals, the signals become
/// overrides, and those that the target reads are to be applied.
pub open spec fn on_host_observed(state: SequencerState, observations: HostObservations) -> (
    SequencerState,
    Action,
) {
    let signals = signals_of(observations);
    let overrides = record_of(overrides_for(state.config.policy, signals));
    let context = BootstrapContext { signals, overrides, sink: state.config.sink };
    (
        SequencerState { phase: Phase::ApplyingOverrides, context: Some(context), ..state },
        Action::ApplyOverrides(record_of(writes_for(observations.target, overrides@))),
    )
}

/// Step 4, first half: with the environment ready, the logging bootstrap
/// takes the sink configuration, and the sink is to be built.
pub open spec fn on_overrides_applied(state: SequencerState) -> (SequencerState, Action) {
    let ready = SequencerState { environment_ready: true, ..state };
    let (stage, outcome) = construct_result(state.stage, state.config.sink);
    match outcome {
        Ok(_) => (
            SequencerState { phase: Phase::ConstructingSink, stage, ..ready },
            Action::ConstructSink(state.config.sink),
        ),
        Err(error) => aborted(ready, fatal_of(error)),
    }
}

/// Step 4, second half: the facade is claimed for the consumer that the
/// build mode selects, and the consumer is to be attached.
pub open spec fn on_sink_constructed(state: SequencerState) -> (SequencerState, Action) {
    match state.context {
        Some(context) => {
            let consumer = consumer_for(context.signals.build_mode);
            let (stage, facade, outcome) = bind_result(state.stage, state.facade, consumer);
            match outcome {
                Ok(_) => (
                    SequencerState { phase: Phase::BindingConsumer, stage, facade, ..state },
                    Action::BindConsumer(consumer),
                ),
                Err(error) => aborted(state, fatal_of(error)),
            }
        },
        None => aborted(state, FatalError::OutOfSequence),
    }
}

/// Step 5: the subsystems that the feature gate selects, but for the relay
/// that came with the bind, are to be initialized.
pub open spec fn on_consumer_bound(state: SequencerState) -> (SequencerState, Action) {
    match state.context {
        Some(context) => (
            SequencerState { phase: Phase::InitializingAuxiliaries, ..state },
            Action::InitializeAuxiliaries(
                deferred(auxiliaries_for(context.signals.build_mode, state.config.platform)),
            ),
        ),
        None => aborted(state, FatalError::OutOfSequence),
    }
}

/// Step 6: the sequence is complete and the context is dropped.
pub open spec fn on_auxiliaries_finished(state: SequencerState) -> (SequencerState, Action) {
    (SequencerState { phase: Phase::HandedOff, context: None, ..state }, Action::HandOff)
}

/// The transition of the sequencer: the state after `event` and the action
/// that answers it.
///
/// A finished sequence, handed off or aborted, stays as it is and repeats
/// its last action. In every other phase exactly the events of that phase
/// are taken, and any other event aborts the sequence.
pub open spec fn step_of(state: SequencerState, event: Event) -> (SequencerState, Action) {
    match state.phase {
        Phase::HandedOff => (state, Action::HandOff),
        Phase::Aborted(error) => (state, Action::Abort(error)),
        Phase::AwaitingObservations => match event {
            Event::HostObserved(observations) => on_host_observed(state, observations),
            _ => aborted(state, FatalError::OutOfSequence),
        },
        Phase::ApplyingOverrides => match event {
            Event::OverridesApplied => on_overrides_applied(state),
            _ => aborted(state, FatalError::OutOfSequence),
        },
        Phase::ConstructingSink => match event {
            Event::SinkConstructed => on_sink_constructed(state),
            Event::SinkFailed => aborted(state, FatalError::SinkConstructionFailed),
            _ => aborted(state, FatalError::OutOfSequence),
        },
        Phase::BindingConsumer => match event {
            Event::ConsumerBound => on_consumer_bound(state),
            Event::FacadeConflict => aborted(state, FatalError::FacadeAlreadyBound),
            _ => aborted(state, FatalError::OutOfSequence),
        },
        Phase::InitializingAuxiliaries => match event {
            Event::AuxiliariesFinished(_) => on_auxiliaries_finished(state),
            _ => aborted(state, FatalError::OutOfSequence),
        },
    }
}

/// The sequencer of the startup steps.
#[derive(Debug)]
pub struct Sequencer {
    phase: Phase,
    config: BootstrapConfig,
    context: Option<BootstrapContext>,
    logging: LoggingBootstrap,
    facade: LoggingFacade,
    environment_ready: bool,
}

impl View for Sequencer {
    type V = SequencerState;

    closed spec fn view(&self) -> SequencerState {
        SequencerState {
            phase: self.phase,
            config: self.config,
            context: self.context,
            stage: self.logging@,
            facade: self.facade@,
            environment_ready: self.environment_ready,
        }
    }
}

impl Sequencer {
    /// A sequencer at the start of the sequence. It takes over the logging
    /// facade of the process, which is unbound unless another backend
    /// claimed it before.
    pub fn new(config: BootstrapConfig, facade: LoggingFacade) -> (sequencer: Sequencer)
        ensures
            sequencer@ == initial_state(config, facade@),
            sequencer@.wf(),
    {
        Sequencer {
            phase: Phase::AwaitingObservations,
            config,
            context: None,
            logging: LoggingBootstrap::new(),
            facade,
            environment_ready: false,
        }
    }

    /// The step the sequence is at.
    pub fn phase(&self) -> (phase: Phase)
        ensures
            phase == self@.phase,
    {
        self.phase
    }

    /// What the sequence carries, while it runs.
    pub fn context(&self) -> (context: Option<BootstrapContext>)
        ensures
            context == self@.context,
    {
        self.context
    }

    /// The stage of the logging bootstrap.
    pub fn logging_stage(&self) -> (stage: Stage)
        ensures
            stage == self@.stage,
    {
        self.logging.stage()
    }

    /// The consumer of the logging facade, if it has one.
    pub fn facade_consumer(&self) -> (consumer: Option<Consumer>)
        ensures
            consumer == self@.facade,
    {
        self.facade.consumer()
    }

    /// Whether the overrides were reported as applied.
    pub fn environment_ready(&self) -> (ready: bool)
        ensures
            ready == self@.environment_ready,
    {
        self.environment_ready
    }

    fn abort(&mut self, error: FatalError) -> (action: Action)
        ensures
            (final(self)@, action) == aborted(old(self)@, error),
    {
        self.phase = Phase::Aborted(error);
        self.context = None;
        Action::Abort(error)
    }

    fn plan(&mut self, observations: &HostObservations) -> (action: Action)
        ensures
            (final(self)@, action) == on_host_observed(old(self)@, *observations),
    {
        let signals = probe(observations);
        let overrides = compute_overrides(self.config.policy, &signals);
        let writes = applicable_overrides(observations.target, &overrides);
        self.context = Some(BootstrapContext { signals, overrides, sink: self.config.sink });
        self.phase = Phase::ApplyingOverrides;
        Action::ApplyOverrides(writes)
    }

    fn begin_logging(&mut self) -> (action: Action)
        ensures
            (final(self)@, action) == on_overrides_applied(old(self)@),
    {
        self.environment_ready = true;
        match self.logging.construct(self.config.sink) {
            Ok(()) => {
                self.phase = Phase::ConstructingSink;
                Action::ConstructSink(self.config.sink)
            },
            Err(error) => self.abort(fatal_from(error)),
        }
    }

    fn claim_facade(&mut self) -> (action: Action)
        ensures
            (final(self)@, action) == on_sink_constructed(old(self)@),
    {
        match self.context {
            Some(context) => {
                let consumer = select_consumer(context.signals.build_mode);
                match self.logging.bind(&mut self.facade, consumer) {
                    Ok(()) => {
                        self.phase = Phase::BindingConsumer;
                        Action::BindConsumer(consumer)
                    },
                    Err(error) => self.abort(fatal_from(error)),
                }
            },
            None => self.abort(FatalError::OutOfSequence),
        }
    }

    fn start_auxiliaries(&mut self) -> (action: Action)
        ensures
            (final(self)@, action) == on_consumer_bound(old(self)@),
    {
        match self.context {
            Some(context) => {
                let selected = select_auxiliaries(context.signals.build_mode, self.config.platform);
                self.phase = Phase::InitializingAuxiliaries;
                Action::InitializeAuxiliaries(selected.after_bind())
            },
            None => self.abort(FatalError::OutOfSequence),
        }
    }

    fn hand_off(&mut self) -> (action: Action)
        ensures
            (final(self)@, action) == on_auxiliaries_finished(old(self)@),
    {
        self.phase = Phase::HandedOff;
        self.context = None;
        Action::HandOff
    }

    /// Takes the event that reports the caller's last step and returns the
    /// action to perform next.
    pub fn step(&mut self, event: Event) -> (action: Action)
        ensures
            (final(self)@, action) == step_of(old(self)@, event),
            old(self)@.wf() ==> final(self)@.wf(),
    {
        proof {
            if self@.wf() {
                lemma_step_preserves_wf(self@, event);
            }
        }
        match self.phase {
            Phase::HandedOff => Action::HandOff,
            Phase::Aborted(error) => Action::Abort(error),
            Phase::AwaitingObservations => match event {
                Event::HostObserved(observations) => self.plan(&observations),
                _ => self.abort(FatalError::OutOfSequence),
            },
            Phase::ApplyingOverrides => match event {
                Event::OverridesApplied => self.begin_logging(),
                _ => self.abort(FatalError::OutOfSequence),
            },
            Phase::ConstructingSink => match event {
                Event::SinkConstructed => self.claim_facade(),
                Event::SinkFailed => self.abort(FatalError::SinkConstructionFailed),
                _ => self.abort(FatalError::OutOfSequence),
            },
            Phase::BindingConsumer => match event {
                Event::ConsumerBound => self.start_auxiliaries(),
                Event::FacadeConflict => self.abort(FatalError::FacadeAlreadyBound),
                _ => self.abort(FatalError::OutOfSequence),
            },
            Phase::InitializingAuxiliaries => match event {
                Event::AuxiliariesFinished(_) => self.hand_off(),
                _ => self.abort(FatalError::OutOfSequence),
            },
        }
    }
}

/// Every transition leads from a consistent state to a consistent state.
pub proof fn lemma_step_preserves_wf(state: SequencerState, event: Event)
    requires
        state.wf(),
    ensures
        step_of(state, event).0.wf(),
{
}

/// The state after a whole series of events, taken one after the other.
pub open spec fn run_of(state: SequencerState, events: Seq<Event>) -> SequencerState
    decreases events.len(),
{
    if events.len() == 0 {
        state
    } else {
        run_of(step_of(state, events[0]).0, events.drop_first())
    }
}

/// Whatever the caller reports, and in whatever order, a sequence that
/// started consistent stays consistent. In particular the logging bootstrap
/// is never past its first stage unless the overrides were applied.
pub proof fn lemma_run_preserves_wf(state: SequencerState, events: Seq<Event>)
    requires
        state.wf(),
    ensures
        run_of(state, events).wf(),
        run_of(state, events).stage != Stage::Uninitialized ==> run_of(
            state,
            events,
        ).environment_ready,
    decreases events.len(),
{
    if events.len() > 0 {
        lemma_step_preserves_wf(state, events[0]);
        lemma_run_preserves_wf(step_of(state, events[0]).0, events.drop_first());
    }
}

/// How far a phase is into the sequence. Both ways of finishing count as
/// the end.
pub open spec fn progress_of(phase: Phase) -> nat {
    match phase {
        Phase::AwaitingObservations => 0,
        Phase::ApplyingOverrides => 1,
        Phase::ConstructingSink => 2,
        Phase::BindingConsumer => 3,
        Phase::InitializingAuxiliaries => 4,
        Phase::HandedOff => 5,
        Phase::Aborted(_) => 5,
    }
}

/// The order of the steps is fixed: every event takes a running sequence
/// exactly one step further or ends it, and no step is ever taken again.
pub proof fn lemma_steps_advance(state: SequencerState, event: Event)
    ensures
        progress_of(state.phase) < 5 ==> {
            let after = step_of(state, event).0.phase;
            ||| progress_of(after) == progress_of(state.phase) + 1
            ||| after is Aborted
        },
        progress_of(state.phase) == 5 ==> step_of(state, event).0 == state,
{
}

/// Five events are enough to finish any sequence.
pub proof fn lemma_sequence_finishes(state: SequencerState, events: Seq<Event>)
    requires
        progress_of(state.phase) + events.len() >= 5,
    ensures
        progress_of(run_of(state, events).phase) == 5,
    decreases events.len(),
{
    if progress_of(state.phase) == 5 {
        lemma_finished_is_final(state, events);
    } else {
        lemma_steps_advance(state, events[0]);
        lemma_sequence_finishes(step_of(state, events[0]).0, events.drop_first());
    }
}

/// The sink is asked for only in answer to the report that the overrides
/// are applied, so whatever was written to the environment is there to be
/// read when the construction of the sink begins. Likewise the overrides
/// are asked for only in answer to the observation of the host, and the
/// bind only in answer to the construction of the sink.
pub proof fn lemma_actions_follow_their_step(state: SequencerState, event: Event)
    ensures
        step_of(state, event).1 is ApplyOverrides ==> state.phase == Phase::AwaitingObservations
            && event is HostObserved,
        step_of(state, event).1 is ConstructSink ==> state.phase == Phase::ApplyingOverrides
            && event is OverridesApplied && step_of(state, event).0.environment_ready,
        step_of(state, event).1 is BindConsumer ==> state.phase == Phase::ConstructingSink
            && event is SinkConstructed,
        step_of(state, event).1 is InitializeAuxiliaries ==> state.phase == Phase::BindingConsumer
            && event is ConsumerBound,
{
}

/// The sequence is handed off only with the environment ready and the
/// facade bound to the consumer of the logging bootstrap.
pub proof fn lemma_hand_off_is_earned(state: SequencerState, event: Event)
    requires
        state.wf(),
    ensures
        step_of(state, event).1 is HandOff ==> {
            let after = step_of(state, event).0;
            &&& after.phase == Phase::HandedOff
            &&& after.environment_ready
            &&& after.stage matches Stage::Bound(_, consumer)
            &&& after.facade == Some(consumer)
        },
{
}

/// A finished sequence is final: no event changes its state, and it keeps
/// answering with the action it ended on.
pub proof fn lemma_finished_is_final(state: SequencerState, events: Seq<Event>)
    requires
        state.phase is Aborted || state.phase is HandedOff,
    ensures
        run_of(state, events) == state,
        forall|event: Event|
            #![trigger step_of(state, event)]
            step_of(state, event).0 == state && step_of(state, event).1 == (match state.phase {
                Phase::Aborted(error) => Action::Abort(error),
                _ => Action::HandOff,
            }),
    decreases events.len(),
{
    if events.len() > 0 {
        lemma_finished_is_final(state, events.drop_first());
    }
}

/// A failure while the sink is built or bound aborts the sequence, and an
/// aborted sequence is never handed off.
pub proof fn lemma_logging_failure_is_fatal(state: SequencerState, events: Seq<Event>)
    ensures
        state.phase == Phase::ConstructingSink ==> step_of(state, Event::SinkFailed).1
            == Action::Abort(FatalError::SinkConstructionFailed),
        state.phase == Phase::BindingConsumer ==> step_of(state, Event::FacadeConflict).1
            == Action::Abort(FatalError::FacadeAlreadyBound),
        state.phase == Phase::ConstructingSink && state.context is Some && state.facade
            is Some ==> step_of(
            state,
            Event::SinkConstructed,
        ).1 == Action::Abort(FatalError::FacadeAlreadyBound),
        state.phase == Phase::ApplyingOverrides && state.stage == Stage::Uninitialized
            && !state.config.sink.is_valid() ==> step_of(state, Event::OverridesApplied).1
            == Action::Abort(FatalError::InvalidSinkConfiguration),
        state.phase is Aborted ==> run_of(state, events).phase == state.phase,
{
    if state.phase is Aborted {
        lemma_finished_is_final(state, events);
    }
}

/// A failure of an auxiliary subsystem is absorbed: whatever the outcome,
/// the sequence is handed off.
pub proof fn lemma_auxiliary_failure_is_absorbed(state: SequencerState, outcome: AuxiliaryOutcome)
    requires
        state.phase == Phase::InitializingAuxiliaries,
    ensures
        step_of(state, Event::AuxiliariesFinished(outcome)).1 == Action::HandOff,
        step_of(state, Event::AuxiliariesFinished(outcome)).0.phase == Phase::HandedOff,
{
}

/// The sequence as it runs when nothing fails: from the start, with a valid
/// sink configuration and an unbound facade, the five reports are answered
/// by the five actions in their order.
pub proof fn lemma_complete_sequence(
    config: BootstrapConfig,
    observations: HostObservations,
    outcome: AuxiliaryOutcome,
)
    requires
        config.sink.is_valid(),
    ensures
        ({
            let signals = signals_of(observations);
            let overrides = overrides_for(config.policy, signals);
            let consumer = consumer_for(signals.build_mode);
            let start = initial_state(config, None);
            let (observed, first) = step_of(start, Event::HostObserved(observations));
            let (applied, second) = step_of(observed, Event::OverridesApplied);
            let (constructed, third) = step_of(applied, Event::SinkConstructed);
            let (bound, fourth) = step_of(constructed, Event::ConsumerBound);
            let (finished, fifth) = step_of(bound, Event::AuxiliariesFinished(outcome));
            &&& first == Action::ApplyOverrides(
                record_of(writes_for(observations.target, overrides)),
            )
            &&& observed.context == Some(
                BootstrapContext { signals, overrides: record_of(overrides), sink: config.sink },
            )
            &&& second == Action::ConstructSink(config.sink)
            &&& third == Action::BindConsumer(consumer)
            &&& fourth == Action::InitializeAuxiliaries(
                deferred(auxiliaries_for(signals.build_mode, config.platform)),
            )
            &&& fifth == Action::HandOff
            &&& finished.phase == Phase::HandedOff
            &&& finished.stage == Stage::Bound(config.sink, consumer)
            &&& finished.facade == Some(consumer)
            &&& finished.context is None
        }),
{
    let signals = signals_of(observations);
    crate::policy::lemma_record_of_view(
        overrides_for(config.policy, signals),
        record_of(overrides_for(config.policy, signals)),
    );
}

} // verus!
