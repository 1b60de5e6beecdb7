//! The logging bootstrap: the configuration of the log sink, the one-shot
//! ownership of the process-wide logging facade, and the stages that lead
//! from the one to the other.
//!
//! The types here keep the books. Building the sink and attaching it to the
//! facade is done by the caller, who reports back what happened.

use vstd::prelude::*;

verus! {

/// A place that log records are written to.
#[derive(Clone, Copy, Debug, PartialEq, Eq, Structural)]
pub enum LogTarget {
    /// The interactive console of the inspector.
    Console,
    Stdout,
    /// The log file in the application's log directory.
    LogDirectory,
}

/// A set of log targets, held as one flag per target.
#[derive(Clone, Copy, Debug, PartialEq, Eq, Structural)]
pub struct LogTargets {
    pub console: bool,
    pub stdout: bool,
    pub log_directory: bool,
}

impl View for LogTargets {
    type V = Set<LogTarget>;

    open spec fn view(&self) -> Set<LogTarget> {
        Set::new(
            |t: LogTarget|
                match t {
                    LogTarget::Console => self.console,
                    LogTarget::Stdout => self.stdout,
                    LogTarget::LogDirectory => self.log_directory,
                },
        )
    }
}

impl LogTargets {
    /// The set without any target.
    pub fn empty() -> (targets: LogTargets)
        ensures
            targets@ == Set::<LogTarget>::empty(),
            targets == no_targets(),
    {
        LogTargets { console: false, stdout: false, log_directory: false }
    }

    /// Whether the set holds `target`.
    pub fn contains(&self, target: LogTarget) -> (present: bool)
        ensures
            present == self@.contains(target),
    {
        match target {
            LogTarget::Console => self.console,
            LogTarget::Stdout => self.stdout,
            LogTarget::LogDirectory => self.log_directory,
        }
    }

    /// The set with `target` added.
    pub fn with(&self, target: LogTarget) -> (targets: LogTargets)
        ensures
            targets@ == self@.insert(target),
            targets == with_target(*self, target),
    {
        match target {
            LogTarget::Console => LogTargets {
                console: true,
                stdout: self.stdout,
                log_directory: self.log_directory,
            },
            LogTarget::Stdout => LogTargets {
                console: self.console,
                stdout: true,
                log_directory: self.log_directory,
            },
            LogTarget::LogDirectory => LogTargets {
                console: self.console,
                stdout: self.stdout,
                log_directory: true,
            },
        }
    }
}

/// The record that holds no target.
pub open spec fn no_targets() -> LogTargets {
    LogTargets { console: false, stdout: false, log_directory: false }
}

/// The record that holds the targets of `targets` and `target`.
pub open spec fn with_target(targets: LogTargets, target: LogTarget) -> LogTargets {
    match target {
        LogTarget::Console => LogTargets { console: true, ..targets },
        LogTarget::Stdout => LogTargets { stdout: true, ..targets },
        LogTarget::LogDirectory => LogTargets { log_directory: true, ..targets },
    }
}

/// What happens to a log file that has reached its maximal size.
#[derive(Clone, Copy, Debug, PartialEq, Eq, Structural)]
pub enum RotationPolicy {
    KeepAll,
    KeepOne,
}

/// The clock that timestamps are taken from.
#[derive(Clone, Copy, Debug, PartialEq, Eq, Structural)]
pub enum TimezonePolicy {
    Local,
    Utc,
}

/// The configuration of the log sink.
///
/// Rotation and timezone are passed through to whoever builds the sink.
/// Their values are held to the enumerated ones by their types, so the
/// file size is the one field that can be out of range.
#[derive(Clone, Copy, Debug, PartialEq, Eq, Structural)]
pub struct LogSink {
    pub targets: LogTargets,
    pub max_file_size_bytes: u128,
    pub rotation_policy: RotationPolicy,
    pub timezone_policy: TimezonePolicy,
}

/// Why a step of the logging bootstrap was refused.
#[derive(Clone, Copy, Debug, PartialEq, Eq, Structural)]
pub enum LoggingError {
    /// The sink configuration asks for a maximal file size of zero.
    InvalidConfiguration,
    /// The step does not follow the stage the bootstrap is in.
    OutOfOrder,
    /// The facade already has a consumer.
    FacadeAlreadyBound,
}

impl LogSink {
    /// A configuration is valid when its maximal file size is positive.
    pub open spec fn is_valid(self) -> bool {
        self.max_file_size_bytes > 0
    }

    /// Checks the configuration.
    pub fn validate(&self) -> (outcome: Result<(), LoggingError>)
        ensures
            outcome == (if self.is_valid() {
                Ok::<(), LoggingError>(())
            } else {
                Err::<(), LoggingError>(LoggingError::InvalidConfiguration)
            }),
    {
        if self.max_file_size_bytes > 0 {
            Ok(())
        } else {
            Err(LoggingError::InvalidConfiguration)
        }
    }

    /// The configuration the launcher starts with: standard output and the
    /// log directory, files of at most ten million bytes of which only the
    /// latest is kept, and timestamps in local time.
    pub fn standard() -> (sink: LogSink)
        ensures
            sink == standard_sink(),
            sink.is_valid(),
    {
        LogSink {
            targets: LogTargets { console: false, stdout: true, log_directory: true },
            max_file_size_bytes: 10_000_000,
            rotation_policy: RotationPolicy::KeepOne,
            timezone_policy: TimezonePolicy::Local,
        }
    }
}

/// The configuration the launcher starts with.
pub open spec fn standard_sink() -> LogSink {
    LogSink {
        targets: LogTargets { console: false, stdout: true, log_directory: true },
        max_file_size_bytes: 10_000_000,
        rotation_policy: RotationPolicy::KeepOne,
        timezone_policy: TimezonePolicy::Local,
    }
}

/// Who receives the records that pass through the facade.
#[derive(Clone, Copy, Debug, PartialEq, Eq, Structural)]
pub enum Consumer {
    /// The sink itself.
    PlainSink,
    /// The interactive console, which shows each record and forwards it to
    /// the sink.
    ConsoleRelay,
}

/// What binding `consumer` does to a facade whose consumer so far is
/// `bound`: the new state of the facade, and the outcome of the call.
pub open spec fn facade_bind_result(bound: Option<Consumer>, consumer: Consumer) -> (
    Option<Consumer>,
    Result<(), LoggingError>,
) {
    match bound {
        None => (Some(consumer), Ok(())),
        Some(_) => (bound, Err(LoggingError::FacadeAlreadyBound)),
    }
}

/// The process-wide logging facade. It starts unbound, is bound to one
/// consumer, and stays bound to it.
#[derive(Debug)]
pub struct LoggingFacade {
    bound: Option<Consumer>,
}

impl View for LoggingFacade {
    type V = Option<Consumer>;

    closed spec fn view(&self) -> Option<Consumer> {
        self.bound
    }
}

impl LoggingFacade {
    /// A facade that nobody has claimed yet.
    pub fn unbound() -> (facade: LoggingFacade)
        ensures
            facade@ is None,
    {
        LoggingFacade { bound: None }
    }

    /// A facade that another logging backend claimed before the launcher
    /// got to it.
    pub fn claimed_by(consumer: Consumer) -> (facade: LoggingFacade)
        ensures
            facade@ == Some(consumer),
    {
        LoggingFacade { bound: Some(consumer) }
    }

    /// Whether the facade has a consumer.
    pub fn is_bound(&self) -> (bound: bool)
        ensures
            bound == self@ is Some,
    {
        self.bound.is_some()
    }

    /// The consumer of the facade, if it has one.
    pub fn consumer(&self) -> (consumer: Option<Consumer>)
        ensures
            consumer == self@,
    {
        self.bound
    }

    /// Claims the facade for `consumer`. A facade that is already bound
    /// refuses and keeps its consumer.
    pub fn bind(&mut self, consumer: Consumer) -> (outcome: Result<(), LoggingError>)
        ensures
            (final(self)@, outcome) == facade_bind_result(old(self)@, consumer),
            old(self)@ is Some ==> outcome == Err::<(), LoggingError>(
                LoggingError::FacadeAlreadyBound,
            ) && final(self)@ == old(self)@,
    {
        if self.bound.is_some() {
            Err(LoggingError::FacadeAlreadyBound)
        } else {
            self.bound = Some(consumer);
            Ok(())
        }
    }
}

/// How far the logging bootstrap has come.
#[derive(Clone, Copy, Debug, PartialEq, Eq, Structural)]
pub enum Stage {
    Uninitialized,
    /// The sink is configured; the facade is not claimed.
    Constructed(LogSink),
    /// The facade is bound to the consumer, which writes to the sink.
    Bound(LogSink, Consumer),
}

/// What constructing a sink from `config` does at `stage`: the new stage,
/// and the outcome of the call.
pub open spec fn construct_result(stage: Stage, config: LogSink) -> (
    Stage,
    Result<(), LoggingError>,
) {
    match stage {
        Stage::Uninitialized => if config.is_valid() {
            (Stage::Constructed(config), Ok(()))
        } else {
            (stage, Err(LoggingError::InvalidConfiguration))
        },
        _ => (stage, Err(LoggingError::OutOfOrder)),
    }
}

/// What binding `consumer` does at `stage` to a facade whose consumer so
/// far is `facade`: the new stage, the new state of the facade, and the
/// outcome of the call. A bound facade is reported before anything else.
pub open spec fn bind_result(stage: Stage, facade: Option<Consumer>, consumer: Consumer) -> (
    Stage,
    Option<Consumer>,
    Result<(), LoggingError>,
) {
    match facade {
        Some(_) => (stage, facade, Err(LoggingError::FacadeAlreadyBound)),
        None => match stage {
            Stage::Constructed(sink) => (Stage::Bound(sink, consumer), Some(consumer), Ok(())),
            _ => (stage, facade, Err(LoggingError::OutOfOrder)),
        },
    }
}

/// The targets that receive records at `stage`. Before the facade is bound
/// nothing is delivered; the console relay delivers to the console and to
/// every target of the sink.
pub open spec fn receiving_targets(stage: Stage) -> LogTargets {
    match stage {
        Stage::Bound(sink, Consumer::PlainSink) => sink.targets,
        Stage::Bound(sink, Consumer::ConsoleRelay) => with_target(sink.targets, LogTarget::Console),
        _ => no_targets(),
    }
}

/// The bootstrap of the logging subsystem.
#[derive(Debug)]
pub struct LoggingBootstrap {
    stage: Stage,
}

impl View for LoggingBootstrap {
    type V = Stage;

    closed spec fn view(&self) -> Stage {
        self.stage
    }
}

impl LoggingBootstrap {
    /// A bootstrap that has not begun.
    pub fn new() -> (bootstrap: LoggingBootstrap)
        ensures
            bootstrap@ == Stage::Uninitialized,
    {
        LoggingBootstrap { stage: Stage::Uninitialized }
    }

    /// The stage the bootstrap is in.
    pub fn stage(&self) -> (stage: Stage)
        ensures
            stage == self@,
    {
        self.stage
    }

    /// Takes the configuration of the sink, without claiming the facade.
    /// This succeeds whenever the bootstrap has not begun and the
    /// configuration is valid.
    pub fn construct(&mut self, config: LogSink) -> (outcome: Result<(), LoggingError>)
        ensures
            (final(self)@, outcome) == construct_result(old(self)@, config),
    {
        match self.stage {
            Stage::Uninitialized => {
                match config.validate() {
                    Ok(()) => {
                        self.stage = Stage::Constructed(config);
                        Ok(())
                    },
                    Err(error) => Err(error),
                }
            },
            _ => Err(LoggingError::OutOfOrder),
        }
    }

    /// Claims the facade for `consumer`. A facade that is already bound
    /// makes the call fail, whatever the stage: the second of two binds is
    /// an error, never a step that silently does nothing.
    pub fn bind(&mut self, facade: &mut LoggingFacade, consumer: Consumer) -> (outcome: Result<
        (),
        LoggingError,
    >)
        ensures
            (final(self)@, final(facade)@, outcome) == bind_result(
                old(self)@,
                old(facade)@,
                consumer,
            ),
            old(facade)@ is Some ==> outcome == Err::<(), LoggingError>(
                LoggingError::FacadeAlreadyBound,
            ) && final(self)@ == old(self)@ && final(facade)@ == old(facade)@,
    {
        if facade.is_bound() {
            return Err(LoggingError::FacadeAlreadyBound);
        }
        match self.stage {
            Stage::Constructed(sink) => {
                let claimed = facade.bind(consumer);
                self.stage = Stage::Bound(sink, consumer);
                claimed
            },
            _ => Err(LoggingError::OutOfOrder),
        }
    }

    /// The targets that receive records at the present stage.
    pub fn active_targets(&self) -> (targets: LogTargets)
        ensures
            targets == receiving_targets(self@),
    {
        match self.stage {
            Stage::Bound(sink, Consumer::PlainSink) => sink.targets,
            Stage::Bound(sink, Consumer::ConsoleRelay) => sink.targets.with(LogTarget::Console),
            _ => LogTargets::empty(),
        }
    }
}

/// The second of two binds on the same bootstrap and facade fails and
/// changes nothing. Where the first bind succeeded, the second reports the
/// bound facade.
pub proof fn lemma_second_bind_fails(
    stage: Stage,
    facade: Option<Consumer>,
    first: Consumer,
    second: Consumer,
)
    ensures
        ({
            let (stage_1, facade_1, outcome_1) = bind_result(stage, facade, first);
            let (stage_2, facade_2, outcome_2) = bind_result(stage_1, facade_1, second);
            &&& outcome_2 is Err
            &&& outcome_1 is Ok ==> outcome_2 == Err::<(), LoggingError>(
                LoggingError::FacadeAlreadyBound,
            )
            &&& stage_2 == stage_1
            &&& facade_2 == facade_1
        }),
{
}

/// A facade keeps the consumer it was bound to first.
pub proof fn lemma_facade_keeps_first_consumer(
    bound: Option<Consumer>,
    first: Consumer,
    second: Consumer,
)
    ensures
        ({
            let (bound_1, outcome_1) = facade_bind_result(bound, first);
            let (bound_2, outcome_2) = facade_bind_result(bound_1, second);
            &&& bound_1 is Some
            &&& bound_2 == bound_1
            &&& outcome_2 == Err::<(), LoggingError>(LoggingError::FacadeAlreadyBound)
        }),
{
}

} // verus!
