//! The lifecycle of the processing pipeline, as a machine without effects.
//!
//! The engine owns one pipeline at a time. It builds it from the current
//! source configuration, announces it, runs it on a worker, watches the
//! command channel, and tears it down again when it is told to stop or to
//! change the source. Everything that touches a thread or a channel is the
//! driver's work. The machine here holds the decisions: it names the next
//! thing to do as a [`Directive`], is told what came of it as an
//! [`Occurrence`], and moves on.
//!
//! A worker that ends with a fault is not told apart from one that ends in
//! good order: `Joined` carries nothing, and the engine goes on as its
//! exit mark says.

use crate::messages::command::Command;
use crate::messages::state::{EngineState, SourceConfig};
use crate::messages::units::Hertz;
use vstd::prelude::*;

verus! {

/// Number of bins in every frame, fixed for all pipelines.
pub const FFT_SIZE: usize = 4096;

/// How long one poll of the command channel may block, in milliseconds. The
/// bound is what lets the engine notice a worker that ended by itself.
pub const POLL_TIMEOUT_MS: u64 = 100;

/// Why a run ended in failure.
#[derive(Debug, Clone, Copy, PartialEq, Eq, Structural)]
pub enum EngineError {
    /// The pipeline could not be built from the source configuration.
    Construction,
    /// The event sink was closed when a state snapshot was to be published.
    SinkClosed,
}

/// Where the engine stands in its cycle. Each stage waits for the outcome of
/// one directive.
#[derive(Debug, Clone, Copy, PartialEq, Eq, Structural)]
pub enum Stage {
    /// A pipeline is to be built from the current configuration.
    Building,
    /// The pipeline is built; its state snapshot is to be published.
    Announcing,
    /// The snapshot is out; the worker is to be started.
    Launching,
    /// The worker runs; the command channel is polled.
    Supervising,
    /// The worker is to be told to stop.
    Cancelling,
    /// The worker is to be joined.
    Joining,
    /// The run ended in good order.
    Finished,
    /// The run ended in failure.
    Failed(EngineError),
}

/// What one poll of the command channel brought.
#[derive(Debug, PartialEq, Eq)]
pub enum PollOutcome {
    /// A command arrived.
    Received(Command),
    /// Every sender is gone: no command will ever arrive.
    Disconnected,
    /// Nothing arrived in time. `worker_finished` tells whether the worker
    /// has ended by itself.
    TimedOut { worker_finished: bool },
}

/// What came of the directive that the driver carried out.
#[derive(Debug, PartialEq, Eq)]
pub enum Occurrence {
    /// The pipeline was built; `sample_rate` is the rate it really runs at.
    Built { sample_rate: Hertz },
    /// The pipeline could not be built.
    BuildFailed,
    /// The snapshot was accepted by the event sink.
    Published,
    /// The event sink is closed.
    SinkClosed,
    /// The worker was started.
    Launched,
    /// The command channel was polled once.
    Polled(PollOutcome),
    /// The worker was told to stop.
    Cancelled,
    /// The worker has ended and was joined.
    Joined,
}

/// The next thing the driver has to do.
#[derive(Debug, PartialEq, Eq)]
pub enum Directive {
    /// Build a pipeline from `config` that emits frames of `fft_size` bins.
    Build { config: SourceConfig, fft_size: usize },
    /// Publish this snapshot on the event sink.
    Publish(EngineState),
    /// Start the pipeline on its worker.
    Launch,
    /// Wait for a command, for `timeout_ms` milliseconds at most.
    Poll { timeout_ms: u64 },
    /// Tell the worker to stop.
    Cancel,
    /// Wait for the worker to end.
    Join,
    /// Return from the run with this result.
    Finish(Result<(), EngineError>),
}

/// The engine as a value: all that its decisions depend on.
pub struct EngineView {
    /// The configuration the next pipeline is built from.
    pub config: SourceConfig,
    /// Whether the run ends when the current pipeline is torn down.
    pub should_exit: bool,
    /// The stage the engine is in.
    pub stage: Stage,
    /// The rate of the pipeline that was built last.
    pub sample_rate: Hertz,
}

impl EngineView {
    /// The engine before its first pipeline.
    pub open spec fn fresh(config: SourceConfig) -> EngineView {
        EngineView { config, should_exit: false, stage: Stage::Building, sample_rate: Hertz(0) }
    }

    /// The snapshot that announces the pipeline built last.
    pub open spec fn snapshot(self) -> EngineState {
        EngineState {
            center_frequency: Hertz(0),
            sample_rate: self.sample_rate,
            fft_size: FFT_SIZE,
            source_config: self.config,
        }
    }

    /// The directive the engine waits on. It depends on the stage alone,
    /// apart from the values it hands out.
    pub open spec fn directive(self) -> Directive {
        match self.stage {
            Stage::Building => Directive::Build { config: self.config, fft_size: FFT_SIZE },
            Stage::Announcing => Directive::Publish(self.snapshot()),
            Stage::Launching => Directive::Launch,
            Stage::Supervising => Directive::Poll { timeout_ms: POLL_TIMEOUT_MS },
            Stage::Cancelling => Directive::Cancel,
            Stage::Joining => Directive::Join,
            Stage::Finished => Directive::Finish(Ok(())),
            Stage::Failed(e) => Directive::Finish(Err(e)),
        }
    }

    /// The engine after one poll while it supervises. In any other stage a
    /// poll changes nothing.
    pub open spec fn supervise(self, outcome: PollOutcome) -> EngineView {
        if self.stage != Stage::Supervising {
            self
        } else {
            match outcome {
                PollOutcome::Received(Command::Stop) | PollOutcome::Disconnected => EngineView {
                    should_exit: true,
                    stage: Stage::Cancelling,
                    ..self
                },
                PollOutcome::Received(Command::ChangeSource(config)) => EngineView {
                    config,
                    stage: Stage::Cancelling,
                    ..self
                },
                PollOutcome::TimedOut { worker_finished } => if worker_finished {
                    EngineView { should_exit: true, stage: Stage::Joining, ..self }
                } else {
                    self
                },
            }
        }
    }

    /// The engine after `event`. An event that does not answer the stage the
    /// engine is in changes nothing.
    pub open spec fn step(self, event: Occurrence) -> EngineView {
        match (self.stage, event) {
            (Stage::Building, Occurrence::Built { sample_rate }) => EngineView {
                stage: Stage::Announcing,
                sample_rate,
                ..self
            },
            (Stage::Building, Occurrence::BuildFailed) => EngineView {
                stage: Stage::Failed(EngineError::Construction),
                ..self
            },
            (Stage::Announcing, Occurrence::Published) => EngineView {
                stage: Stage::Launching,
                ..self
            },
            (Stage::Announcing, Occurrence::SinkClosed) => EngineView {
                stage: Stage::Failed(EngineError::SinkClosed),
                ..self
            },
            (Stage::Launching, Occurrence::Launched) => EngineView {
                stage: Stage::Supervising,
                ..self
            },
            (Stage::Supervising, Occurrence::Polled(outcome)) => self.supervise(outcome),
            (Stage::Cancelling, Occurrence::Cancelled) => EngineView {
                stage: Stage::Joining,
                ..self
            },
            (Stage::Joining, Occurrence::Joined) => EngineView {
                stage: if self.should_exit {
                    Stage::Finished
                } else {
                    Stage::Building
                },
                ..self
            },
            _ => self,
        }
    }

    /// Whether the run is over: nothing remains but to return.
    pub open spec fn halted(self) -> bool {
        self.stage == Stage::Finished || self.stage is Failed
    }
}

/// The lifecycle manager of the processing pipeline.
pub struct Engine {
    current_config: SourceConfig,
    should_exit: bool,
    stage: Stage,
    sample_rate: Hertz,
}

impl View for Engine {
    type V = EngineView;

    closed spec fn view(&self) -> EngineView {
        EngineView {
            config: self.current_config,
            should_exit: self.should_exit,
            stage: self.stage,
            sample_rate: self.sample_rate,
        }
    }
}

impl Engine {
    /// Creates the engine for `source_config`. Nothing is built, started or
    /// sent: the engine stands before its first pipeline.
    pub fn new(source_config: SourceConfig) -> (r: Engine)
        ensures
            r@ == EngineView::fresh(source_config),
    {
        Engine {
            current_config: source_config,
            should_exit: false,
            stage: Stage::Building,
            sample_rate: Hertz(0),
        }
    }

    /// The stage the engine is in.
    pub fn stage(&self) -> (r: Stage)
        ensures
            r == self@.stage,
    {
        self.stage
    }

    /// Whether the run ends once the current pipeline is torn down.
    pub fn should_exit(&self) -> (r: bool)
        ensures
            r == self@.should_exit,
    {
        self.should_exit
    }

    /// The configuration the next pipeline is built from.
    pub fn current_config(&self) -> (r: &SourceConfig)
        ensures
            *r == self@.config,
    {
        &self.current_config
    }

    /// The snapshot that announces the pipeline built last: no tuning, the
    /// rate the pipeline runs at, the fixed frame size and the source.
    pub fn snapshot(&self) -> (r: EngineState)
        ensures
            r == self@.snapshot(),
    {
        EngineState {
            center_frequency: Hertz(0),
            sample_rate: self.sample_rate,
            fft_size: FFT_SIZE,
            source_config: self.current_config.clone(),
        }
    }

    /// The directive the engine waits on.
    pub fn directive(&self) -> (r: Directive)
        ensures
            r == self@.directive(),
    {
        match self.stage {
            Stage::Building => Directive::Build {
                config: self.current_config.clone(),
                fft_size: FFT_SIZE,
            },
            Stage::Announcing => Directive::Publish(self.snapshot()),
            Stage::Launching => Directive::Launch,
            Stage::Supervising => Directive::Poll { timeout_ms: POLL_TIMEOUT_MS },
            Stage::Cancelling => Directive::Cancel,
            Stage::Joining => Directive::Join,
            Stage::Finished => Directive::Finish(Ok(())),
            Stage::Failed(e) => Directive::Finish(Err(e)),
        }
    }

    /// Takes in what one poll of the command channel brought. A stop, or a
    /// channel that no one can send on any more, marks the exit and has the
    /// worker cancelled. A new source replaces the configuration and has the
    /// worker cancelled, without marking the exit. A timeout marks the exit
    /// when the worker has ended by itself, and else leaves the engine
    /// polling.
    pub fn process_commands(&mut self, outcome: PollOutcome)
        ensures
            final(self)@ == old(self)@.supervise(outcome),
    {
        if self.stage != Stage::Supervising {
            return ;
        }
        match outcome {
            PollOutcome::Received(Command::Stop) | PollOutcome::Disconnected => {
                self.should_exit = true;
                self.stage = Stage::Cancelling;
            },
            PollOutcome::Received(Command::ChangeSource(new_config)) => {
                self.current_config = new_config;
                self.stage = Stage::Cancelling;
            },
            PollOutcome::TimedOut { worker_finished } => {
                if worker_finished {
                    self.should_exit = true;
                    self.stage = Stage::Joining;
                }
            },
        }
    }

    /// Takes in what came of the last directive and answers with the next
    /// one. An event that does not answer the pending directive is ignored,
    /// and the same directive is given again.
    pub fn step(&mut self, event: Occurrence) -> (next: Directive)
        ensures
            final(self)@ == old(self)@.step(event),
            next == final(self)@.directive(),
    {
        match event {
            Occurrence::Built { sample_rate } => {
                if self.stage == Stage::Building {
                    self.sample_rate = sample_rate;
                    self.stage = Stage::Announcing;
                }
            },
            Occurrence::BuildFailed => {
                if self.stage == Stage::Building {
                    self.stage = Stage::Failed(EngineError::Construction);
                }
            },
            Occurrence::Published => {
                if self.stage == Stage::Announcing {
                    self.stage = Stage::Launching;
                }
            },
            Occurrence::SinkClosed => {
                if self.stage == Stage::Announcing {
                    self.stage = Stage::Failed(EngineError::SinkClosed);
                }
            },
            Occurrence::Launched => {
                if self.stage == Stage::Launching {
                    self.stage = Stage::Supervising;
                }
            },
            Occurrence::Polled(outcome) => {
                self.process_commands(outcome);
            },
            Occurrence::Cancelled => {
                if self.stage == Stage::Cancelling {
                    self.stage = Stage::Joining;
                }
            },
            Occurrence::Joined => {
                if self.stage == Stage::Joining {
                    self.stage = if self.should_exit {
                        Stage::Finished
                    } else {
                        Stage::Building
                    };
                }
            },
        }
        self.directive()
    }
}

/// Whether `event` is a possible outcome of carrying out `directive`.
pub open spec fn spec_answers(directive: Directive, event: Occurrence) -> bool {
    match directive {
        Directive::Build { .. } => event is Built || event is BuildFailed,
        Directive::Publish(_) => event is Published || event is SinkClosed,
        Directive::Launch => event is Launched,
        Directive::Poll { .. } => event is Polled,
        Directive::Cancel => event is Cancelled,
        Directive::Join => event is Joined,
        Directive::Finish(_) => false,
    }
}

/// The engine after the first `n` of `events`.
pub open spec fn spec_after(start: EngineView, events: Seq<Occurrence>, n: nat) -> EngineView
    decreases n,
{
    if n == 0 {
        start
    } else {
        spec_after(start, events, (n - 1) as nat).step(events[n - 1])
    }
}

/// Whether `events` is a run from `start`: every event is an outcome of the
/// directive that was pending when it happened. A run is over once the
/// pending directive is to finish, which nothing answers.
pub open spec fn spec_is_run(start: EngineView, events: Seq<Occurrence>) -> bool {
    forall|i: nat|
        i < events.len() ==> spec_answers(
            (#[trigger] spec_after(start, events, i)).directive(),
            events[i as int],
        )
}

/// Whether the engine may pass from stage `before` to stage `after` in one
/// step of a run.
pub open spec fn spec_follows(before: Stage, after: Stage) -> bool {
    match after {
        Stage::Building => before == Stage::Joining,
        Stage::Announcing => before == Stage::Building,
        Stage::Launching => before == Stage::Announcing,
        Stage::Supervising => before == Stage::Launching || before == Stage::Supervising,
        Stage::Cancelling => before == Stage::Supervising,
        Stage::Joining => before == Stage::Cancelling || before == Stage::Supervising,
        Stage::Finished => before == Stage::Joining,
        Stage::Failed(EngineError::Construction) => before == Stage::Building,
        Stage::Failed(EngineError::SinkClosed) => before == Stage::Announcing,
    }
}

/// Whether every poll among `events` brought the order to stop, as a command
/// or as a command channel that no one holds any more.
pub open spec fn spec_polls_say_stop(events: Seq<Occurrence>) -> bool {
    forall|i: int|
        0 <= i < events.len() && (#[trigger] events[i]) is Polled ==> events[i]
            == Occurrence::Polled(PollOutcome::Received(Command::Stop)) || events[i]
            == Occurrence::Polled(PollOutcome::Disconnected)
}

/// The most events a run from `m` can hold when every poll says stop.
pub open spec fn spec_stop_bound(m: EngineView) -> nat {
    match m.stage {
        Stage::Building => 6,
        Stage::Announcing => 5,
        Stage::Launching => 4,
        Stage::Supervising => 3,
        Stage::Cancelling => if m.should_exit {
            2
        } else {
            8
        },
        Stage::Joining => if m.should_exit {
            1
        } else {
            7
        },
        Stage::Finished => 0,
        Stage::Failed(_) => 0,
    }
}

/// In a run the stages follow each other in one fixed order: a pipeline is
/// built, announced, launched, supervised, cancelled unless it ended by
/// itself, and joined, and only then the next one is built or the run ends.
/// So no snapshot is published while a worker lives, and none twice for one
/// pipeline.
pub proof fn law_stage_order(start: EngineView, events: Seq<Occurrence>, i: nat)
    requires
        spec_is_run(start, events),
        1 <= i <= events.len(),
    ensures
        spec_follows(
            spec_after(start, events, (i - 1) as nat).stage,
            spec_after(start, events, i).stage,
        ),
{
    let before = spec_after(start, events, (i - 1) as nat);
    assert(spec_answers(before.directive(), events[i - 1]));
}

/// In a run of a fresh engine a worker is launched only after its pipeline
/// was built and exactly that pipeline was announced: the two events before
/// the launch are the build and the publication of the snapshot, and the
/// snapshot carries no tuning, the rate the build reported, the fixed frame
/// size and the configuration the build was given. The first thing a run
/// puts on the event sink is therefore a snapshot.
pub proof fn law_snapshot_precedes_launch(config: SourceConfig, events: Seq<Occurrence>, i: nat)
    requires
        spec_is_run(EngineView::fresh(config), events),
        i <= events.len(),
        spec_after(EngineView::fresh(config), events, i).directive() == Directive::Launch,
    ensures
        i >= 2,
        events[i - 2] is Built,
        events[i - 1] == Occurrence::Published,
        spec_after(EngineView::fresh(config), events, (i - 2) as nat).directive()
            == (Directive::Build {
            config: spec_after(EngineView::fresh(config), events, i).config,
            fft_size: FFT_SIZE,
        }),
        spec_after(EngineView::fresh(config), events, (i - 1) as nat).directive()
            == Directive::Publish(
            EngineState {
                center_frequency: Hertz(0),
                sample_rate: events[i - 2]->sample_rate,
                fft_size: FFT_SIZE,
                source_config: spec_after(EngineView::fresh(config), events, i).config,
            },
        ),
{
    let start = EngineView::fresh(config);
    let announced = spec_after(start, events, (i - 1) as nat);
    assert(spec_answers(announced.directive(), events[i - 1]));
    let built = spec_after(start, events, (i - 2) as nat);
    assert(spec_answers(built.directive(), events[i - 2]));
}

/// How many of the first `n` of `events` tell of a pipeline that was built.
pub open spec fn spec_built(events: Seq<Occurrence>, n: nat) -> nat
    decreases n,
{
    if n == 0 {
        0
    } else if events[n - 1] is Built {
        spec_built(events, (n - 1) as nat) + 1
    } else {
        spec_built(events, (n - 1) as nat)
    }
}

/// How many of the first `n` of `events` tell of a snapshot that was
/// published.
pub open spec fn spec_published(events: Seq<Occurrence>, n: nat) -> nat
    decreases n,
{
    if n == 0 {
        0
    } else if events[n - 1] == Occurrence::Published {
        spec_published(events, (n - 1) as nat) + 1
    } else {
        spec_published(events, (n - 1) as nat)
    }
}

/// How many of the first `n` of `events` tell of a worker that was
/// launched.
pub open spec fn spec_launched(events: Seq<Occurrence>, n: nat) -> nat
    decreases n,
{
    if n == 0 {
        0
    } else if events[n - 1] == Occurrence::Launched {
        spec_launched(events, (n - 1) as nat) + 1
    } else {
        spec_launched(events, (n - 1) as nat)
    }
}

/// In a run of a fresh engine every pipeline is announced exactly once
/// before its worker is launched: at every moment as many snapshots were
/// published as workers were launched, and one more just while a launch is
/// pending. Pipelines were built as often as snapshots were published, and
/// once more just while the snapshot is pending or could not be published.
pub proof fn law_one_snapshot_per_pipeline(config: SourceConfig, events: Seq<Occurrence>, n: nat)
    requires
        spec_is_run(EngineView::fresh(config), events),
        n <= events.len(),
    ensures
        spec_published(events, n) == spec_launched(events, n) + if spec_after(
            EngineView::fresh(config),
            events,
            n,
        ).stage == Stage::Launching {
            1nat
        } else {
            0nat
        },
        spec_built(events, n) == spec_published(events, n) + if spec_after(
            EngineView::fresh(config),
            events,
            n,
        ).stage == Stage::Announcing || spec_after(EngineView::fresh(config), events, n).stage
            == Stage::Failed(EngineError::SinkClosed) {
            1nat
        } else {
            0nat
        },
    decreases n,
{
    if n > 0 {
        law_one_snapshot_per_pipeline(config, events, (n - 1) as nat);
        let before = spec_after(EngineView::fresh(config), events, (n - 1) as nat);
        assert(spec_answers(before.directive(), events[n - 1]));
    }
}

/// The exit is marked only while the last pipeline is torn down: in every
/// stage before that, whatever events came, the engine of a fresh start is
/// set to go on.
pub proof fn law_exit_marked_on_teardown(config: SourceConfig, events: Seq<Occurrence>, n: nat)
    ensures
        spec_after(EngineView::fresh(config), events, n).should_exit ==> {
            let stage = spec_after(EngineView::fresh(config), events, n).stage;
            stage == Stage::Cancelling || stage == Stage::Joining || stage == Stage::Finished
        },
    decreases n,
{
    if n > 0 {
        law_exit_marked_on_teardown(config, events, (n - 1) as nat);
    }
}

/// How many of the first `n` of `events` are polls of the command channel.
pub open spec fn spec_polled(events: Seq<Occurrence>, n: nat) -> nat
    decreases n,
{
    if n == 0 {
        0
    } else if events[n - 1] is Polled {
        spec_polled(events, (n - 1) as nat) + 1
    } else {
        spec_polled(events, (n - 1) as nat)
    }
}

/// Whether a poll still lies ahead of `m` when every poll says stop.
spec fn spec_poll_ahead(m: EngineView) -> bool {
    match m.stage {
        Stage::Building | Stage::Announcing | Stage::Launching | Stage::Supervising => true,
        Stage::Cancelling | Stage::Joining => !m.should_exit,
        Stage::Finished | Stage::Failed(_) => false,
    }
}

proof fn lemma_stop_bound_falls(start: EngineView, events: Seq<Occurrence>, n: nat)
    requires
        spec_is_run(start, events),
        spec_polls_say_stop(events),
        n <= events.len(),
    ensures
        spec_stop_bound(spec_after(start, events, n)) + n <= spec_stop_bound(start),
        spec_polled(events, n) + if spec_poll_ahead(spec_after(start, events, n)) {
            1nat
        } else {
            0nat
        } <= 1,
    decreases n,
{
    if n > 0 {
        lemma_stop_bound_falls(start, events, (n - 1) as nat);
        let before = spec_after(start, events, (n - 1) as nat);
        assert(spec_answers(before.directive(), events[n - 1]));
    }
}

/// Once the order to stop waits in the command channel, the run is over
/// after a bounded number of steps, wherever the engine stands: at most
/// eight, at most three while it supervises, and no more than one of them
/// is a poll. So the run waits no longer than one timeout of the poll,
/// beside the time that building and joining take.
pub proof fn law_stop_ends_run(start: EngineView, events: Seq<Occurrence>)
    requires
        spec_is_run(start, events),
        spec_polls_say_stop(events),
    ensures
        events.len() <= spec_stop_bound(start) <= 8,
        start.stage == Stage::Supervising ==> events.len() <= 3,
        spec_polled(events, events.len()) <= 1,
        events.len() == spec_stop_bound(start) ==> spec_after(
            start,
            events,
            events.len(),
        ).halted(),
{
    lemma_stop_bound_falls(start, events, events.len());
}

/// A stop while the engine supervises is carried out in three steps: the
/// worker is cancelled, joined, and the run returns in good order.
pub proof fn law_stop_tears_down(m: EngineView)
    requires
        m.stage == Stage::Supervising,
    ensures
        ({
            let stopping = m.step(Occurrence::Polled(PollOutcome::Received(Command::Stop)));
            let joining = stopping.step(Occurrence::Cancelled);
            let done = joining.step(Occurrence::Joined);
            &&& stopping.directive() == Directive::Cancel
            &&& joining.directive() == Directive::Join
            &&& done.directive() == Directive::Finish(Ok(()))
        }),
{
}

/// A change of source while the engine supervises tears the pipeline down,
/// builds the next one from the new configuration and announces it with one
/// snapshot that names the new configuration; then the worker is launched.
/// The old worker is joined before the new pipeline is built, so none of its
/// frames can follow the new snapshot.
pub proof fn law_change_source_republishes(m: EngineView, config: SourceConfig, rate: Hertz)
    requires
        m.stage == Stage::Supervising,
        !m.should_exit,
    ensures
        ({
            let changing = m.step(
                Occurrence::Polled(PollOutcome::Received(Command::ChangeSource(config))),
            );
            let joining = changing.step(Occurrence::Cancelled);
            let building = joining.step(Occurrence::Joined);
            let announcing = building.step(Occurrence::Built { sample_rate: rate });
            let launching = announcing.step(Occurrence::Published);
            &&& changing.directive() == Directive::Cancel
            &&& joining.directive() == Directive::Join
            &&& building.directive() == (Directive::Build { config, fft_size: FFT_SIZE })
            &&& announcing.directive() == Directive::Publish(
                EngineState {
                    center_frequency: Hertz(0),
                    sample_rate: rate,
                    fft_size: FFT_SIZE,
                    source_config: config,
                },
            )
            &&& launching.directive() == Directive::Launch
        }),
{
}

} // verus!
