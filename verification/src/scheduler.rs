//! The poll scheduler: one reading cycle per period over all channels.
//!
//! The scheduler itself neither sleeps nor touches the device. It is a state
//! machine that is told what happened and answers what to do next:
//!
//! ```text
//! Idle -> Sleeping -> Sampling(0) -> ... -> Sampling(n-1) -> Publishing -> Idle
//! ```
//!
//! Whoever drives it performs each [`PollAction`] and hands back the
//! [`PollEvent`] that the action ended in. A cycle sleeps for the read
//! period, reads every channel in ascending order, and then publishes the
//! snapshot of all channel states. A failed read either ends the run or, if
//! the configuration says so, leaves that channel as it was for this cycle.

use vstd::prelude::*;
use crate::adc::MAX_CHANNELS;
use crate::aggregate::{bit, pack, pack_bits, states_to_byte, AggregateState, WireMode, MASK_BITS};
use crate::calibration::{CalibrationParams, Calibrator, Channel, ConfigError};

verus! {

/// One point of the recorded time series of channel 0.
#[derive(Clone, Copy, Debug, PartialEq, Eq)]
pub struct HistorySample {
    /// Milliseconds since the scheduler was started.
    pub elapsed_ms: u64,
    pub reading: i16,
}

/// What the scheduler is configured to do.
#[derive(Clone, Copy, Debug, PartialEq, Eq)]
pub struct PollConfig {
    /// Milliseconds to sleep before each cycle.
    pub read_period_ms: u64,
    /// Number of cycles to run; `None` for no limit.
    pub iterations: Option<u64>,
    /// Whether a failed read ends the run.
    pub quit_on_error: bool,
    /// Whether the readings of channel 0 are recorded.
    pub record_history: bool,
    /// The form of the snapshot that is published.
    pub mode: WireMode,
}

/// Where in a cycle the scheduler stands.
#[derive(Clone, Copy, Debug, PartialEq, Eq)]
pub enum Phase {
    /// Between cycles; waiting to be started.
    Idle,
    /// Waiting for the read period to pass.
    Sleeping,
    /// Waiting for the reading of `channel`.
    Sampling { channel: usize },
    /// Waiting for the snapshot to be stored.
    Publishing,
    /// All cycles are done.
    Finished,
    /// A read failed and the configuration asked to quit.
    Failed,
}

/// What the driver reports to the scheduler.
#[derive(Clone, Copy, Debug, PartialEq, Eq)]
pub enum PollEvent {
    /// The driver is ready to run.
    Start,
    /// The sleep that was asked for is over.
    Slept,
    /// The device gave a reading, `elapsed_ms` after the start.
    Reading { value: i16, elapsed_ms: u64 },
    /// The device failed to give a reading.
    ReadFailed,
    /// The snapshot has been stored.
    Published,
}

/// What the scheduler asks its driver to do.
#[derive(Clone, Copy, Debug, PartialEq, Eq)]
pub enum PollAction {
    /// Sleep for `period_ms` milliseconds, then report [`PollEvent::Slept`].
    Sleep { period_ms: u64 },
    /// Read `channel`, then report the reading or the failure.
    Read { channel: usize },
    /// Store `state` as the latest snapshot, then report
    /// [`PollEvent::Published`].
    Publish { state: AggregateState },
    /// Stop with success; the recorded history may now be flushed.
    Finish,
    /// Stop and hand on the device error met at `channel`.
    Abort { channel: usize },
}

/// The scheduler as a mathematical value.
pub struct SchedulerModel {
    pub config: PollConfig,
    pub params: CalibrationParams,
    pub channels: Seq<Channel>,
    pub phase: Phase,
    /// Cycles completed so far; it stops counting at `u64::MAX`.
    pub cycles: u64,
    /// Latest reading of channel 0, zero before the first.
    pub last_reading: i16,
    pub history: Seq<HistorySample>,
}

impl SchedulerModel {
    /// What holds of every scheduler.
    pub open spec fn wf(self) -> bool {
        &&& self.params.valid()
        &&& self.channels.len() <= MAX_CHANNELS
        &&& self.phase matches Phase::Sampling { channel } ==> channel < self.channels.len()
    }

    /// The state of every channel, in channel order.
    pub open spec fn states(self) -> Seq<bool> {
        self.channels.map_values(|channel: Channel| channel.state)
    }

    /// The snapshot of the present channel states.
    pub open spec fn aggregate(self) -> AggregateState {
        match self.config.mode {
            WireMode::Bitmask => AggregateState::Bitmask(pack(self.states())),
            WireMode::Raw => AggregateState::Raw(self.last_reading),
        }
    }

    /// Whether the configured number of cycles has been run.
    pub open spec fn limit_reached(self) -> bool {
        match self.config.iterations {
            Some(limit) => self.cycles >= limit,
            None => false,
        }
    }

    /// Leaves `Idle`: into the sleep of the next cycle, or to the end.
    pub open spec fn begin_cycle(self) -> (SchedulerModel, Option<PollAction>) {
        if self.limit_reached() {
            (SchedulerModel { phase: Phase::Finished, ..self }, Some(PollAction::Finish))
        } else {
            (
                SchedulerModel { phase: Phase::Sleeping, ..self },
                Some(PollAction::Sleep { period_ms: self.config.read_period_ms }),
            )
        }
    }

    /// Goes on to channel `next`, or to publishing when no channel is left.
    pub open spec fn sample_from(self, next: int) -> (SchedulerModel, Option<PollAction>) {
        if next < self.channels.len() {
            (
                SchedulerModel { phase: Phase::Sampling { channel: next as usize }, ..self },
                Some(PollAction::Read { channel: next as usize }),
            )
        } else {
            (
                SchedulerModel { phase: Phase::Publishing, ..self },
                Some(PollAction::Publish { state: self.aggregate() }),
            )
        }
    }

    /// Takes in a reading of `channel`: the channel is updated, and for
    /// channel 0 the reading is kept and, if asked for, recorded.
    pub open spec fn record(self, channel: int, value: i16, elapsed_ms: u64) -> SchedulerModel {
        SchedulerModel {
            channels: self.channels.update(
                channel,
                self.params.step(self.channels[channel], value),
            ),
            last_reading: if channel == 0 {
                value
            } else {
                self.last_reading
            },
            history: if channel == 0 && self.config.record_history {
                self.history.push(HistorySample { elapsed_ms, reading: value })
            } else {
                self.history
            },
            ..self
        }
    }

    /// Counts one more completed cycle.
    pub open spec fn count_cycle(self) -> SchedulerModel {
        SchedulerModel {
            phase: Phase::Idle,
            cycles: if self.cycles < u64::MAX {
                (self.cycles + 1) as u64
            } else {
                self.cycles
            },
            ..self
        }
    }

    /// The scheduler after `event`, and what it asks for. An event that the
    /// present phase does not wait for changes nothing and is answered with
    /// `None`.
    pub open spec fn transition(self, event: PollEvent) -> (SchedulerModel, Option<PollAction>) {
        match (self.phase, event) {
            (Phase::Idle, PollEvent::Start) => self.begin_cycle(),
            (Phase::Sleeping, PollEvent::Slept) => self.sample_from(0),
            (Phase::Sampling { channel }, PollEvent::Reading { value, elapsed_ms }) => self.record(
                channel as int,
                value,
                elapsed_ms,
            ).sample_from(channel + 1),
            (Phase::Sampling { channel }, PollEvent::ReadFailed) => {
                if self.config.quit_on_error {
                    (
                        SchedulerModel { phase: Phase::Failed, ..self },
                        Some(PollAction::Abort { channel }),
                    )
                } else {
                    self.sample_from(channel + 1)
                }
            },
            (Phase::Publishing, PollEvent::Published) => self.count_cycle().begin_cycle(),
            _ => (self, None),
        }
    }

    /// The scheduler after a sequence of events, the first one handled first.
    pub open spec fn run(self, events: Seq<PollEvent>) -> SchedulerModel
        decreases events.len(),
    {
        if events.len() == 0 {
            self
        } else {
            self.run(events.drop_last()).transition(events.last()).0
        }
    }

    /// What the scheduler asks for in answer to the last of `events`.
    pub open spec fn answer(self, events: Seq<PollEvent>) -> Option<PollAction>
        recommends
            events.len() > 0,
    {
        self.run(events.drop_last()).transition(events.last()).1
    }

    /// The readings that `events` bring to channel `index`, in the order in
    /// which they arrive: each reading that is reported while the scheduler
    /// waits for that channel.
    pub open spec fn fed(self, events: Seq<PollEvent>, index: int) -> Seq<i16>
        decreases events.len(),
    {
        if events.len() == 0 {
            Seq::empty()
        } else {
            let earlier = self.fed(events.drop_last(), index);
            match (self.run(events.drop_last()).phase, events.last()) {
                (Phase::Sampling { channel }, PollEvent::Reading { value, .. }) => {
                    if channel == index {
                        earlier.push(value)
                    } else {
                        earlier
                    }
                },
                _ => earlier,
            }
        }
    }

    /// The samples that `events` add to the history, oldest first: one for
    /// each reading of channel 0, if recording is on.
    pub open spec fn recorded(self, events: Seq<PollEvent>) -> Seq<HistorySample>
        decreases events.len(),
    {
        if events.len() == 0 {
            Seq::empty()
        } else {
            let earlier = self.recorded(events.drop_last());
            match (self.run(events.drop_last()).phase, events.last()) {
                (Phase::Sampling { channel }, PollEvent::Reading { value, elapsed_ms }) => {
                    if channel == 0 && self.config.record_history {
                        earlier.push(HistorySample { elapsed_ms, reading: value })
                    } else {
                        earlier
                    }
                },
                _ => earlier,
            }
        }
    }
}

impl PollEvent {
    /// Whether the event is the outcome of a read.
    pub open spec fn is_outcome(self) -> bool {
        self is Reading || self is ReadFailed
    }

    /// The channel `before` after a read that ended in this event, where a
    /// failed read does not end the run.
    pub open spec fn applied_to(self, params: CalibrationParams, before: Channel) -> Channel {
        match self {
            PollEvent::Reading { value, .. } => params.step(before, value),
            _ => before,
        }
    }
}

/// The part of the scheduler that decides: everything but the history.
struct Machine {
    config: PollConfig,
    calibrator: Calibrator,
    channels: Vec<Channel>,
    phase: Phase,
    cycles: u64,
    last_reading: i16,
}

/// The poll scheduler.
pub struct PollScheduler {
    machine: Machine,
    history: Vec<HistorySample>,
}

impl Machine {
    /// The scheduler that this machine makes together with `history`.
    closed spec fn with(self, history: Seq<HistorySample>) -> SchedulerModel {
        SchedulerModel {
            config: self.config,
            params: self.calibrator@,
            channels: self.channels@,
            phase: self.phase,
            cycles: self.cycles,
            last_reading: self.last_reading,
            history,
        }
    }

    #[verifier::type_invariant]
    spec fn inv(self) -> bool {
        self.with(Seq::empty()).wf()
    }

    fn aggregate(&self) -> (state: AggregateState)
        ensures
            forall|history: Seq<HistorySample>| state == self.with(history).aggregate(),
    {
        proof {
            use_type_invariant(self);
        }
        match self.config.mode {
            WireMode::Bitmask => {
                let mut states: Vec<bool> = Vec::new();
                let mut i: usize = 0;
                while i < self.channels.len()
                    invariant
                        i <= self.channels@.len(),
                        states@.len() == i,
                        forall|j: int| 0 <= j < i ==> states@[j] == self.channels@[j].state,
                    decreases self.channels@.len() - i,
                {
                    states.push(self.channels[i].state);
                    i += 1;
                }
                assert(states@ =~= self.with(Seq::empty()).states());
                AggregateState::Bitmask(states_to_byte(&states))
            },
            WireMode::Raw => AggregateState::Raw(self.last_reading),
        }
    }

    /// The sample that `event` adds to the history, if it adds one.
    fn sample(&self, event: PollEvent) -> (sample: Option<HistorySample>)
        ensures
            forall|history: Seq<HistorySample>|
                self.with(history).transition(event).0.history == match sample {
                    Some(sample) => history.push(sample),
                    None => history,
                },
    {
        match (self.phase, event) {
            (Phase::Sampling { channel }, PollEvent::Reading { value, elapsed_ms }) => {
                if channel == 0 && self.config.record_history {
                    Some(HistorySample { elapsed_ms, reading: value })
                } else {
                    None
                }
            },
            _ => None,
        }
    }

    fn begin_cycle(&mut self) -> (action: Option<PollAction>)
        ensures
            forall|history: Seq<HistorySample>|
                (final(self).with(history), action) == old(self).with(history).begin_cycle(),
    {
        proof {
            use_type_invariant(&*self);
        }
        let done: bool = match self.config.iterations {
            Some(limit) => self.cycles >= limit,
            None => false,
        };
        if done {
            self.phase = Phase::Finished;
            Some(PollAction::Finish)
        } else {
            self.phase = Phase::Sleeping;
            Some(PollAction::Sleep { period_ms: self.config.read_period_ms })
        }
    }

    fn sample_from(&mut self, next: usize) -> (action: Option<PollAction>)
        ensures
            forall|history: Seq<HistorySample>|
                (final(self).with(history), action) == old(self).with(history).sample_from(
                    next as int,
                ),
    {
        proof {
            use_type_invariant(&*self);
        }
        if next < self.channels.len() {
            self.phase = Phase::Sampling { channel: next };
            Some(PollAction::Read { channel: next })
        } else {
            let state: AggregateState = self.aggregate();
            self.phase = Phase::Publishing;
            Some(PollAction::Publish { state })
        }
    }

    /// Steps everything but the history.
    fn step(&mut self, event: PollEvent) -> (action: Option<PollAction>)
        ensures
            forall|history: Seq<HistorySample>|
                (
                    final(self).with(old(self).with(history).transition(event).0.history),
                    action,
                ) == old(self).with(history).transition(event),
    {
        proof {
            use_type_invariant(&*self);
        }
        match (self.phase, event) {
            (Phase::Idle, PollEvent::Start) => self.begin_cycle(),
            (Phase::Sleeping, PollEvent::Slept) => self.sample_from(0),
            (Phase::Sampling { channel }, PollEvent::Reading { value, .. }) => {
                let mut updated: Channel = self.channels[channel];
                self.calibrator.update(&mut updated, value);
                self.channels[channel] = updated;
                if channel == 0 {
                    self.last_reading = value;
                }
                self.sample_from(channel + 1)
            },
            (Phase::Sampling { channel }, PollEvent::ReadFailed) => {
                if self.config.quit_on_error {
                    self.phase = Phase::Failed;
                    Some(PollAction::Abort { channel })
                } else {
                    self.sample_from(channel + 1)
                }
            },
            (Phase::Publishing, PollEvent::Published) => {
                self.phase = Phase::Idle;
                if self.cycles < u64::MAX {
                    self.cycles = self.cycles + 1;
                }
                self.begin_cycle()
            },
            _ => None,
        }
    }
}

impl View for PollScheduler {
    type V = SchedulerModel;

    closed spec fn view(&self) -> SchedulerModel {
        self.machine.with(self.history@)
    }
}

impl PollScheduler {
    /// A scheduler at rest, before its first cycle, with no history.
    ///
    /// Gives `TooManyChannels` exactly if there are more channels than the
    /// converter has inputs.
    pub fn new(
        config: PollConfig,
        calibrator: Calibrator,
        channels: Vec<Channel>,
    ) -> (r: Result<PollScheduler, ConfigError>)
        ensures
            r is Ok <==> channels@.len() <= MAX_CHANNELS,
            match r {
                Ok(scheduler) => {
                    &&& scheduler@.wf()
                    &&& scheduler@ == (SchedulerModel {
                        config,
                        params: calibrator@,
                        channels: channels@,
                        phase: Phase::Idle,
                        cycles: 0,
                        last_reading: 0,
                        history: Seq::empty(),
                    })
                },
                Err(ConfigError::TooManyChannels) => channels@.len() > MAX_CHANNELS,
                Err(_) => false,
            },
    {
        if channels.len() > MAX_CHANNELS {
            return Err(ConfigError::TooManyChannels);
        }
        let _ = calibrator.params();
        let machine = Machine {
            config,
            calibrator,
            channels,
            phase: Phase::Idle,
            cycles: 0,
            last_reading: 0,
        };
        Ok(PollScheduler { machine, history: Vec::new() })
    }

    /// Where in a cycle the scheduler stands.
    pub fn phase(&self) -> (phase: Phase)
        ensures
            phase == self@.phase,
    {
        self.machine.phase
    }

    /// Number of cycles completed.
    pub fn cycles(&self) -> (cycles: u64)
        ensures
            cycles == self@.cycles,
    {
        self.machine.cycles
    }

    /// The configuration in use.
    pub fn config(&self) -> (config: PollConfig)
        ensures
            config == self@.config,
    {
        self.machine.config
    }

    /// The channels as they stand.
    pub fn channels(&self) -> (channels: &Vec<Channel>)
        ensures
            channels@ == self@.channels,
    {
        &self.machine.channels
    }

    /// The samples recorded so far, oldest first.
    pub fn history(&self) -> (history: &Vec<HistorySample>)
        ensures
            history@ == self@.history,
    {
        &self.history
    }

    /// The snapshot of the present channel states.
    pub fn aggregate(&self) -> (state: AggregateState)
        ensures
            state == self@.aggregate(),
    {
        self.machine.aggregate()
    }

    /// Takes in what happened and says what to do next.
    ///
    /// An event that the present phase does not wait for is answered with
    /// `None` and changes nothing.
    pub fn step(&mut self, event: PollEvent) -> (action: Option<PollAction>)
        ensures
            (final(self)@, action) == old(self)@.transition(event),
            final(self)@.wf(),
    {
        match self.machine.sample(event) {
            Some(sample) => {
                self.history.push(sample);
            },
            None => {},
        }
        let action: Option<PollAction> = self.machine.step(event);
        proof {
            use_type_invariant(&self.machine);
        }
        action
    }
}

/// A step keeps a scheduler well formed, and changes neither its
/// configuration, nor its calibration parameters, nor the number of its
/// channels.
pub proof fn transition_keeps_frame(model: SchedulerModel, event: PollEvent)
    requires
        model.wf(),
    ensures
        model.transition(event).0.wf(),
        model.transition(event).0.config == model.config,
        model.transition(event).0.params == model.params,
        model.transition(event).0.channels.len() == model.channels.len(),
{
}

/// In bitmask mode bit `i` of the snapshot is the state of channel `i`, and
/// the bits above the last channel are zero.
pub proof fn snapshot_bits_are_channel_states(model: SchedulerModel, i: u8)
    requires
        model.wf(),
        model.config.mode == WireMode::Bitmask,
        i < MASK_BITS,
    ensures
        model.aggregate() matches AggregateState::Bitmask(mask) && bit(mask, i) == (i
            < model.channels.len() && model.channels[i as int].state),
{
    pack_bits(model.states(), i);
}

/// A channel that has its threshold keeps it through every step.
pub proof fn transition_keeps_thresholds(model: SchedulerModel, event: PollEvent, i: int)
    requires
        model.wf(),
        0 <= i < model.channels.len(),
        model.channels[i].calibration is Calibrated,
    ensures
        model.transition(event).0.channels[i].calibration == model.channels[i].calibration,
{
}

/// The cycle counter never goes back. It goes up, by one, exactly when a
/// published snapshot is reported, until it has reached `u64::MAX`.
pub proof fn cycles_count_publishes(model: SchedulerModel, event: PollEvent)
    ensures
        model.transition(event).0.cycles >= model.cycles,
        model.transition(event).0.cycles == if model.phase == Phase::Publishing && event
            == PollEvent::Published && model.cycles < u64::MAX {
            model.cycles + 1
        } else {
            model.cycles as int
        },
{
}

/// The run finishes only between cycles, and exactly when the configured
/// number of cycles has been completed; without a limit it never finishes.
pub proof fn finish_only_at_limit(model: SchedulerModel, event: PollEvent)
    ensures
        model.transition(event).1 == Some(PollAction::Finish) <==> {
            ||| model.phase == Phase::Idle && event == PollEvent::Start && model.limit_reached()
            ||| model.phase == Phase::Publishing && event == PollEvent::Published
                && model.count_cycle().limit_reached()
        },
        model.config.iterations is None ==> model.transition(event).1 != Some(
            PollAction::Finish,
        ),
        model.transition(event).0.phase == Phase::Finished <==> model.phase == Phase::Finished
            || model.transition(event).1 == Some(PollAction::Finish),
{
}

/// A read is asked only of a channel that exists, and so of one of the
/// converter's inputs.
pub proof fn read_asks_for_existing_channel(
    model: SchedulerModel,
    event: PollEvent,
    channel: usize,
)
    requires
        model.wf(),
        model.transition(event).1 == Some(PollAction::Read { channel }),
    ensures
        channel < model.channels.len() <= MAX_CHANNELS,
        model.transition(event).0.phase == (Phase::Sampling { channel }),
{
}

/// A snapshot is handed out for publishing only when the last channel of the
/// cycle has been attempted, and it is the snapshot of the channels as they
/// then stand.
pub proof fn publish_follows_last_channel(model: SchedulerModel, event: PollEvent)
    requires
        model.wf(),
        model.transition(event).1 matches Some(PollAction::Publish { .. }),
    ensures
        model.transition(event).1 == Some(
            PollAction::Publish { state: model.transition(event).0.aggregate() },
        ),
        model.transition(event).0.phase == Phase::Publishing,
        match model.phase {
            Phase::Sampling { channel } => channel + 1 == model.channels.len()
                && event.is_outcome(),
            Phase::Sleeping => model.channels.len() == 0 && event == PollEvent::Slept,
            _ => false,
        },
{
}

/// A read that fails without ending the run leaves every channel, the
/// history and the latest reading as they were.
pub proof fn failed_read_changes_no_channel(model: SchedulerModel)
    requires
        model.wf(),
        model.phase is Sampling,
        !model.config.quit_on_error,
    ensures
        model.transition(PollEvent::ReadFailed).0.channels == model.channels,
        model.transition(PollEvent::ReadFailed).0.history == model.history,
        model.transition(PollEvent::ReadFailed).0.last_reading == model.last_reading,
{
}

/// A reading changes the channel it was taken from, by one calibration step,
/// and no other channel.
pub proof fn reading_changes_one_channel(
    model: SchedulerModel,
    channel: usize,
    value: i16,
    elapsed_ms: u64,
)
    requires
        model.wf(),
        model.phase == (Phase::Sampling { channel }),
    ensures
        model.transition(PollEvent::Reading { value, elapsed_ms }).0.channels
            == model.channels.update(
            channel as int,
            model.params.step(model.channels[channel as int], value),
        ),
{
}

/// The history only grows: a step appends at most one sample, and only a
/// reading of channel 0 taken while recording is on appends one.
pub proof fn history_is_append_only(model: SchedulerModel, event: PollEvent)
    requires
        model.wf(),
    ensures
        model.transition(event).0.history == if model.config.record_history && model.phase
            == (Phase::Sampling { channel: 0 }) {
            match event {
                PollEvent::Reading { value, elapsed_ms } => model.history.push(
                    HistorySample { elapsed_ms, reading: value },
                ),
                _ => model.history,
            }
        } else {
            model.history
        },
{
}

/// Through any course of events a scheduler stays well formed and keeps its
/// configuration, its calibration parameters and the number of its channels.
pub proof fn run_keeps_frame(model: SchedulerModel, events: Seq<PollEvent>)
    requires
        model.wf(),
    ensures
        model.run(events).wf(),
        model.run(events).config == model.config,
        model.run(events).params == model.params,
        model.run(events).channels.len() == model.channels.len(),
    decreases events.len(),
{
    if events.len() > 0 {
        run_keeps_frame(model, events.drop_last());
        transition_keeps_frame(model.run(events.drop_last()), events.last());
    }
}

/// Whatever the course of events, each channel is what calibration makes of
/// it from its own readings, taken in the order in which they arrived. What
/// is read from other channels, failed reads and events out of turn leave it
/// alone.
pub proof fn channel_follows_its_readings(
    model: SchedulerModel,
    events: Seq<PollEvent>,
    index: int,
)
    requires
        model.wf(),
        0 <= index < model.channels.len(),
    ensures
        model.run(events).channels[index] == model.params.run(
            model.channels[index],
            model.fed(events, index),
        ),
    decreases events.len(),
{
    if events.len() > 0 {
        let earlier = events.drop_last();
        channel_follows_its_readings(model, earlier, index);
        run_keeps_frame(model, earlier);
        let fed = model.fed(events, index);
        if fed.len() > model.fed(earlier, index).len() {
            assert(fed.drop_last() =~= model.fed(earlier, index));
        }
    }
}

/// Whatever the course of events, the history is what it was at the start
/// followed by the samples recorded since, in the order of their readings.
pub proof fn history_follows_recorded_samples(model: SchedulerModel, events: Seq<PollEvent>)
    requires
        model.wf(),
    ensures
        model.run(events).history == model.history + model.recorded(events),
    decreases events.len(),
{
    if events.len() == 0 {
        assert(model.history + model.recorded(events) =~= model.history);
    } else {
        let earlier = events.drop_last();
        history_follows_recorded_samples(model, earlier);
        run_keeps_frame(model, earlier);
        assert(model.run(events).history =~= model.history + model.recorded(events));
    }
}

/// The course of a cycle. From the sleep on, the channels are read in
/// ascending order. After the outcomes of the first `done` reads, each of
/// these channels has taken in its reading, or is as it was if its read
/// failed, and the channels not yet read are untouched. While channels are
/// left the scheduler asks for the next one; after the last it asks to
/// publish the snapshot of all channels.
pub proof fn cycle_reads_in_order_then_publishes(
    model: SchedulerModel,
    outcomes: Seq<PollEvent>,
    done: int,
)
    requires
        model.wf(),
        model.phase == Phase::Sleeping,
        0 <= done <= outcomes.len() == model.channels.len(),
        forall|i: int| 0 <= i < outcomes.len() ==> (#[trigger] outcomes[i]).is_outcome(),
        model.config.quit_on_error ==> forall|i: int|
            0 <= i < outcomes.len() ==> #[trigger] outcomes[i] is Reading,
    ensures
        ({
            let events = seq![PollEvent::Slept] + outcomes.take(done);
            let after = model.run(events);
            &&& after.wf()
            &&& after.config == model.config
            &&& after.params == model.params
            &&& after.cycles == model.cycles
            &&& after.channels.len() == model.channels.len()
            &&& forall|i: int|
                0 <= i < done ==> #[trigger] after.channels[i] == outcomes[i].applied_to(
                    model.params,
                    model.channels[i],
                )
            &&& forall|i: int|
                done <= i < model.channels.len() ==> #[trigger] after.channels[i]
                    == model.channels[i]
            &&& if done < model.channels.len() {
                &&& after.phase == (Phase::Sampling { channel: done as usize })
                &&& model.answer(events) == Some(PollAction::Read { channel: done as usize })
            } else {
                &&& after.phase == Phase::Publishing
                &&& model.answer(events) == Some(PollAction::Publish { state: after.aggregate() })
            }
        }),
    decreases done,
{
    let events = seq![PollEvent::Slept] + outcomes.take(done);
    if done == 0 {
        assert(events =~= seq![PollEvent::Slept]);
        assert(events.drop_last() =~= Seq::<PollEvent>::empty());
        assert(model.run(events.drop_last()) == model);
    } else {
        let before = seq![PollEvent::Slept] + outcomes.take(done - 1);
        cycle_reads_in_order_then_publishes(model, outcomes, done - 1);
        assert(events.drop_last() =~= before);
        assert(events.last() == outcomes[done - 1]);
        let middle = model.run(before);
        let after = middle.transition(outcomes[done - 1]).0;
        assert(outcomes[done - 1].is_outcome());
        assert(model.run(events) == after);
        assert forall|i: int| 0 <= i < done implies #[trigger] after.channels[i]
            == outcomes[i].applied_to(model.params, model.channels[i]) by {
            if i < done - 1 {
                assert(middle.channels[i] == outcomes[i].applied_to(
                    model.params,
                    model.channels[i],
                ));
            } else {
                assert(middle.channels[i] == model.channels[i]);
            }
        }
        assert forall|i: int| done <= i < model.channels.len() implies #[trigger] after.channels[i]
            == model.channels[i] by {
            assert(middle.channels[i] == model.channels[i]);
        }
    }
}

} // verus!
