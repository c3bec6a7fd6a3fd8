//! Per-channel calibration and debounce.
//!
//! A channel starts either with a threshold given to it or without one. In
//! the second case it warms up: it lets a configured number of readings go by
//! and takes the next one, plus a configured offset, as its threshold. Once a
//! channel has a threshold, every reading is compared with a bound that lies
//! one debounce offset above the threshold while the channel is unpressed and
//! one below it while the channel is pressed, so that noise near the threshold
//! does not make the state chatter.

use vstd::prelude::*;
use crate::adc::MAX_CHANNELS;

verus! {

/// Where a channel stands with respect to its threshold.
#[derive(Clone, Copy, Debug, PartialEq, Eq)]
pub enum CalibrationState {
    /// No threshold yet; `samples_seen` readings have gone by.
    Warming { samples_seen: u64 },
    /// The threshold is fixed.
    Calibrated { threshold: i32 },
}

/// One sensor input: its calibration and its last computed state.
#[derive(Clone, Copy, Debug, PartialEq, Eq)]
pub struct Channel {
    pub calibration: CalibrationState,
    /// `true` while the channel counts as pressed.
    pub state: bool,
}

/// The constants that govern calibration and debounce.
#[derive(Clone, Copy, Debug, PartialEq, Eq)]
pub struct CalibrationParams {
    /// Readings a warming channel lets go by before it takes its threshold.
    pub warmup_iterations: u64,
    /// Added to the reading that ends the warm-up to give the threshold.
    pub warmup_threshold_offset: i32,
    /// Distance of the switching bounds from the threshold.
    pub debounce: i32,
}

/// Why a configuration was turned down.
#[derive(Clone, Copy, Debug, PartialEq, Eq)]
pub enum ConfigError {
    /// The debounce offset is negative.
    NegativeDebounce,
    /// Some reading plus the warm-up offset would not fit a threshold.
    OffsetOutOfRange,
    /// More channels were asked for than the converter has inputs.
    TooManyChannels,
    /// More thresholds were given than there are channels.
    TooManyThresholds,
}

/// The thresholds that a configuration supplies.
#[derive(Debug, PartialEq, Eq)]
pub enum Thresholds {
    /// One threshold for each of the first channels; the others warm up.
    PerChannel(Vec<i32>),
    /// The same threshold for every channel.
    Uniform(i32),
}

/// Calibration parameters that have been checked.
#[derive(Clone, Copy, Debug)]
pub struct Calibrator {
    params: CalibrationParams,
}

impl Channel {
    /// A channel that has yet to find its threshold.
    pub open spec fn warming_spec() -> Channel {
        Channel { calibration: CalibrationState::Warming { samples_seen: 0 }, state: false }
    }

    /// A channel that starts with the threshold `threshold`.
    pub open spec fn calibrated_spec(threshold: i32) -> Channel {
        Channel { calibration: CalibrationState::Calibrated { threshold }, state: false }
    }

    /// An unpressed channel that will warm up.
    #[verifier::when_used_as_spec(warming_spec)]
    pub fn warming() -> (channel: Channel)
        ensures
            channel == Channel::warming_spec(),
    {
        Channel { calibration: CalibrationState::Warming { samples_seen: 0 }, state: false }
    }

    /// An unpressed channel with a given threshold.
    #[verifier::when_used_as_spec(calibrated_spec)]
    pub fn calibrated(threshold: i32) -> (channel: Channel)
        ensures
            channel == Channel::calibrated_spec(threshold),
    {
        Channel { calibration: CalibrationState::Calibrated { threshold }, state: false }
    }

    /// The threshold, once there is one.
    pub fn threshold(&self) -> (t: Option<i32>)
        ensures
            t == match self.calibration {
                CalibrationState::Warming { .. } => None::<i32>,
                CalibrationState::Calibrated { threshold } => Some(threshold),
            },
    {
        match self.calibration {
            CalibrationState::Warming { .. } => None,
            CalibrationState::Calibrated { threshold } => Some(threshold),
        }
    }
}

impl CalibrationParams {
    /// The offset can be added to any reading without leaving the range of a
    /// threshold.
    pub open spec fn offset_in_range(self) -> bool {
        i32::MIN - i16::MIN <= self.warmup_threshold_offset <= i32::MAX - i16::MAX
    }

    /// What a [`Calibrator`] asks of its parameters.
    pub open spec fn valid(self) -> bool {
        self.debounce >= 0 && self.offset_in_range()
    }

    /// The bound a reading has to exceed for the channel to count as pressed.
    pub open spec fn bound(self, threshold: i32, pressed: bool) -> int {
        if pressed {
            threshold - self.debounce
        } else {
            threshold + self.debounce
        }
    }

    /// The channel after one reading.
    pub open spec fn step(self, channel: Channel, reading: i16) -> Channel {
        match channel.calibration {
            CalibrationState::Warming { samples_seen } => {
                if samples_seen >= self.warmup_iterations {
                    Channel {
                        calibration: CalibrationState::Calibrated {
                            threshold: (reading + self.warmup_threshold_offset) as i32,
                        },
                        state: channel.state,
                    }
                } else {
                    Channel {
                        calibration: CalibrationState::Warming {
                            samples_seen: (samples_seen + 1) as u64,
                        },
                        state: channel.state,
                    }
                }
            },
            CalibrationState::Calibrated { threshold } => Channel {
                calibration: channel.calibration,
                state: reading > self.bound(threshold, channel.state),
            },
        }
    }

    /// The channel after a sequence of readings, the first one fed first.
    pub open spec fn run(self, channel: Channel, readings: Seq<i16>) -> Channel
        decreases readings.len(),
    {
        if readings.len() == 0 {
            channel
        } else {
            self.step(self.run(channel, readings.drop_last()), readings.last())
        }
    }
}

impl Thresholds {
    /// The threshold given for channel `index`, if any.
    pub open spec fn threshold_for(self, index: int) -> Option<i32> {
        match self {
            Thresholds::PerChannel(list) => {
                if 0 <= index < list@.len() {
                    Some(list@[index])
                } else {
                    None
                }
            },
            Thresholds::Uniform(threshold) => Some(threshold),
        }
    }

    /// How many channels the thresholds need at least.
    pub open spec fn needed(self) -> nat {
        match self {
            Thresholds::PerChannel(list) => list@.len(),
            Thresholds::Uniform(_) => 0,
        }
    }

    /// The channel that stands at `index` at startup.
    pub open spec fn initial_channel(self, index: int) -> Channel {
        match self.threshold_for(index) {
            Some(threshold) => Channel::calibrated_spec(threshold),
            None => Channel::warming_spec(),
        }
    }

    /// The threshold given for channel `index`, if any.
    pub fn get(&self, index: usize) -> (threshold: Option<i32>)
        ensures
            threshold == self.threshold_for(index as int),
    {
        match self {
            Thresholds::PerChannel(list) => {
                if index < list.len() {
                    Some(list[index])
                } else {
                    None
                }
            },
            Thresholds::Uniform(threshold) => Some(*threshold),
        }
    }

    /// How many channels the thresholds need at least.
    pub fn count_needed(&self) -> (count: usize)
        ensures
            count == self.needed(),
    {
        match self {
            Thresholds::PerChannel(list) => list.len(),
            Thresholds::Uniform(_) => 0,
        }
    }
}

impl View for Calibrator {
    type V = CalibrationParams;

    closed spec fn view(&self) -> CalibrationParams {
        self.params
    }
}

impl Calibrator {
    #[verifier::type_invariant]
    spec fn checked(self) -> bool {
        self.params.valid()
    }

    /// Checks `params` and keeps them.
    ///
    /// A negative debounce offset is turned down first; then a warm-up offset
    /// that could carry a threshold out of range.
    pub fn new(params: CalibrationParams) -> (r: Result<Calibrator, ConfigError>)
        ensures
            r is Ok <==> params.valid(),
            match r {
                Ok(calibrator) => params.valid() && calibrator@ == params,
                Err(ConfigError::NegativeDebounce) => params.debounce < 0,
                Err(ConfigError::OffsetOutOfRange) => params.debounce >= 0
                    && !params.offset_in_range(),
                Err(_) => false,
            },
    {
        if params.debounce < 0 {
            return Err(ConfigError::NegativeDebounce);
        }
        if params.warmup_threshold_offset < i32::MIN + 0x8000
            || params.warmup_threshold_offset > i32::MAX - 0x7FFF {
            return Err(ConfigError::OffsetOutOfRange);
        }
        Ok(Calibrator { params })
    }

    /// The parameters in use.
    pub fn params(&self) -> (params: CalibrationParams)
        ensures
            params == self@,
            params.valid(),
    {
        proof {
            use_type_invariant(self);
        }
        self.params
    }

    /// Feeds one reading to `channel` and returns the channel's state after it.
    ///
    /// A warming channel keeps its state: it counts the reading, or, once it
    /// has let `warmup_iterations` readings go by, takes this reading plus the
    /// offset as its threshold. A calibrated channel keeps its threshold and
    /// is pressed exactly if the reading exceeds the bound for its present
    /// state.
    pub fn update(&self, channel: &mut Channel, reading: i16) -> (pressed: bool)
        ensures
            *final(channel) == self@.step(*old(channel), reading),
            pressed == final(channel).state,
    {
        proof {
            use_type_invariant(self);
        }
        match channel.calibration {
            CalibrationState::Warming { samples_seen } => {
                if samples_seen >= self.params.warmup_iterations {
                    let threshold: i32 = reading as i32 + self.params.warmup_threshold_offset;
                    channel.calibration = CalibrationState::Calibrated { threshold };
                } else {
                    channel.calibration = CalibrationState::Warming {
                        samples_seen: samples_seen + 1,
                    };
                }
            },
            CalibrationState::Calibrated { threshold } => {
                let bound: i64 = if channel.state {
                    threshold as i64 - self.params.debounce as i64
                } else {
                    threshold as i64 + self.params.debounce as i64
                };
                channel.state = reading as i64 > bound;
            },
        }
        channel.state
    }
}

/// Builds the channel list for `count` inputs.
///
/// More than [`MAX_CHANNELS`] inputs are turned down first; then a list of
/// thresholds that is longer than the channel list. Otherwise channel `i`
/// starts calibrated where `thresholds` has a threshold for it and warming
/// where it has none, and every channel starts unpressed.
pub fn build_channels(
    count: usize,
    thresholds: &Thresholds,
) -> (r: Result<Vec<Channel>, ConfigError>)
    ensures
        r is Ok <==> count <= MAX_CHANNELS && thresholds.needed() <= count,
        match r {
            Ok(channels) => {
                &&& channels@.len() == count
                &&& forall|i: int|
                    0 <= i < count ==> channels@[i] == thresholds.initial_channel(i)
            },
            Err(ConfigError::TooManyChannels) => count > MAX_CHANNELS,
            Err(ConfigError::TooManyThresholds) => count <= MAX_CHANNELS && thresholds.needed()
                > count,
            Err(_) => false,
        },
{
    if count > MAX_CHANNELS {
        return Err(ConfigError::TooManyChannels);
    }
    if thresholds.count_needed() > count {
        return Err(ConfigError::TooManyThresholds);
    }
    let mut channels: Vec<Channel> = Vec::new();
    let mut i: usize = 0;
    while i < count
        invariant
            i <= count,
            channels@.len() == i,
            forall|j: int| 0 <= j < i ==> channels@[j] == thresholds.initial_channel(j),
        decreases count - i,
    {
        match thresholds.get(i) {
            Some(threshold) => channels.push(Channel::calibrated(threshold)),
            None => channels.push(Channel::warming()),
        }
        i += 1;
    }
    Ok(channels)
}

/// While a channel warms up, no reading moves its state.
pub proof fn warming_keeps_state(params: CalibrationParams, channel: Channel, reading: i16)
    requires
        channel.calibration is Warming,
    ensures
        params.step(channel, reading).state == channel.state,
{
}

/// A warming channel that has let `seen` readings go by is still warming
/// after any further readings that do not take the count past
/// `warmup_iterations`: it has counted each of them and kept its state.
pub proof fn warmup_counts_readings(
    params: CalibrationParams,
    channel: Channel,
    seen: u64,
    readings: Seq<i16>,
)
    requires
        channel.calibration == (CalibrationState::Warming { samples_seen: seen }),
        seen + readings.len() <= params.warmup_iterations,
    ensures
        params.run(channel, readings) == (Channel {
            calibration: CalibrationState::Warming {
                samples_seen: (seen + readings.len()) as u64,
            },
            state: channel.state,
        }),
    decreases readings.len(),
{
    if readings.len() > 0 {
        warmup_counts_readings(params, channel, seen, readings.drop_last());
    }
}

/// The reading that comes after exactly `warmup_iterations` readings fixes
/// the threshold at that reading plus the offset, and leaves the state as it
/// was at the start.
pub proof fn warmup_ends_with_threshold(
    params: CalibrationParams,
    channel: Channel,
    seen: u64,
    readings: Seq<i16>,
)
    requires
        params.valid(),
        channel.calibration == (CalibrationState::Warming { samples_seen: seen }),
        seen <= params.warmup_iterations,
        seen + readings.len() == params.warmup_iterations + 1,
    ensures
        params.run(channel, readings) == (Channel {
            calibration: CalibrationState::Calibrated {
                threshold: (readings.last() + params.warmup_threshold_offset) as i32,
            },
            state: channel.state,
        }),
        i32::MIN <= readings.last() + params.warmup_threshold_offset <= i32::MAX,
{
    warmup_counts_readings(params, channel, seen, readings.drop_last());
}

/// A threshold that is set stays as it is, whatever is read afterwards.
pub proof fn threshold_never_changes(
    params: CalibrationParams,
    channel: Channel,
    readings: Seq<i16>,
)
    requires
        channel.calibration is Calibrated,
    ensures
        params.run(channel, readings).calibration == channel.calibration,
    decreases readings.len(),
{
    if readings.len() > 0 {
        threshold_never_changes(params, channel, readings.drop_last());
    }
}

/// Feeding one sequence of readings after another is feeding their
/// concatenation.
pub proof fn run_concatenates(
    params: CalibrationParams,
    channel: Channel,
    first: Seq<i16>,
    second: Seq<i16>,
)
    ensures
        params.run(channel, first + second) == params.run(params.run(channel, first), second),
    decreases second.len(),
{
    if second.len() == 0 {
        assert(first + second =~= first);
    } else {
        run_concatenates(params, channel, first, second.drop_last());
        assert((first + second).drop_last() =~= first + second.drop_last());
    }
}

/// A channel that warms up from the start takes as its threshold the reading
/// at position `warmup_iterations` plus the offset, and no reading after that
/// one changes it.
pub proof fn threshold_is_reading_at_warmup_completion(
    params: CalibrationParams,
    readings: Seq<i16>,
)
    requires
        params.valid(),
        readings.len() > params.warmup_iterations,
    ensures
        params.run(Channel::warming_spec(), readings).calibration
            == (CalibrationState::Calibrated {
            threshold: (readings[params.warmup_iterations as int]
                + params.warmup_threshold_offset) as i32,
        }),
{
    let split: int = params.warmup_iterations + 1;
    let head: Seq<i16> = readings.subrange(0, split);
    let tail: Seq<i16> = readings.subrange(split, readings.len() as int);
    assert(readings =~= head + tail);
    warmup_ends_with_threshold(params, Channel::warming_spec(), 0, head);
    run_concatenates(params, Channel::warming_spec(), head, tail);
    threshold_never_changes(params, params.run(Channel::warming_spec(), head), tail);
}

/// A pressed channel stays pressed exactly while the reading exceeds the
/// threshold less the debounce offset; a reading equal to that bound
/// releases it.
pub proof fn pressed_until_release_bound(
    params: CalibrationParams,
    threshold: i32,
    reading: i16,
)
    ensures
        params.step(
            Channel { calibration: CalibrationState::Calibrated { threshold }, state: true },
            reading,
        ).state <==> reading > threshold - params.debounce,
{
}

/// An unpressed channel becomes pressed exactly when the reading exceeds the
/// threshold plus the debounce offset.
pub proof fn unpressed_until_press_bound(
    params: CalibrationParams,
    threshold: i32,
    reading: i16,
)
    ensures
        params.step(
            Channel { calibration: CalibrationState::Calibrated { threshold }, state: false },
            reading,
        ).state <==> reading > threshold + params.debounce,
{
}

/// Hysteresis of a pressed channel: for a reading other than the lower bound
/// itself, the channel stays pressed if the reading is at or above the
/// threshold less the debounce offset, and is released only if the reading is
/// below it.
pub proof fn hysteresis_while_pressed(params: CalibrationParams, threshold: i32, reading: i16)
    requires
        reading != threshold - params.debounce,
    ensures
        reading >= threshold - params.debounce ==> params.step(
            Channel { calibration: CalibrationState::Calibrated { threshold }, state: true },
            reading,
        ).state,
        !params.step(
            Channel { calibration: CalibrationState::Calibrated { threshold }, state: true },
            reading,
        ).state ==> reading < threshold - params.debounce,
{
}

/// Hysteresis of an unpressed channel: it stays unpressed if the reading is
/// at or below the threshold plus the debounce offset, and becomes pressed
/// only if the reading is above it.
pub proof fn hysteresis_while_unpressed(params: CalibrationParams, threshold: i32, reading: i16)
    ensures
        reading <= threshold + params.debounce ==> !params.step(
            Channel { calibration: CalibrationState::Calibrated { threshold }, state: false },
            reading,
        ).state,
        params.step(
            Channel { calibration: CalibrationState::Calibrated { threshold }, state: false },
            reading,
        ).state ==> reading > threshold + params.debounce,
{
}

/// The two switching bounds lie twice the debounce offset apart, the bound
/// for a pressed channel below the one for an unpressed channel.
pub proof fn bounds_are_two_debounce_apart(params: CalibrationParams, threshold: i32)
    requires
        params.valid(),
    ensures
        params.bound(threshold, false) - params.bound(threshold, true) == 2 * params.debounce,
        params.bound(threshold, true) <= threshold <= params.bound(threshold, false),
{
}

/// Between the two bounds a reading leaves the state as it is.
pub proof fn reading_within_band_keeps_state(
    params: CalibrationParams,
    channel: Channel,
    threshold: i32,
    reading: i16,
)
    requires
        params.valid(),
        channel.calibration == (CalibrationState::Calibrated { threshold }),
        threshold - params.debounce < reading <= threshold + params.debounce,
    ensures
        params.step(channel, reading) == channel,
{
}

/// A reading that is repeated changes the state at most the first time.
pub proof fn repeated_reading_settles(
    params: CalibrationParams,
    channel: Channel,
    reading: i16,
)
    requires
        params.valid(),
        channel.calibration is Calibrated,
    ensures
        params.step(params.step(channel, reading), reading) == params.step(channel, reading),
{
}

} // verus!
