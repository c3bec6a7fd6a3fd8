use fsrpad::adc::MAX_CHANNELS;
use fsrpad::calibration::{
    build_channels, CalibrationParams, CalibrationState, Calibrator, Channel, ConfigError,
    Thresholds,
};

fn calibrator(warmup_iterations: u64, warmup_threshold_offset: i32, debounce: i32) -> Calibrator {
    Calibrator::new(CalibrationParams { warmup_iterations, warmup_threshold_offset, debounce })
        .unwrap()
}

fn feed(calibrator: &Calibrator, channel: &mut Channel, readings: &[i16]) -> Vec<bool> {
    readings.iter().map(|reading| calibrator.update(channel, *reading)).collect()
}

#[test]
fn explicit_threshold_with_debounce_follows_the_bounds() {
    let calibrator = calibrator(100, 1000, 10);
    let mut channel = Channel::calibrated(1000);
    let states = feed(&calibrator, &mut channel, &[900, 1005, 1015, 995, 985]);
    assert_eq!(states, vec![false, false, true, true, false]);
    assert_eq!(channel.threshold(), Some(1000));
}

#[test]
fn warmup_fixes_threshold_after_three_cycles() {
    let calibrator = calibrator(3, 100, 10);
    let mut channel = Channel::warming();
    for seen in 1..=3u64 {
        assert!(!calibrator.update(&mut channel, 10));
        assert_eq!(channel.calibration, CalibrationState::Warming { samples_seen: seen });
        assert_eq!(channel.threshold(), None);
    }
    assert!(!calibrator.update(&mut channel, 10));
    assert_eq!(channel.calibration, CalibrationState::Calibrated { threshold: 110 });
    assert!(!calibrator.update(&mut channel, 50));
    assert_eq!(channel.calibration, CalibrationState::Calibrated { threshold: 110 });
    assert!(!channel.state);
}

#[test]
fn new_channels_start_unpressed() {
    assert_eq!(
        Channel::warming(),
        Channel { calibration: CalibrationState::Warming { samples_seen: 0 }, state: false }
    );
    assert_eq!(
        Channel::calibrated(-7),
        Channel { calibration: CalibrationState::Calibrated { threshold: -7 }, state: false }
    );
}

#[test]
fn warming_channel_ignores_every_reading() {
    let calibrator = calibrator(5, 0, 0);
    for start in [false, true] {
        let mut channel =
            Channel { calibration: CalibrationState::Warming { samples_seen: 0 }, state: start };
        for (i, reading) in [i16::MAX, i16::MIN, 0, -1, 1].into_iter().enumerate() {
            assert_eq!(calibrator.update(&mut channel, reading), start);
            assert_eq!(
                channel.calibration,
                CalibrationState::Warming { samples_seen: i as u64 + 1 }
            );
        }
    }
}

#[test]
fn calibrating_reading_leaves_state_alone() {
    let calibrator = calibrator(0, -5, 0);
    let mut channel =
        Channel { calibration: CalibrationState::Warming { samples_seen: 0 }, state: true };
    assert!(calibrator.update(&mut channel, 20000));
    assert_eq!(channel.calibration, CalibrationState::Calibrated { threshold: 19995 });
}

#[test]
fn zero_warmup_calibrates_on_first_reading() {
    let calibrator = calibrator(0, 1000, 10);
    let mut channel = Channel::warming();
    assert!(!calibrator.update(&mut channel, 250));
    assert_eq!(channel.threshold(), Some(1250));
    assert!(calibrator.update(&mut channel, 1261));
}

#[test]
fn threshold_is_reading_plus_offset_with_negative_offset() {
    let calibrator = calibrator(2, -300, 0);
    let mut channel = Channel::warming();
    feed(&calibrator, &mut channel, &[1, 2, -100]);
    assert_eq!(channel.threshold(), Some(-400));
}

#[test]
fn threshold_stays_after_calibration() {
    let calibrator = calibrator(1, 100, 5);
    let mut channel = Channel::warming();
    feed(&calibrator, &mut channel, &[0, 40]);
    assert_eq!(channel.threshold(), Some(140));
    for reading in [i16::MIN, -1, 0, 139, 140, 141, 146, i16::MAX, 0] {
        calibrator.update(&mut channel, reading);
        assert_eq!(channel.calibration, CalibrationState::Calibrated { threshold: 140 });
    }
}

#[test]
fn threshold_at_the_ends_of_the_offset_range() {
    let high = calibrator(0, i32::MAX - 32767, 0);
    let mut channel = Channel::warming();
    high.update(&mut channel, i16::MAX);
    assert_eq!(channel.threshold(), Some(i32::MAX));
    let low = calibrator(0, i32::MIN + 32768, 0);
    let mut channel = Channel::warming();
    low.update(&mut channel, i16::MIN);
    assert_eq!(channel.threshold(), Some(i32::MIN));
}

#[test]
fn pressed_channel_releases_at_the_lower_bound() {
    let calibrator = calibrator(0, 0, 10);
    let pressed =
        Channel { calibration: CalibrationState::Calibrated { threshold: 1000 }, state: true };
    let mut channel = pressed;
    assert!(calibrator.update(&mut channel, 991));
    assert_eq!(channel, pressed);
    let mut channel = pressed;
    assert!(!calibrator.update(&mut channel, 990));
    let mut channel = pressed;
    assert!(!calibrator.update(&mut channel, 989));
    let mut channel = pressed;
    assert!(calibrator.update(&mut channel, 1000));
}

#[test]
fn unpressed_channel_presses_above_the_upper_bound() {
    let calibrator = calibrator(0, 0, 10);
    let unpressed = Channel::calibrated(1000);
    let mut channel = unpressed;
    assert!(!calibrator.update(&mut channel, 1010));
    assert_eq!(channel, unpressed);
    let mut channel = unpressed;
    assert!(calibrator.update(&mut channel, 1011));
    let mut channel = unpressed;
    assert!(!calibrator.update(&mut channel, 1000));
}

#[test]
fn reading_inside_the_band_keeps_either_state() {
    let calibrator = calibrator(0, 0, 10);
    for state in [false, true] {
        for reading in 991..=1010i16 {
            let mut channel =
                Channel { calibration: CalibrationState::Calibrated { threshold: 1000 }, state };
            assert_eq!(calibrator.update(&mut channel, reading), state);
        }
    }
}

#[test]
fn repeated_reading_changes_state_at_most_once() {
    let calibrator = calibrator(0, 0, 3);
    for state in [false, true] {
        for reading in -20..=20i16 {
            let mut channel =
                Channel { calibration: CalibrationState::Calibrated { threshold: 0 }, state };
            let first = calibrator.update(&mut channel, reading);
            assert_eq!(calibrator.update(&mut channel, reading), first);
            assert_eq!(calibrator.update(&mut channel, reading), first);
        }
    }
}

#[test]
fn zero_debounce_compares_with_the_threshold() {
    let calibrator = calibrator(0, 0, 0);
    let mut channel = Channel::calibrated(5);
    assert_eq!(feed(&calibrator, &mut channel, &[5, 6, 5, 4, 6]), vec![
        false, true, false, false, true
    ]);
}

#[test]
fn bounds_do_not_overflow_at_the_ends_of_the_range() {
    let calibrator = calibrator(0, 0, i32::MAX);
    let mut channel = Channel::calibrated(i32::MAX);
    assert!(!calibrator.update(&mut channel, i16::MAX));
    let mut channel =
        Channel { calibration: CalibrationState::Calibrated { threshold: i32::MIN }, state: true };
    assert!(calibrator.update(&mut channel, i16::MIN));
    let mut channel =
        Channel { calibration: CalibrationState::Calibrated { threshold: i32::MAX }, state: true };
    assert!(calibrator.update(&mut channel, 1));
    assert!(!calibrator.update(&mut channel, 0));
}

#[test]
fn negative_debounce_is_turned_down() {
    let params =
        CalibrationParams { warmup_iterations: 1, warmup_threshold_offset: 0, debounce: -1 };
    assert_eq!(Calibrator::new(params).err(), Some(ConfigError::NegativeDebounce));
    let both = CalibrationParams {
        warmup_iterations: 1,
        warmup_threshold_offset: i32::MAX,
        debounce: i32::MIN,
    };
    assert_eq!(Calibrator::new(both).err(), Some(ConfigError::NegativeDebounce));
}

#[test]
fn offset_out_of_range_is_turned_down() {
    for offset in [i32::MAX, i32::MAX - 32766, i32::MIN, i32::MIN + 32767] {
        let params = CalibrationParams {
            warmup_iterations: 1,
            warmup_threshold_offset: offset,
            debounce: 0,
        };
        assert_eq!(Calibrator::new(params).err(), Some(ConfigError::OffsetOutOfRange));
    }
}

#[test]
fn valid_parameters_are_kept() {
    let params =
        CalibrationParams { warmup_iterations: 100, warmup_threshold_offset: 1000, debounce: 10 };
    assert_eq!(Calibrator::new(params).unwrap().params(), params);
    let edge = CalibrationParams {
        warmup_iterations: u64::MAX,
        warmup_threshold_offset: i32::MIN + 32768,
        debounce: i32::MAX,
    };
    assert_eq!(Calibrator::new(edge).unwrap().params(), edge);
}

#[test]
fn warmup_that_never_ends_keeps_counting() {
    let calibrator = calibrator(u64::MAX, 0, 0);
    let mut channel = Channel {
        calibration: CalibrationState::Warming { samples_seen: u64::MAX - 1 },
        state: false,
    };
    calibrator.update(&mut channel, 7);
    assert_eq!(channel.calibration, CalibrationState::Warming { samples_seen: u64::MAX });
    calibrator.update(&mut channel, 7);
    assert_eq!(channel.calibration, CalibrationState::Calibrated { threshold: 7 });
}

#[test]
fn channels_are_built_from_per_channel_thresholds() {
    let channels = build_channels(4, &Thresholds::PerChannel(vec![10, -20])).unwrap();
    assert_eq!(channels, vec![
        Channel::calibrated(10),
        Channel::calibrated(-20),
        Channel::warming(),
        Channel::warming(),
    ]);
}

#[test]
fn channels_without_thresholds_all_warm_up() {
    let channels = build_channels(3, &Thresholds::PerChannel(vec![])).unwrap();
    assert_eq!(channels, vec![Channel::warming(); 3]);
    assert_eq!(build_channels(0, &Thresholds::PerChannel(vec![])).unwrap(), vec![]);
}

#[test]
fn channels_are_built_from_a_uniform_threshold() {
    let channels = build_channels(MAX_CHANNELS, &Thresholds::Uniform(512)).unwrap();
    assert_eq!(channels, vec![Channel::calibrated(512); 4]);
    assert_eq!(build_channels(0, &Thresholds::Uniform(512)).unwrap(), vec![]);
}

#[test]
fn too_many_channels_are_turned_down() {
    assert_eq!(
        build_channels(5, &Thresholds::PerChannel(vec![])).err(),
        Some(ConfigError::TooManyChannels)
    );
    assert_eq!(
        build_channels(5, &Thresholds::PerChannel(vec![0; 6])).err(),
        Some(ConfigError::TooManyChannels)
    );
    assert_eq!(
        build_channels(usize::MAX, &Thresholds::Uniform(1)).err(),
        Some(ConfigError::TooManyChannels)
    );
}

#[test]
fn too_many_thresholds_are_turned_down() {
    assert_eq!(
        build_channels(4, &Thresholds::PerChannel(vec![1, 2, 3, 4, 5])).err(),
        Some(ConfigError::TooManyThresholds)
    );
    assert_eq!(
        build_channels(1, &Thresholds::PerChannel(vec![1, 2])).err(),
        Some(ConfigError::TooManyThresholds)
    );
    assert!(build_channels(4, &Thresholds::PerChannel(vec![1, 2, 3, 4])).is_ok());
}

#[test]
fn thresholds_answer_for_each_channel() {
    let list = Thresholds::PerChannel(vec![5, -6]);
    assert_eq!(list.get(0), Some(5));
    assert_eq!(list.get(1), Some(-6));
    assert_eq!(list.get(2), None);
    assert_eq!(list.count_needed(), 2);
    let uniform = Thresholds::Uniform(9);
    assert_eq!(uniform.get(0), Some(9));
    assert_eq!(uniform.get(usize::MAX), Some(9));
    assert_eq!(uniform.count_needed(), 0);
}
