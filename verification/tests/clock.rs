use auv::clock::{Elapsed, MasterClock, Reading};

fn seconds(reading: Reading<f64>) -> f64 {
    match reading.elapsed {
        Elapsed::Samples { samples, sample_rate, channels } => {
            reading.base + samples as f64 / (sample_rate as f64 * channels as f64)
        }
        Elapsed::Wall { nanos } => reading.base + nanos as f64 / 1e9,
    }
}

#[test]
fn audio_clock_counts_samples() {
    let mut clock = MasterClock::new(48_000, 2, true, 0.0, 0);
    assert_eq!(seconds(clock.get_time_sec(5_000_000_000)), 0.0);
    clock.add_samples(48_000);
    clock.add_samples(48_000);
    assert_eq!(seconds(clock.get_time_sec(0)), 1.0);
    clock.add_pause_duration(7_000_000_000);
    assert_eq!(seconds(clock.get_time_sec(9_000_000_000)), 1.0);
}

#[test]
fn wall_clock_without_audio_takes_pauses_off() {
    let mut clock = MasterClock::new(48_000, 2, false, 0.0, 1_000_000_000);
    assert_eq!(seconds(clock.get_time_sec(3_000_000_000)), 2.0);
    clock.add_pause_duration(1_500_000_000);
    assert_eq!(seconds(clock.get_time_sec(4_500_000_000)), 2.0);
    clock.add_samples(1_000_000);
    assert_eq!(seconds(clock.get_time_sec(4_500_000_000)), 2.0);
}

#[test]
fn wall_clock_never_runs_backwards_past_its_base() {
    let mut clock = MasterClock::new(0, 0, true, 4.0, 2_000_000_000);
    clock.add_pause_duration(9_000_000_000);
    assert_eq!(seconds(clock.get_time_sec(3_000_000_000)), 4.0);
    assert_eq!(seconds(clock.get_time_sec(1_000_000_000)), 4.0);
}

#[test]
fn device_without_a_rate_is_no_clock() {
    let clock = MasterClock::new(0, 2, true, 0.0, 0);
    assert!(matches!(clock.get_time_sec(1).elapsed, Elapsed::Wall { nanos: 1 }));
}

#[test]
fn seek_moves_the_base_and_restarts_counting() {
    let mut clock = MasterClock::new(10, 1, true, 0.0, 0);
    clock.add_samples(55);
    clock.add_pause_duration(8);
    clock.seek_to(30.0, 100);
    assert_eq!(seconds(clock.get_time_sec(100)), 30.0);
    clock.add_samples(5);
    assert_eq!(seconds(clock.get_time_sec(100)), 30.5);
    clock.mark_audio_dead();
    assert_eq!(seconds(clock.get_time_sec(1_000_000_100)), 31.0);
}

#[test]
fn rebase_keeps_what_was_counted() {
    let mut clock = MasterClock::new(10, 1, true, 0.0, 0);
    clock.add_samples(20);
    let reading = clock.get_time_sec(0);
    let shown = seconds(reading);
    clock.rebase(0.0 + 7.5 - shown);
    assert_eq!(seconds(clock.get_time_sec(0)), 7.5);
    clock.reset_samples();
    assert_eq!(seconds(clock.get_time_sec(0)), 5.5);
}

#[test]
fn device_failure_is_news_once() {
    let mut clock = MasterClock::new(48_000, 2, true, 0.0, 0);
    assert!(!clock.audio_dead());
    assert!(clock.mark_audio_dead());
    assert!(!clock.mark_audio_dead());
    assert!(clock.audio_dead());
    clock.seek_to(1.0, 0);
    assert!(clock.audio_dead());
}

#[test]
fn counters_wrap_around() {
    let mut clock = MasterClock::new(1, 1, true, 0.0, 0);
    clock.add_samples(u64::MAX);
    clock.add_samples(3);
    assert!(matches!(clock.get_time_sec(0).elapsed, Elapsed::Samples { samples: 2, .. }));
    let mut wall = MasterClock::new(1, 1, false, 0.0, 0);
    wall.add_pause_duration((1u128 << 64) + 5);
    assert!(matches!(wall.get_time_sec(9).elapsed, Elapsed::Wall { nanos: 4 }));
}

#[test]
fn long_pause_does_not_move_the_clock_before_its_base() {
    let mut clock = MasterClock::new(0, 0, false, 0.0, 0);
    clock.seek_to(42.0, 5);
    clock.add_pause_duration(3_600_000_000_000);
    assert_eq!(seconds(clock.get_time_sec(1_000_000_005)), 42.0);
}

#[test]
fn seek_forgets_earlier_pauses() {
    let mut clock = MasterClock::new(0, 0, false, 0.0, 0);
    clock.add_pause_duration(9_000_000_000);
    clock.rebase(5.0);
    clock.seek_to(10.0, 20_000_000_000);
    clock.add_pause_duration(500_000_000);
    assert_eq!(seconds(clock.get_time_sec(22_000_000_000)), 11.5);
}
