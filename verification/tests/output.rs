use auv::output::{choose_buffer, prepare_audio_config, BufferRange, OutputConfig, OutputRange};

fn range(float_samples: bool, channels: u16, min: u32, max: u32, buffer: BufferRange) -> OutputRange {
    OutputRange { float_samples, channels, min_sample_rate: min, max_sample_rate: max, buffer }
}

fn period(buffer: BufferRange) -> Option<u32> {
    prepare_audio_config(2, 48_000, buffer, Some(&Vec::new())).period
}

#[test]
fn period_comes_as_close_as_the_device_allows() {
    assert_eq!(period(BufferRange::Range { min: 16, max: 8192 }), Some(2048));
    assert_eq!(period(BufferRange::Range { min: 4096, max: 8192 }), Some(4096));
    assert_eq!(period(BufferRange::Range { min: 16, max: 1024 }), Some(1024));
    assert_eq!(period(BufferRange::Unknown), None);
}

#[test]
fn first_suitable_range_decides() {
    let ranges = vec![
        range(false, 2, 8_000, 192_000, BufferRange::Range { min: 1, max: 1 }),
        range(true, 1, 8_000, 192_000, BufferRange::Range { min: 2, max: 2 }),
        range(true, 2, 8_000, 44_100, BufferRange::Range { min: 3, max: 3 }),
        range(true, 2, 48_000, 48_000, BufferRange::Range { min: 4, max: 4 }),
        range(true, 2, 8_000, 192_000, BufferRange::Range { min: 5, max: 5 }),
    ];
    assert!(
        choose_buffer(2, 48_000, BufferRange::Unknown, Some(&ranges))
            == BufferRange::Range { min: 4, max: 4 }
    );
    let config = prepare_audio_config(2, 48_000, BufferRange::Unknown, Some(&ranges));
    assert!(config == OutputConfig { channels: 2, sample_rate: 48_000, period: Some(4) });
}

#[test]
fn default_decides_where_no_range_suits() {
    let ranges = vec![range(false, 2, 8_000, 192_000, BufferRange::Unknown)];
    let default = BufferRange::Range { min: 64, max: 256 };
    let config = prepare_audio_config(6, 44_100, default, Some(&ranges));
    assert!(config == OutputConfig { channels: 6, sample_rate: 44_100, period: Some(256) });
}

#[test]
fn default_decides_where_ranges_cannot_be_listed() {
    let default = BufferRange::Range { min: 64, max: 4096 };
    assert!(choose_buffer(2, 48_000, default, None) == default);
    let config = prepare_audio_config(2, 48_000, default, None);
    assert!(config == OutputConfig { channels: 2, sample_rate: 48_000, period: Some(2048) });
}
