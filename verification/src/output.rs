//! The configuration of the audio output.

use vstd::prelude::*;

verus! {

/// The number of frames that the device is asked to take at a time.
pub const WANTED_PERIOD: u32 = 2048;

/// How many frames a device can take at a time.
#[derive(Clone, Copy, PartialEq, Eq, Structural)]
pub enum BufferRange {
    Range { min: u32, max: u32 },
    Unknown,
}

/// A range of configurations that a device offers.
#[derive(Clone, Copy, PartialEq, Eq, Structural)]
pub struct OutputRange {
    /// Whether its samples are floats of four bytes.
    pub float_samples: bool,
    pub channels: u16,
    pub min_sample_rate: u32,
    pub max_sample_rate: u32,
    pub buffer: BufferRange,
}

/// What the device is asked for.
#[derive(Clone, Copy, PartialEq, Eq, Structural)]
pub struct OutputConfig {
    pub channels: u16,
    pub sample_rate: u32,
    /// How many frames it takes at a time, where that is up to the player.
    pub period: Option<u32>,
}

impl OutputRange {
    /// The range has float samples, and the channels and the rate asked for.
    pub open spec fn suits(self, channels: u16, sample_rate: u32) -> bool {
        &&& self.float_samples
        &&& self.channels == channels
        &&& self.min_sample_rate <= sample_rate <= self.max_sample_rate
    }
}

/// The buffer range of the first range that suits, else the one of the default.
pub open spec fn buffer_of(
    ranges: Seq<OutputRange>,
    channels: u16,
    sample_rate: u32,
    default_buffer: BufferRange,
) -> BufferRange
    decreases ranges.len(),
{
    if ranges.len() == 0 {
        default_buffer
    } else if ranges.first().suits(channels, sample_rate) {
        ranges.first().buffer
    } else {
        buffer_of(ranges.drop_first(), channels, sample_rate, default_buffer)
    }
}

/// The ranges that a device offers; none where they could not be listed.
pub open spec fn offered(ranges: Option<&Vec<OutputRange>>) -> Seq<OutputRange> {
    match ranges {
        Some(list) => list@,
        None => Seq::empty(),
    }
}

/// A range is one.
pub open spec fn is_range(buffer: BufferRange) -> bool {
    buffer matches BufferRange::Range { min, max } ==> min <= max
}

/// The period within a range that comes closest to the wanted one.
pub open spec fn period_in(buffer: BufferRange) -> Option<u32> {
    match buffer {
        BufferRange::Range { min, max } => Some(
            if WANTED_PERIOD < min {
                min
            } else if WANTED_PERIOD > max {
                max
            } else {
                WANTED_PERIOD
            },
        ),
        BufferRange::Unknown => None,
    }
}

/// The buffer range that decides on the period: that of the first range with float
/// samples, these channels and this rate, else the one of the default. Where the ranges
/// could not be listed, the default decides.
pub fn choose_buffer(
    channels: u16,
    sample_rate: u32,
    default_buffer: BufferRange,
    ranges: Option<&Vec<OutputRange>>,
) -> (buffer: BufferRange)
    ensures
        buffer == buffer_of(offered(ranges), channels, sample_rate, default_buffer),
{
    let list: &Vec<OutputRange> = match ranges {
        Some(list) => list,
        None => return default_buffer,
    };
    let mut i: usize = 0;
    assert(list@.skip(0) =~= list@);
    while i < list.len()
        invariant
            offered(ranges) == list@,
            i <= list@.len(),
            buffer_of(list@.skip(i as int), channels, sample_rate, default_buffer) == buffer_of(
                list@,
                channels,
                sample_rate,
                default_buffer,
            ),
        decreases list@.len() - i,
    {
        let range: OutputRange = list[i];
        assert(list@.skip(i as int).first() == range);
        assert(list@.skip(i as int).drop_first() =~= list@.skip(i + 1));
        if range.float_samples && range.channels == channels && range.min_sample_rate <= sample_rate
            && sample_rate <= range.max_sample_rate {
            return range.buffer;
        }
        i = i + 1;
    }
    default_buffer
}

/// What the device is asked for.
pub open spec fn config_of(
    channels: u16,
    sample_rate: u32,
    default_buffer: BufferRange,
    ranges: Seq<OutputRange>,
) -> OutputConfig {
    OutputConfig {
        channels,
        sample_rate,
        period: period_in(buffer_of(ranges, channels, sample_rate, default_buffer)),
    }
}

/// Chooses the configuration: channels and rate of the device's default, and a longer
/// period than usual, which makes it less likely that the device runs dry. Where the
/// ranges could not be listed, the default decides on the period too.
pub fn prepare_audio_config(
    channels: u16,
    sample_rate: u32,
    default_buffer: BufferRange,
    ranges: Option<&Vec<OutputRange>>,
) -> (config: OutputConfig)
    requires
        is_range(buffer_of(offered(ranges), channels, sample_rate, default_buffer)),
    ensures
        config == (OutputConfig {
            channels,
            sample_rate,
            period: period_in(
                buffer_of(offered(ranges), channels, sample_rate, default_buffer),
            ),
        }),
        config == config_of(channels, sample_rate, default_buffer, offered(ranges)),
{
    let period: Option<u32> = match choose_buffer(channels, sample_rate, default_buffer, ranges) {
        BufferRange::Range { min, max } => {
            if WANTED_PERIOD < min {
                Some(min)
            } else if WANTED_PERIOD > max {
                Some(max)
            } else {
                Some(WANTED_PERIOD)
            }
        },
        BufferRange::Unknown => None,
    };
    OutputConfig { channels, sample_rate, period }
}

/// The first range that suits decides: those before it, which do not, and those after it
/// make no difference.
pub proof fn law_first_suitable_range_decides(
    before: Seq<OutputRange>,
    range: OutputRange,
    after: Seq<OutputRange>,
    channels: u16,
    sample_rate: u32,
    default_buffer: BufferRange,
)
    requires
        range.suits(channels, sample_rate),
        forall|i: int| 0 <= i < before.len() ==> !(#[trigger] before[i]).suits(channels, sample_rate),
    ensures
        buffer_of(before.push(range) + after, channels, sample_rate, default_buffer)
            == range.buffer,
    decreases before.len(),
{
    let all = before.push(range) + after;
    if before.len() > 0 {
        let rest = before.drop_first();
        assert(all.first() == before[0]);
        assert(all.drop_first() =~= rest.push(range) + after);
        assert forall|i: int| 0 <= i < rest.len() implies !(#[trigger] rest[i]).suits(
            channels,
            sample_rate,
        ) by {
            assert(rest[i] == before[i + 1]);
        }
        law_first_suitable_range_decides(rest, range, after, channels, sample_rate, default_buffer);
    } else {
        assert(all.first() == range);
    }
}

/// Where no range suits, the default decides.
pub proof fn law_default_decides_last(
    ranges: Seq<OutputRange>,
    channels: u16,
    sample_rate: u32,
    default_buffer: BufferRange,
)
    requires
        forall|i: int| 0 <= i < ranges.len() ==> !(#[trigger] ranges[i]).suits(channels, sample_rate),
    ensures
        buffer_of(ranges, channels, sample_rate, default_buffer) == default_buffer,
    decreases ranges.len(),
{
    if ranges.len() > 0 {
        let rest = ranges.drop_first();
        assert(!ranges[0].suits(channels, sample_rate));
        assert forall|i: int| 0 <= i < rest.len() implies !(#[trigger] rest[i]).suits(
            channels,
            sample_rate,
        ) by {
            assert(rest[i] == ranges[i + 1]);
        }
        law_default_decides_last(rest, channels, sample_rate, default_buffer);
    }
}

/// Where the ranges could not be listed, the default decides.
pub proof fn law_default_without_ranges(
    channels: u16,
    sample_rate: u32,
    default_buffer: BufferRange,
)
    ensures
        buffer_of(offered(None), channels, sample_rate, default_buffer) == default_buffer,
{
}

/// The period is one that the device can take, and the wanted one if it can take that.
pub proof fn law_period_is_possible(min: u32, max: u32)
    requires
        min <= max,
    ensures
        ({
            let period = period_in(BufferRange::Range { min, max });
            &&& period is Some
            &&& min <= period->0 <= max
            &&& min <= WANTED_PERIOD <= max ==> period->0 == WANTED_PERIOD
        }),
{
}

/// A range suits exactly if its samples are floats, its channels are those asked for, and
/// the rate lies within its limits.
pub proof fn law_suitable_range(range: OutputRange, channels: u16, sample_rate: u32)
    ensures
        range.suits(channels, sample_rate) <==> range.float_samples && range.channels == channels
            && !(sample_rate < range.min_sample_rate) && !(sample_rate > range.max_sample_rate),
{
}

/// Of all periods that the device can take, the one that is asked for is the closest to the
/// wanted one; where it is not known which it can take, none is asked for.
pub proof fn law_period_is_the_closest(min: u32, max: u32, other: u32)
    requires
        min <= other <= max,
    ensures
        period_in(BufferRange::Unknown) is None,
        ({
            let period = period_in(BufferRange::Range { min, max });
            &&& period is Some
            &&& min <= period->0 <= max
            &&& period->0 <= 2048 ==> other <= period->0 || other >= 2048
            &&& period->0 >= 2048 ==> other >= period->0 || other <= 2048
            &&& min <= 2048 <= max ==> period->0 == 2048
        }),
{
}

/// The device keeps its own channels and rate, whatever it offers besides.
pub proof fn law_device_keeps_its_format(
    channels: u16,
    sample_rate: u32,
    default_buffer: BufferRange,
    ranges: Seq<OutputRange>,
)
    ensures
        ({
            let config = config_of(channels, sample_rate, default_buffer, ranges);
            &&& config.channels == channels
            &&& config.sample_rate == sample_rate
            &&& config.period is None <==> buffer_of(
                ranges,
                channels,
                sample_rate,
                default_buffer,
            ) is Unknown
        }),
{
}

/// All the ranges that could be listed are looked at.
pub proof fn law_listed_ranges_are_offered(ranges: &Vec<OutputRange>)
    ensures
        offered(Some(ranges)) == ranges@,
        offered(None).len() == 0,
{
}

} // verus!
