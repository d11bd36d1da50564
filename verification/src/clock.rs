//! The master clock, which video follows.
//!
//! While a device plays, time is counted in samples that it has been handed. Without
//! a working device time is the system's, less the pauses. A reading gives the parts
//! that make up the time; turning them into seconds is left to the program.

use vstd::prelude::*;

verus! {

/// How far the clock has come since its base.
#[derive(Clone, Copy)]
pub enum Elapsed {
    /// `samples / (sample_rate * channels)` seconds.
    Samples { samples: u64, sample_rate: u32, channels: u32 },
    /// `nanos` nanoseconds.
    Wall { nanos: u64 },
}

/// What is left of a time once the pauses in it are taken off: never less than nothing.
pub open spec fn net_nanos(wall_nanos: int, paused_nanos: int) -> int {
    if wall_nanos >= paused_nanos {
        wall_nanos - paused_nanos
    } else {
        0
    }
}

impl Elapsed {
    /// How far, in the unit of this way of counting: `1 / (sample_rate * channels)`
    /// seconds, or nanoseconds.
    pub open spec fn ticks(self) -> int {
        match self {
            Elapsed::Samples { samples, .. } => samples as int,
            Elapsed::Wall { nanos } => nanos as int,
        }
    }
}

/// The time that a clock shows: its base and how far it has come since.
pub struct Reading<B> {
    pub base: B,
    pub elapsed: Elapsed,
}

/// The time that a reading shows, for positions that are counted in its own unit.
pub open spec fn shown(reading: Reading<int>) -> int {
    reading.base + reading.elapsed.ticks()
}

/// The master clock of one media source. `B` is the type of a position in it.
///
/// Instants are given in nanoseconds since a common origin.
pub struct MasterClock<B> {
    samples_played: u64,
    sample_rate: u32,
    channels: u32,
    start: u64,
    base: B,
    has_audio: bool,
    audio_dead: bool,
    paused_nanos: u64,
}

/// What a [`MasterClock`] stands for.
pub struct ClockModel<B> {
    /// Samples handed to the device since the last seek.
    pub samples_played: u64,
    pub sample_rate: u32,
    pub channels: u32,
    /// When the clock was started or last moved.
    pub start: u64,
    /// The position at that time.
    pub base: B,
    pub has_audio: bool,
    pub audio_dead: bool,
    /// Time spent paused since then.
    pub paused_nanos: u64,
}

/// Addition that starts anew from zero at the top.
pub open spec fn wrapped_sum(a: int, b: int) -> u64 {
    ((a + b) % 0x1_0000_0000_0000_0000) as u64
}

impl<B> ClockModel<B> {
    /// Whether time is counted in samples.
    pub open spec fn follows_audio(self) -> bool {
        self.has_audio && self.sample_rate > 0 && !self.audio_dead
    }

    /// How long, on the system's time, the source has been playing at `now`.
    pub open spec fn played_nanos(self, now: u64) -> int {
        net_nanos(net_nanos(now as int, self.start as int), self.paused_nanos as int)
    }

    /// What the clock shows at `now`.
    pub open spec fn reading(self, now: u64) -> Reading<B> {
        Reading {
            base: self.base,
            elapsed: if self.follows_audio() {
                Elapsed::Samples {
                    samples: self.samples_played,
                    sample_rate: self.sample_rate,
                    channels: self.channels,
                }
            } else {
                Elapsed::Wall { nanos: self.played_nanos(now) as u64 }
            },
        }
    }

    /// A clock that shows `base` at `now`.
    pub open spec fn started(
        sample_rate: u32,
        channels: u32,
        has_audio: bool,
        base: B,
        now: u64,
    ) -> ClockModel<B> {
        ClockModel {
            samples_played: 0,
            sample_rate,
            channels,
            start: now,
            base,
            has_audio,
            audio_dead: false,
            paused_nanos: 0,
        }
    }

    /// The clock with no samples counted.
    pub open spec fn uncounted(self) -> ClockModel<B> {
        ClockModel { samples_played: 0, ..self }
    }

    /// The clock moved to `target` at `now`.
    pub open spec fn sought(self, target: B, now: u64) -> ClockModel<B> {
        ClockModel { samples_played: 0, paused_nanos: 0, base: target, start: now, ..self }
    }

    /// The clock with another base.
    pub open spec fn rebased(self, base: B) -> ClockModel<B> {
        ClockModel { base, ..self }
    }

    /// The clock after the output device has failed.
    pub open spec fn without_audio(self) -> ClockModel<B> {
        ClockModel { audio_dead: true, ..self }
    }

    /// The clock after another `count` samples.
    pub open spec fn advanced(self, count: int) -> ClockModel<B> {
        ClockModel { samples_played: wrapped_sum(self.samples_played as int, count), ..self }
    }

    /// The clock after another pause.
    pub open spec fn after_pause(self, nanos: int) -> ClockModel<B> {
        ClockModel { paused_nanos: wrapped_sum(self.paused_nanos as int, nanos), ..self }
    }
}

impl<B> View for MasterClock<B> {
    type V = ClockModel<B>;

    closed spec fn view(&self) -> ClockModel<B> {
        ClockModel {
            samples_played: self.samples_played,
            sample_rate: self.sample_rate,
            channels: self.channels,
            start: self.start,
            base: self.base,
            has_audio: self.has_audio,
            audio_dead: self.audio_dead,
            paused_nanos: self.paused_nanos,
        }
    }
}

impl<B: Copy> MasterClock<B> {
    /// A clock that shows `base` at `now`.
    pub fn new(
        sample_rate: u32,
        channels: u32,
        has_audio: bool,
        base: B,
        now: u64,
    ) -> (clock: MasterClock<B>)
        ensures
            clock@ == (ClockModel::<B> {
                samples_played: 0,
                sample_rate,
                channels,
                start: now,
                base,
                has_audio,
                audio_dead: false,
                paused_nanos: 0,
            }),
            clock@ == ClockModel::started(sample_rate, channels, has_audio, base, now),
    {
        MasterClock {
            samples_played: 0,
            sample_rate,
            channels,
            start: now,
            base,
            has_audio,
            audio_dead: false,
            paused_nanos: 0,
        }
    }

    /// Counts a pause of `nanos` nanoseconds, of which the low 64 bits matter.
    pub fn add_pause_duration(&mut self, nanos: u128)
        ensures
            final(self)@ == old(self)@.after_pause(nanos as int),
    {
        let low: u64 = (nanos % 0x1_0000_0000_0000_0000) as u64;
        proof {
            lemma_wrap_twice(self.paused_nanos as int, nanos as int);
            lemma_wrapping_add(self.paused_nanos, low);
        }
        self.paused_nanos = self.paused_nanos.wrapping_add(low);
    }

    /// Moves the clock to `target_sec`: counting starts anew from there.
    pub fn seek_to(&mut self, target_sec: B, now: u64)
        ensures
            final(self)@ == old(self)@.sought(target_sec, now),
    {
        self.samples_played = 0;
        self.paused_nanos = 0;
        self.base = target_sec;
        self.start = now;
    }

    /// Shifts the base and keeps what was counted since.
    pub fn rebase(&mut self, base: B)
        ensures
            final(self)@ == old(self)@.rebased(base),
    {
        self.base = base;
    }

    /// What the clock shows at `now`, in parts.
    pub fn get_time_sec(&self, now: u64) -> (reading: Reading<B>)
        ensures
            reading == self@.reading(now),
    {
        let audio_ok = self.has_audio && self.sample_rate > 0 && !self.audio_dead;
        let elapsed = if audio_ok {
            Elapsed::Samples {
                samples: self.samples_played,
                sample_rate: self.sample_rate,
                channels: self.channels,
            }
        } else {
            let wall_nanos: u64 = if now >= self.start {
                now - self.start
            } else {
                0
            };
            let nanos: u64 = if wall_nanos >= self.paused_nanos {
                wall_nanos - self.paused_nanos
            } else {
                0
            };
            Elapsed::Wall { nanos }
        };
        Reading { base: self.base, elapsed }
    }

    /// Counts samples that were handed to the device.
    pub fn add_samples(&mut self, count: u64)
        ensures
            final(self)@ == old(self)@.advanced(count as int),
    {
        proof {
            lemma_wrapping_add(self.samples_played, count);
        }
        self.samples_played = self.samples_played.wrapping_add(count);
    }

    /// Starts the sample count anew.
    pub fn reset_samples(&mut self)
        ensures
            final(self)@ == (ClockModel { samples_played: 0, ..old(self)@ }),
            final(self)@ == old(self)@.uncounted(),
    {
        self.samples_played = 0;
    }

    /// Notes that the output device has failed. Returns whether this is news.
    pub fn mark_audio_dead(&mut self) -> (first: bool)
        ensures
            first == !old(self)@.audio_dead,
            final(self)@ == old(self)@.without_audio(),
    {
        let first = !self.audio_dead;
        self.audio_dead = true;
        first
    }

    /// Whether the output device has failed.
    pub fn audio_dead(&self) -> (dead: bool)
        ensures
            dead == self@.audio_dead,
    {
        self.audio_dead
    }
}

proof fn lemma_wrapping_add(a: u64, b: u64)
    ensures
        a.wrapping_add(b) == wrapped_sum(a as int, b as int),
{
    if a + b >= 0x1_0000_0000_0000_0000 {
        assert((a + b) % 0x1_0000_0000_0000_0000 == a + b - 0x1_0000_0000_0000_0000);
    } else {
        assert((a + b) % 0x1_0000_0000_0000_0000 == a + b);
    }
}

proof fn lemma_wrap_twice(a: int, b: int)
    ensures
        wrapped_sum(a, b % 0x1_0000_0000_0000_0000) == wrapped_sum(a, b),
{
    vstd::arithmetic::div_mod::lemma_add_mod_noop_right(a, b, 0x1_0000_0000_0000_0000);
}

/// Right after a seek the clock shows the target, on either way of counting.
pub proof fn law_seek_shows_target<B>(clock: ClockModel<B>, target: B, now: u64)
    ensures
        clock.sought(target, now).reading(now).base == target,
        clock.sought(target, now).reading(now).elapsed.ticks() == 0,
        clock.sought(target, now).follows_audio() == clock.follows_audio(),
{
}

/// A seek starts the clock anew: samples, pauses and bases from before it no longer
/// count. From then on the clock shows the target and the samples played since; or,
/// without a working device, the target and the time since, less the pauses since, and
/// never less than the target.
pub proof fn law_seek_forgets_the_past<B>(
    clock: ClockModel<B>,
    target: B,
    at: u64,
    samples: u64,
    pause: u64,
    now: u64,
)
    ensures
        ({
            let later = clock.sought(target, at).advanced(samples as int).after_pause(
                pause as int,
            );
            &&& later.reading(now).base == target
            &&& clock.follows_audio() ==> later.reading(now).elapsed == (Elapsed::Samples {
                samples,
                sample_rate: clock.sample_rate,
                channels: clock.channels,
            })
            &&& !clock.follows_audio() ==> later.reading(now).elapsed == (Elapsed::Wall {
                nanos: net_nanos(net_nanos(now as int, at as int), pause as int) as u64,
            })
        }),
{
    lemma_wrapping_add(0, samples);
    lemma_wrapping_add(0, pause);
}

/// The clock never shows a time before its base, however long the pauses; and with
/// pauses longer than the time since, it shows the base.
pub proof fn law_never_before_base<B>(clock: ClockModel<B>, now: u64)
    ensures
        clock.reading(now).base == clock.base,
        clock.reading(now).elapsed.ticks() >= 0,
        !clock.follows_audio() ==> clock.reading(now).elapsed.ticks() == clock.played_nanos(now),
        !clock.follows_audio() && now - clock.start <= clock.paused_nanos ==> clock.reading(
            now,
        ).elapsed.ticks() == 0,
{
}

/// Shifting the base by what is missing aligns the clock: it then shows just the time
/// asked for, on either way of counting, and keeps what it has counted.
pub proof fn law_rebase_aligns(clock: ClockModel<int>, time: int, now: u64)
    ensures
        ({
            let base = clock.base + time - shown(clock.reading(now));
            &&& shown(clock.rebased(base).reading(now)) == time
            &&& clock.rebased(base).reading(now).elapsed == clock.reading(now).elapsed
        }),
{
}

/// A failed device alone is enough to put the clock on the system's time.
pub proof fn law_failed_device_switches_clock<B>(clock: ClockModel<B>, now: u64)
    ensures
        clock.without_audio().reading(now) == (Reading {
            base: clock.base,
            elapsed: Elapsed::Wall { nanos: clock.played_nanos(now) as u64 },
        }),
{
}

/// While it follows the audio the clock stands still between samples: neither the
/// passing of time nor a pause moves it.
pub proof fn law_audio_clock_ignores_time<B>(
    clock: ClockModel<B>,
    earlier: u64,
    later: u64,
    pause: int,
)
    requires
        clock.follows_audio(),
    ensures
        clock.reading(earlier) == clock.reading(later),
        clock.after_pause(pause).reading(later) == clock.reading(later),
{
}

/// Blocks of samples add up, in any grouping.
pub proof fn law_samples_add_up<B>(clock: ClockModel<B>, first: int, second: int)
    requires
        0 <= first,
        0 <= second,
    ensures
        clock.advanced(first).advanced(second) == clock.advanced(first + second),
{
    lemma_sum_of_wrapped(clock.samples_played as int, first, second);
}

/// Without a working device the clock follows the system's time, and samples do not
/// move it.
pub proof fn law_wall_clock_ignores_samples<B>(clock: ClockModel<B>, count: int, now: u64)
    requires
        !clock.follows_audio(),
    ensures
        clock.reading(now).elapsed is Wall,
        clock.advanced(count).reading(now) == clock.reading(now),
{
}

/// A pause is taken off the time that has passed: a clock that was paused for a while
/// shows, after that while, what it showed before.
pub proof fn law_pause_is_taken_off<B>(clock: ClockModel<B>, now: u64, pause: u64)
    requires
        clock.start <= now,
        now + pause <= u64::MAX,
        clock.paused_nanos + pause <= u64::MAX,
    ensures
        clock.after_pause(pause as int).reading((now + pause) as u64) == clock.reading(now),
{
    lemma_wrapping_add(clock.paused_nanos, pause);
}

/// Pauses add up, in any grouping.
pub proof fn law_pauses_add_up<B>(clock: ClockModel<B>, first: int, second: int)
    requires
        0 <= first,
        0 <= second,
    ensures
        clock.after_pause(first).after_pause(second) == clock.after_pause(first + second),
{
    lemma_sum_of_wrapped(clock.paused_nanos as int, first, second);
}

/// A device that has failed stays failed: nothing that the clock does brings the
/// audio back.
pub proof fn law_dead_audio_stays_dead<B>(
    clock: ClockModel<B>,
    target: B,
    now: u64,
    count: int,
    pause: int,
)
    requires
        clock.audio_dead,
    ensures
        !clock.follows_audio(),
        clock.sought(target, now).audio_dead,
        clock.advanced(count).audio_dead,
        clock.after_pause(pause).audio_dead,
{
}

proof fn lemma_sum_of_wrapped(start: int, first: int, second: int)
    requires
        0 <= start,
        0 <= first,
        0 <= second,
    ensures
        wrapped_sum(wrapped_sum(start, first) as int, second) == wrapped_sum(start, first + second),
{
    let m: int = 0x1_0000_0000_0000_0000;
    let once = (start + first) % m;
    assert(wrapped_sum(start, first) == once);
    vstd::arithmetic::div_mod::lemma_add_mod_noop(start + first, second, m);
    vstd::arithmetic::div_mod::lemma_add_mod_noop(once, second, m);
    assert(once % m == once);
}

/// The clock counts samples exactly while a device with a rate plays and has not failed,
/// and then shows the samples played; else it shows the time since its start, less the
/// pauses.
pub proof fn law_clock_counts<B>(clock: ClockModel<B>, now: u64)
    ensures
        clock.follows_audio() <==> clock.has_audio && clock.sample_rate > 0 && !clock.audio_dead,
        clock.reading(now).elapsed is Samples <==> clock.follows_audio(),
        clock.reading(now).elapsed matches Elapsed::Samples { samples, sample_rate, channels } ==> {
            &&& samples == clock.samples_played
            &&& sample_rate == clock.sample_rate
            &&& channels == clock.channels
        },
        clock.reading(now).elapsed matches Elapsed::Wall { nanos } ==> {
            &&& now >= clock.start + clock.paused_nanos ==> nanos == now - clock.start
                - clock.paused_nanos
            &&& now < clock.start + clock.paused_nanos ==> nanos == 0
        },
        clock.reading(now).base == clock.base,
{
}

/// Later readings are never behind earlier ones, as long as nobody moves the clock.
pub proof fn law_clock_never_runs_backwards<B>(clock: ClockModel<B>, earlier: u64, later: u64)
    requires
        earlier <= later,
    ensures
        clock.reading(earlier).elapsed.ticks() <= clock.reading(later).elapsed.ticks(),
{
}

/// Each change touches what it is about and nothing else.
pub proof fn law_changes_are_separate<B>(
    clock: ClockModel<B>,
    target: B,
    now: u64,
    count: u64,
    pause: u64,
)
    ensures
        ({
            let sought = clock.sought(target, now);
            &&& sought.samples_played == 0 && sought.paused_nanos == 0
            &&& sought.base == target && sought.start == now
            &&& sought.sample_rate == clock.sample_rate && sought.channels == clock.channels
            &&& sought.has_audio == clock.has_audio && sought.audio_dead == clock.audio_dead
        }),
        clock.samples_played + count <= u64::MAX ==> clock.advanced(count as int).samples_played
            == clock.samples_played + count,
        clock.samples_played + count > u64::MAX ==> clock.advanced(count as int).samples_played
            == clock.samples_played + count - u64::MAX - 1,
        clock.advanced(count as int) == (ClockModel {
            samples_played: clock.advanced(count as int).samples_played,
            ..clock
        }),
        clock.paused_nanos + pause <= u64::MAX ==> clock.after_pause(pause as int).paused_nanos
            == clock.paused_nanos + pause,
        clock.paused_nanos + pause > u64::MAX ==> clock.after_pause(pause as int).paused_nanos
            == clock.paused_nanos + pause - u64::MAX - 1,
        clock.after_pause(pause as int) == (ClockModel {
            paused_nanos: clock.after_pause(pause as int).paused_nanos,
            ..clock
        }),
        clock.rebased(target) == (ClockModel { base: target, ..clock }),
        clock.without_audio() == (ClockModel { audio_dead: true, ..clock }),
{
    lemma_wrapping_add(clock.samples_played, count);
    lemma_wrapping_add(clock.paused_nanos, pause);
}

/// A new clock shows its base at its start, whichever way it counts, and follows the audio
/// exactly if it was told so and the device has a rate.
pub proof fn law_new_clock_shows_its_base<B>(
    sample_rate: u32,
    channels: u32,
    has_audio: bool,
    base: B,
    now: u64,
    later: u64,
)
    requires
        now <= later,
    ensures
        ({
            let clock = ClockModel::started(sample_rate, channels, has_audio, base, now);
            &&& clock.reading(now).base == base
            &&& clock.reading(now).elapsed.ticks() == 0
            &&& clock.follows_audio() <==> has_audio && sample_rate > 0
            &&& !clock.follows_audio() ==> clock.reading(later).elapsed.ticks() == later - now
            &&& clock.reading(later).elapsed matches Elapsed::Samples {
                sample_rate: rate,
                channels: width,
                ..
            } ==> rate == sample_rate && width == channels
        }),
{
}

/// Forgetting the samples touches nothing else.
pub proof fn law_samples_are_forgotten<B>(clock: ClockModel<B>, now: u64)
    ensures
        clock.uncounted().samples_played == 0,
        clock.follows_audio() ==> clock.uncounted().reading(now).elapsed.ticks() == 0,
        !clock.follows_audio() ==> clock.uncounted().reading(now) == clock.reading(now),
        clock.uncounted().base == clock.base,
        clock.uncounted().start == clock.start,
        clock.uncounted().sample_rate == clock.sample_rate,
        clock.uncounted().channels == clock.channels,
        clock.uncounted().has_audio == clock.has_audio,
        clock.uncounted().audio_dead == clock.audio_dead,
        clock.uncounted().paused_nanos == clock.paused_nanos,
{
}

/// Sums that start anew at the top are off by whole rounds only.
pub proof fn law_sums_are_off_by_whole_rounds(a: int, b: int)
    ensures
        (a + b - wrapped_sum(a, b)) % 0x1_0000_0000_0000_0000 == 0,
{
}

} // verus!
