//! The audio decoder thread as a state machine, and the rules of audio output.
//!
//! The thread decodes, resamples and pushes samples into the ring until its
//! packets end, flushes the resampler, waits until the ring has been played,
//! announces that, and lingers to answer seeks until the demuxer is gone. A dead
//! output device cuts the playing short but not the answering.

use crate::video::{Received, DECODE_RECEIVE_MS, LINGER_RECEIVE_MS, RECHECK_MS};
use vstd::prelude::*;
use vstd::arithmetic::div_mod::lemma_fundamental_div_mod;

verus! {

/// How long to sleep while the ring plays out, in milliseconds.
pub const PLAY_OUT_SLEEP_MS: u64 = 5;

/// How long to sleep while the ring is full, in milliseconds.
pub const RING_FULL_SLEEP_MS: u64 = 1;

/// How long to sleep while the device has not emptied the ring, in milliseconds.
pub const CLEAR_SLEEP_MS: u64 = 5;

/// How often to sleep for the device to empty the ring.
pub const CLEAR_SLEEPS: u32 = 20;

/// The frame capacity with which a resampler that never ran is flushed.
pub const FLUSH_CAPACITY: usize = 8192;

/// Where the audio thread is in its life.
#[derive(Clone, Copy)]
pub enum AudioPhase {
    /// Packets are received, decoded and resampled.
    Decoding,
    /// The packets have ended; the decoder is being emptied.
    Emptying,
    /// The resampler is being emptied.
    Flushing,
    /// The ring is being played out.
    PlayingOut,
    /// The end was announced; packets are thrown away and seeks answered.
    Lingering,
    /// The demuxer is gone.
    Finished,
}

/// What the thread has to do next.
#[derive(Clone, Copy)]
pub enum AudioAction {
    /// Flush the decoder, throw queued packets away, have the ring emptied, restart
    /// the sample count and the resampler, and report ready for the epoch.
    Reset { epoch: u64 },
    /// Wait until playing is resumed or the time is up.
    AwaitResume { timeout_ms: u64 },
    /// Wait for a packet.
    Receive { timeout_ms: u64 },
    /// Hand the received packet to the decoder and push the frames it yields.
    Decode,
    /// Tell the decoder that no packet follows and push the frames it yields.
    DecodeRest,
    /// Flush the resampler once into a frame of `capacity` samples, which has to be
    /// made first where `fresh` says so.
    Flush { capacity: usize, fresh: bool },
    /// Sleep and look again.
    Sleep { millis: u64 },
    /// Tell the video thread that the audio is done.
    AnnounceDone,
    /// Look again.
    Again,
    /// Leave the thread.
    Stop,
}

/// What the thread sees when it looks around.
#[derive(Clone, Copy)]
pub struct AudioSight {
    /// The newest epoch, where the thread has not handled it.
    pub seek: Option<u64>,
    pub paused: bool,
    pub audio_dead: bool,
    /// Whether there is nothing left to play.
    pub played_out: bool,
}

/// What one flush of the resampler came to.
#[derive(Clone, Copy)]
pub enum Flushed {
    Failed,
    /// It yielded `samples` samples, which the ring took unless the device died.
    Yielded { samples: usize, taken: bool },
}

/// Something that happens to the thread.
pub enum AudioEvent {
    Poll(AudioSight),
    Received(Received),
    /// The frames of a decoding step were handled; `alive` unless the device died.
    FramesHandled { alive: bool },
    Flushed(Flushed),
}

/// The state of the audio thread.
#[derive(Clone, Copy)]
pub struct AudioThread {
    pub phase: AudioPhase,
    /// The newest epoch that the thread has handled.
    pub local_epoch: u64,
    /// How many samples the resampler's output frame has room for.
    pub capacity: usize,
}

impl AudioPhase {
    /// The place of a phase in the order in which phases follow each other.
    pub open spec fn rank(self) -> int {
        match self {
            AudioPhase::Decoding => 0,
            AudioPhase::Emptying => 1,
            AudioPhase::Flushing => 2,
            AudioPhase::PlayingOut => 3,
            AudioPhase::Lingering => 4,
            AudioPhase::Finished => 5,
        }
    }
}

impl AudioThread {
    /// The same thread in another phase.
    pub open spec fn entering(self, phase: AudioPhase) -> AudioThread {
        AudioThread { phase, ..self }
    }

    /// What follows from looking around.
    pub open spec fn polled(self, seen: AudioSight) -> (AudioThread, AudioAction) {
        match self.phase {
            AudioPhase::Decoding => if let Some(epoch) = seen.seek {
                (AudioThread { local_epoch: epoch, ..self }, AudioAction::Reset { epoch })
            } else if seen.paused {
                (self, AudioAction::AwaitResume { timeout_ms: RECHECK_MS })
            } else if seen.audio_dead {
                (self.entering(AudioPhase::PlayingOut), AudioAction::Again)
            } else {
                (self, AudioAction::Receive { timeout_ms: DECODE_RECEIVE_MS })
            },
            AudioPhase::Emptying => (self, AudioAction::DecodeRest),
            AudioPhase::Flushing => if self.capacity == 0 {
                (
                    AudioThread { capacity: FLUSH_CAPACITY, ..self },
                    AudioAction::Flush { capacity: FLUSH_CAPACITY, fresh: true },
                )
            } else {
                (self, AudioAction::Flush { capacity: self.capacity, fresh: false })
            },
            AudioPhase::PlayingOut => if seen.played_out || seen.audio_dead {
                (self.entering(AudioPhase::Lingering), AudioAction::AnnounceDone)
            } else {
                (self, AudioAction::Sleep { millis: PLAY_OUT_SLEEP_MS })
            },
            AudioPhase::Lingering => if let Some(epoch) = seen.seek {
                (AudioThread { local_epoch: epoch, ..self }, AudioAction::Reset { epoch })
            } else {
                (self, AudioAction::Receive { timeout_ms: LINGER_RECEIVE_MS })
            },
            AudioPhase::Finished => (self, AudioAction::Stop),
        }
    }

    /// What follows from the end of a wait for a packet.
    pub open spec fn told(self, got: Received) -> (AudioThread, AudioAction) {
        match (self.phase, got) {
            (AudioPhase::Decoding, Received::Packet) => (self, AudioAction::Decode),
            (AudioPhase::Decoding, Received::Disconnected) => (
                self.entering(AudioPhase::Emptying),
                AudioAction::DecodeRest,
            ),
            (AudioPhase::Lingering, Received::Disconnected) => (
                self.entering(AudioPhase::Finished),
                AudioAction::Stop,
            ),
            _ => (self, AudioAction::Again),
        }
    }

    /// The state after the frames of a decoding step.
    pub open spec fn after_frames(self, alive: bool) -> AudioThread {
        match self.phase {
            AudioPhase::Decoding if !alive => self.entering(AudioPhase::PlayingOut),
            AudioPhase::Emptying => self.entering(
                if alive {
                    AudioPhase::Flushing
                } else {
                    AudioPhase::PlayingOut
                },
            ),
            _ => self,
        }
    }

    /// The state after one flush of the resampler: it goes on while samples come
    /// out and the ring takes them.
    pub open spec fn after_flush(self, result: Flushed) -> AudioThread {
        let more = match result {
            Flushed::Failed => false,
            Flushed::Yielded { samples, taken } => samples != 0 && taken,
        };
        if self.phase is Flushing && !more {
            self.entering(AudioPhase::PlayingOut)
        } else {
            self
        }
    }

    /// The state and the action after one event.
    pub open spec fn step(self, event: AudioEvent) -> (AudioThread, AudioAction) {
        match event {
            AudioEvent::Poll(seen) => self.polled(seen),
            AudioEvent::Received(got) => self.told(got),
            AudioEvent::FramesHandled { alive } => (self.after_frames(alive), AudioAction::Again),
            AudioEvent::Flushed(result) => (self.after_flush(result), AudioAction::Again),
        }
    }

    /// The state after a series of events.
    pub open spec fn run(self, events: Seq<AudioEvent>) -> AudioThread
        decreases events.len(),
    {
        if events.len() == 0 {
            self
        } else {
            self.run(events.drop_last()).step(events.last()).0
        }
    }

    /// How often the end of the audio is announced in a series of events.
    pub open spec fn ends_announced(self, events: Seq<AudioEvent>) -> nat
        decreases events.len(),
    {
        if events.len() == 0 {
            0
        } else {
            self.ends_announced(events.drop_last()) + if self.run(events.drop_last()).step(
                events.last(),
            ).1 is AnnounceDone {
                1nat
            } else {
                0
            }
        }
    }

    /// A thread that has not seen a packet yet.
    pub open spec fn started() -> AudioThread {
        AudioThread { phase: AudioPhase::Decoding, local_epoch: 0, capacity: 0 }
    }

    /// A thread that has not seen a packet yet.
    pub fn new() -> (thread: AudioThread)
        ensures
            thread == (AudioThread { phase: AudioPhase::Decoding, local_epoch: 0, capacity: 0 }),
            thread == AudioThread::started(),
    {
        AudioThread { phase: AudioPhase::Decoding, local_epoch: 0, capacity: 0 }
    }

    /// Looks around and decides what to do next.
    pub fn poll(&mut self, seen: AudioSight) -> (action: AudioAction)
        ensures
            (*final(self), action) == old(self).polled(seen),
    {
        match self.phase {
            AudioPhase::Decoding => {
                if let Some(epoch) = seen.seek {
                    self.local_epoch = epoch;
                    AudioAction::Reset { epoch }
                } else if seen.paused {
                    AudioAction::AwaitResume { timeout_ms: RECHECK_MS }
                } else if seen.audio_dead {
                    self.phase = AudioPhase::PlayingOut;
                    AudioAction::Again
                } else {
                    AudioAction::Receive { timeout_ms: DECODE_RECEIVE_MS }
                }
            },
            AudioPhase::Emptying => AudioAction::DecodeRest,
            AudioPhase::Flushing => {
                if self.capacity == 0 {
                    self.capacity = FLUSH_CAPACITY;
                    AudioAction::Flush { capacity: FLUSH_CAPACITY, fresh: true }
                } else {
                    AudioAction::Flush { capacity: self.capacity, fresh: false }
                }
            },
            AudioPhase::PlayingOut => {
                if seen.played_out || seen.audio_dead {
                    self.phase = AudioPhase::Lingering;
                    AudioAction::AnnounceDone
                } else {
                    AudioAction::Sleep { millis: PLAY_OUT_SLEEP_MS }
                }
            },
            AudioPhase::Lingering => {
                if let Some(epoch) = seen.seek {
                    self.local_epoch = epoch;
                    AudioAction::Reset { epoch }
                } else {
                    AudioAction::Receive { timeout_ms: LINGER_RECEIVE_MS }
                }
            },
            AudioPhase::Finished => AudioAction::Stop,
        }
    }

    /// Takes in what a wait for a packet came to.
    pub fn received(&mut self, got: Received) -> (action: AudioAction)
        ensures
            (*final(self), action) == old(self).told(got),
    {
        match (self.phase, got) {
            (AudioPhase::Decoding, Received::Packet) => AudioAction::Decode,
            (AudioPhase::Decoding, Received::Disconnected) => {
                self.phase = AudioPhase::Emptying;
                AudioAction::DecodeRest
            },
            (AudioPhase::Lingering, Received::Disconnected) => {
                self.phase = AudioPhase::Finished;
                AudioAction::Stop
            },
            _ => AudioAction::Again,
        }
    }

    /// Takes in that the frames of a decoding step were handled; `alive` unless the
    /// device died meanwhile.
    pub fn frames_handled(&mut self, alive: bool)
        ensures
            *final(self) == old(self).after_frames(alive),
    {
        match self.phase {
            AudioPhase::Decoding => {
                if !alive {
                    self.phase = AudioPhase::PlayingOut;
                }
            },
            AudioPhase::Emptying => {
                self.phase = if alive {
                    AudioPhase::Flushing
                } else {
                    AudioPhase::PlayingOut
                };
            },
            _ => {},
        }
    }

    /// Takes in what one flush of the resampler came to.
    pub fn flushed(&mut self, result: Flushed)
        ensures
            *final(self) == old(self).after_flush(result),
    {
        let more = match result {
            Flushed::Failed => false,
            Flushed::Yielded { samples, taken } => samples != 0 && taken,
        };
        if let AudioPhase::Flushing = self.phase {
            if !more {
                self.phase = AudioPhase::PlayingOut;
            }
        }
    }

    /// The state once the output frame has room for `needed` samples.
    pub open spec fn with_room(self, needed: usize) -> AudioThread {
        AudioThread {
            capacity: if needed > self.capacity {
                needed
            } else {
                self.capacity
            },
            ..self
        }
    }

    /// Makes sure that the output frame has room for `needed` samples. Returns
    /// whether a larger one has to be made. Room is never given up.
    pub fn reserve(&mut self, needed: usize) -> (grow: bool)
        ensures
            grow == (needed > old(self).capacity),
            *final(self) == (AudioThread {
                capacity: if grow {
                    needed
                } else {
                    old(self).capacity
                },
                ..*old(self)
            }),
            *final(self) == old(self).with_room(needed),
    {
        let grow = needed > self.capacity;
        if grow {
            self.capacity = needed;
        }
        grow
    }

    /// What a look during a pause says, given the newest epoch.
    pub open spec fn look_of(self, paused: bool, epoch: u64) -> PauseLook {
        if !paused {
            PauseLook::Resumed
        } else if epoch != self.local_epoch {
            PauseLook::Interrupted
        } else {
            PauseLook::Wait { timeout_ms: RECHECK_MS }
        }
    }

    /// One look during a wait for the end of a pause, given the newest epoch.
    pub fn pause_look(&self, paused: bool, epoch: u64) -> (look: PauseLook)
        ensures
            look == (if !paused {
                PauseLook::Resumed
            } else if epoch != self.local_epoch {
                PauseLook::Interrupted
            } else {
                PauseLook::Wait { timeout_ms: RECHECK_MS }
            }),
            look == self.look_of(paused, epoch),
    {
        if !paused {
            PauseLook::Resumed
        } else if epoch != self.local_epoch {
            PauseLook::Interrupted
        } else {
            PauseLook::Wait { timeout_ms: RECHECK_MS }
        }
    }
}

/// What a look during a pause says.
#[derive(Clone, Copy)]
pub enum PauseLook {
    Resumed,
    /// A seek came in.
    Interrupted,
    Wait { timeout_ms: u64 },
}

/// What follows from one attempt to push samples into the ring.
#[derive(Clone, Copy)]
pub enum PushStep {
    /// All samples are in.
    Complete,
    /// Push the rest.
    Continue,
    /// The device is dead and the ring will not empty; give up.
    DeviceDead,
    /// Playing is paused; wait for the end of the pause first.
    AwaitResume,
    /// The ring is full; sleep first.
    Sleep { millis: u64 },
}

/// What follows from an attempt that got from `before` to `after` of `total` samples.
pub open spec fn push_step(
    before: int,
    after: int,
    total: int,
    audio_dead: bool,
    paused: bool,
) -> PushStep {
    if after == total {
        PushStep::Complete
    } else if after != before {
        PushStep::Continue
    } else if audio_dead {
        PushStep::DeviceDead
    } else if paused {
        PushStep::AwaitResume
    } else {
        PushStep::Sleep { millis: RING_FULL_SLEEP_MS }
    }
}

/// Decides what follows from an attempt that got from `before` to `after` of `total`
/// samples. The device is looked at only where nothing went in.
pub fn after_push(
    before: usize,
    after: usize,
    total: usize,
    audio_dead: bool,
    paused: bool,
) -> (step: PushStep)
    requires
        before <= after <= total,
    ensures
        step == (if after == total {
            PushStep::Complete
        } else if after != before {
            PushStep::Continue
        } else if audio_dead {
            PushStep::DeviceDead
        } else if paused {
            PushStep::AwaitResume
        } else {
            PushStep::Sleep { millis: RING_FULL_SLEEP_MS }
        }),
        step == push_step(before as int, after as int, total as int, audio_dead, paused),
{
    if after == total {
        PushStep::Complete
    } else if after != before {
        PushStep::Continue
    } else if audio_dead {
        PushStep::DeviceDead
    } else if paused {
        PushStep::AwaitResume
    } else {
        PushStep::Sleep { millis: RING_FULL_SLEEP_MS }
    }
}

/// Whether to sleep once more for the device to empty the ring.
pub open spec fn sleeps_on(slept: u32, pending: bool, audio_dead: bool) -> bool {
    slept < CLEAR_SLEEPS && pending && !audio_dead
}

/// Whether to sleep once more for the device to empty the ring, after `slept` sleeps.
/// `pending` says that the device has not done it yet.
pub fn await_clear(slept: u32, pending: bool, audio_dead: bool) -> (sleep: bool)
    ensures
        sleep == (slept < CLEAR_SLEEPS && pending && !audio_dead),
        sleep == sleeps_on(slept, pending, audio_dead),
{
    slept < CLEAR_SLEEPS && pending && !audio_dead
}

/// The number of samples that `samples` samples at `source_rate` can become at
/// `device_rate`, rounded up, and one to spare.
pub open spec fn resampled_len(samples: int, device_rate: int, source_rate: int) -> int {
    (samples * device_rate + source_rate - 1) / source_rate + 1
}

/// The room that a resampled frame needs.
pub fn resample_capacity(samples: u32, device_rate: u32, source_rate: u32) -> (room: u64)
    requires
        source_rate > 0,
    ensures
        room == resampled_len(samples as int, device_rate as int, source_rate as int),
{
    assert(samples * device_rate <= 0xffff_ffffu64 * 0xffff_ffffu64) by (nonlinear_arith)
        requires
            samples <= 0xffff_ffff,
            device_rate <= 0xffff_ffff,
    ;
    let product: u64 = samples as u64 * device_rate as u64;
    let rate: u64 = source_rate as u64;
    let whole: u64 = product / rate;
    let rest: u64 = product % rate;
    proof {
        lemma_fundamental_div_mod(product as int, rate as int);
        lemma_round_up(product as int, rate as int);
        assert(whole <= product) by (nonlinear_arith)
            requires
                whole == product / rate,
                rate > 0,
        ;
    }
    if rest == 0 {
        whole + 1
    } else {
        whole + 2
    }
}

proof fn lemma_round_up(product: int, rate: int)
    requires
        product >= 0,
        rate > 0,
    ensures
        (product + rate - 1) / rate == product / rate + (if product % rate == 0 {
            0int
        } else {
            1
        }),
{
    let q = product / rate;
    let r = product % rate;
    lemma_fundamental_div_mod(product, rate);
    if r == 0 {
        assert((product + rate - 1) / rate == q) by (nonlinear_arith)
            requires
                product == rate * q,
                rate > 0,
        ;
    } else {
        assert((product + rate - 1) / rate == q + 1) by (nonlinear_arith)
            requires
                product == rate * q + r,
                0 < r < rate,
        ;
    }
}

/// The speaker layouts that samples are resampled to.
#[derive(Clone, Copy)]
pub enum OutputLayout {
    Mono,
    Stereo,
    Quad,
    FivePointOne,
    SevenPointOne,
}

impl OutputLayout {
    /// How many channels the layout has.
    pub open spec fn spec_channels(self) -> u32 {
        match self {
            OutputLayout::Mono => 1,
            OutputLayout::Stereo => 2,
            OutputLayout::Quad => 4,
            OutputLayout::FivePointOne => 6,
            OutputLayout::SevenPointOne => 8,
        }
    }

    /// How many channels the layout has.
    pub fn channels(self) -> (channels: u32)
        ensures
            channels == self.spec_channels(),
    {
        match self {
            OutputLayout::Mono => 1,
            OutputLayout::Stereo => 2,
            OutputLayout::Quad => 4,
            OutputLayout::FivePointOne => 6,
            OutputLayout::SevenPointOne => 8,
        }
    }
}

/// Whether some layout has exactly this many channels.
pub open spec fn has_layout(channels: u32) -> bool {
    exists|layout: OutputLayout| #[trigger] layout.spec_channels() == channels
}

/// The layout for a device.
pub open spec fn layout_for(channels: u32) -> OutputLayout {
    if channels == 1 {
        OutputLayout::Mono
    } else if channels == 4 {
        OutputLayout::Quad
    } else if channels == 6 {
        OutputLayout::FivePointOne
    } else if channels == 8 {
        OutputLayout::SevenPointOne
    } else {
        OutputLayout::Stereo
    }
}

/// The layout for a device: the one with as many channels as it has, else stereo.
pub fn output_layout(channels: u32) -> (layout: OutputLayout)
    ensures
        has_layout(channels) ==> layout.spec_channels() == channels,
        !has_layout(channels) ==> layout == OutputLayout::Stereo,
        layout == layout_for(channels),
{
    let layout = match channels {
        1 => OutputLayout::Mono,
        4 => OutputLayout::Quad,
        6 => OutputLayout::FivePointOne,
        8 => OutputLayout::SevenPointOne,
        _ => OutputLayout::Stereo,
    };
    proof {
        if layout.spec_channels() == channels {
            assert(has_layout(channels));
        } else {
            assert forall|other: OutputLayout| #[trigger] other.spec_channels() != channels by {
                match other {
                    OutputLayout::Mono => {},
                    OutputLayout::Stereo => {},
                    OutputLayout::Quad => {},
                    OutputLayout::FivePointOne => {},
                    OutputLayout::SevenPointOne => {},
                }
            }
        }
    }
    layout
}

/// Whether `words` are the first `count` samples of a packed frame.
pub open spec fn are_samples(words: Seq<[u8; 4]>, bytes: Seq<u8>, count: int) -> bool {
    &&& words.len() == count
    &&& forall|i: int, k: int|
        0 <= i < words.len() && 0 <= k < 4 ==> #[trigger] words[i]@[k] == bytes[4 * i + k]
}

/// The four bytes of each sample of a packed frame of `samples` samples in `channels`
/// channels.
pub fn split_samples(bytes: &[u8], samples: usize, channels: usize) -> (words: Vec<[u8; 4]>)
    requires
        samples * channels * 4 <= bytes@.len(),
    ensures
        words@.len() == samples * channels,
        forall|i: int, k: int|
            0 <= i < words@.len() && 0 <= k < 4 ==> #[trigger] words@[i]@[k] == bytes@[4 * i + k],
        are_samples(words@, bytes@, samples * channels),
{
    let available: usize = bytes.len();
    let ghost total = samples * channels;
    assert(0 <= total <= usize::MAX) by (nonlinear_arith)
        requires
            total == samples * channels,
            total * 4 <= available,
            samples >= 0,
            channels >= 0,
    ;
    let count: usize = samples * channels;
    let mut words: Vec<[u8; 4]> = Vec::new();
    let mut i: usize = 0;
    while i < count
        invariant
            i <= count,
            count * 4 <= available,
            available == bytes@.len(),
            words@.len() == i,
            forall|j: int, k: int|
                0 <= j < i && 0 <= k < 4 ==> #[trigger] words@[j]@[k] == bytes@[4 * j + k],
        decreases count - i,
    {
        let at: usize = 4 * i;
        words.push([bytes[at], bytes[at + 1], bytes[at + 2], bytes[at + 3]]);
        i = i + 1;
    }
    words
}

/// The loudness of the output in percent.
pub open spec fn gain_of(volume: u64, mute: u64) -> u64 {
    if mute != 0 {
        0
    } else if volume > 200 {
        200
    } else {
        volume
    }
}

/// The loudness of the output in percent: nothing where muted, else the volume, at
/// most twice the recorded one.
pub fn gain_percent(volume: u64, mute: u64) -> (percent: u64)
    ensures
        percent == (if mute != 0 {
            0
        } else if volume > 200 {
            200
        } else {
            volume
        }),
        percent == gain_of(volume, mute),
{
    if mute != 0 {
        0
    } else if volume > 200 {
        200
    } else {
        volume
    }
}

/// Phases only ever advance.
pub proof fn law_phases_advance(thread: AudioThread, event: AudioEvent)
    ensures
        thread.phase.rank() <= thread.step(event).0.phase.rank() <= 5,
{
}

/// While it decodes and while it lingers the thread answers a seek at once, for its
/// own epoch, whether the device is paused or dead.
pub proof fn law_seek_is_answered(thread: AudioThread, seen: AudioSight, epoch: u64)
    requires
        thread.phase is Decoding || thread.phase is Lingering,
        seen.seek == Some(epoch),
    ensures
        thread.polled(seen).1 == (AudioAction::Reset { epoch }),
        thread.polled(seen).0 == (AudioThread { local_epoch: epoch, ..thread }),
{
}

/// The end of the audio is announced exactly once on the way from decoding to
/// lingering, whatever happens in between and afterwards.
pub proof fn law_end_announced_once(thread: AudioThread, events: Seq<AudioEvent>)
    requires
        thread.phase.rank() < 4,
    ensures
        thread.ends_announced(events) == (if thread.run(events).phase.rank() >= 4 {
            1nat
        } else {
            0
        }),
    decreases events.len(),
{
    if events.len() > 0 {
        law_end_announced_once(thread, events.drop_last());
    }
}

/// The thread leaves only when the demuxer is gone; a dead device does not make it
/// leave, so the seek barrier keeps its number of decoders.
pub proof fn law_leaves_only_when_disconnected(thread: AudioThread, event: AudioEvent)
    requires
        !(thread.phase is Finished),
    ensures
        thread.step(event).0.phase is Finished ==> event == AudioEvent::Received(
            Received::Disconnected,
        ) && thread.phase is Lingering,
{
}

/// A dead device does not hang the player: while it decodes or plays out, unpaused
/// and without a seek, the thread announces the end of the audio within two looks.
pub proof fn law_dead_device_ends_audio(thread: AudioThread, played_out: bool)
    requires
        thread.phase is Decoding || thread.phase is PlayingOut,
    ensures
        ({
            let seen = AudioSight { seek: None, paused: false, audio_dead: true, played_out };
            let (first, action) = thread.polled(seen);
            let (last, answer) = if action is Again {
                first.polled(seen)
            } else {
                (first, action)
            };
            answer is AnnounceDone && last.phase is Lingering
        }),
{
}

/// The resampler's output frame never shrinks, and always has room when flushed.
pub proof fn law_capacity_grows(thread: AudioThread, event: AudioEvent)
    ensures
        thread.capacity <= thread.step(event).0.capacity,
        thread.step(event).1 matches AudioAction::Flush { capacity, .. } ==> 0 < capacity
            && capacity == thread.step(event).0.capacity,
{
}

/// Room for a resampled frame suffices: the samples that come out, at the exact ratio
/// of the rates, are fewer, by at least one and by less than two.
pub proof fn law_capacity_suffices(samples: int, device_rate: int, source_rate: int)
    requires
        samples >= 0,
        device_rate >= 0,
        source_rate > 0,
    ensures
        samples * device_rate < resampled_len(samples, device_rate, source_rate) * source_rate,
        (resampled_len(samples, device_rate, source_rate) - 2) * source_rate < samples
            * device_rate || samples * device_rate == 0,
        samples * device_rate <= (resampled_len(samples, device_rate, source_rate) - 1)
            * source_rate,
        samples * device_rate == 0 ==> resampled_len(samples, device_rate, source_rate) == 1,
{
    let product = samples * device_rate;
    assert(product >= 0) by (nonlinear_arith)
        requires
            product == samples * device_rate,
            samples >= 0,
            device_rate >= 0,
    ;
    lemma_round_up(product, source_rate);
    lemma_fundamental_div_mod(product, source_rate);
    let q = product / source_rate;
    let r = product % source_rate;
    let n = resampled_len(samples, device_rate, source_rate);
    assert(product < n * source_rate) by (nonlinear_arith)
        requires
            product == source_rate * q + r,
            0 <= r < source_rate,
            n >= q + 1,
    ;
    assert((n - 2) * source_rate < product || product == 0) by (nonlinear_arith)
        requires
            product == source_rate * q + r,
            0 <= r < source_rate,
            product >= 0,
            n == q + 1 && r == 0 || n == q + 2 && r > 0,
    ;
    assert(product <= (n - 1) * source_rate) by (nonlinear_arith)
        requires
            product == source_rate * q + r,
            0 <= r < source_rate,
            n == q + 1 && r == 0 || n == q + 2 && r > 0,
    ;
    if product == 0 {
        vstd::arithmetic::div_mod::lemma_basic_div(product, source_rate);
    }
}

/// While it decodes with a working device, the thread goes on receiving packets unless it
/// is paused or a seek comes, whether or not the ring has anything to play.
pub proof fn law_decoding_goes_on(thread: AudioThread, seen: AudioSight)
    requires
        thread.phase is Decoding,
        seen.seek is None,
        !seen.paused,
        !seen.audio_dead,
    ensures
        thread.polled(seen).0 == thread,
        thread.polled(seen).1 == (AudioAction::Receive { timeout_ms: 10 }),
{
}

/// A pause holds the decoding, whatever the device and the ring do, until it ends or a
/// seek comes.
pub proof fn law_pause_holds_decoding(thread: AudioThread, seen: AudioSight)
    requires
        thread.phase is Decoding,
        seen.seek is None,
        seen.paused,
    ensures
        thread.polled(seen).0 == thread,
        thread.polled(seen).1 == (AudioAction::AwaitResume { timeout_ms: 50 }),
{
}

/// Decoding ends with the packets or with the device, and with nothing else.
pub proof fn law_decoding_ends_with_packets_or_device(thread: AudioThread, event: AudioEvent)
    requires
        thread.phase is Decoding,
    ensures
        ({
            let (next, action) = thread.step(event);
            let ended = event == AudioEvent::Received(Received::Disconnected);
            let died = event == (AudioEvent::FramesHandled { alive: false }) || (
            event matches AudioEvent::Poll(seen) && seen.seek is None && !seen.paused
                && seen.audio_dead);
            &&& next.phase is Emptying <==> ended
            &&& next.phase is PlayingOut <==> died
            &&& next.phase is Decoding <==> !ended && !died
            &&& ended ==> action is DecodeRest
            &&& action is Decode <==> event == AudioEvent::Received(Received::Packet)
            &&& !(action is AnnounceDone)
            &&& !(action is Stop)
            &&& !(action is Flush)
        }),
{
}

/// With a working device the thread decodes as long as the packets have not ended, and the
/// end of the audio is not announced, whatever happens and however often.
pub proof fn law_no_end_before_the_packets_end(thread: AudioThread, events: Seq<AudioEvent>)
    requires
        thread.phase is Decoding,
        forall|i: int|
            0 <= i < events.len() ==> #[trigger] events[i] != AudioEvent::Received(
                Received::Disconnected,
            ),
        forall|i: int|
            0 <= i < events.len() ==> (#[trigger] events[i] matches AudioEvent::Poll(seen)
                ==> !seen.audio_dead),
        forall|i: int|
            0 <= i < events.len() ==> (
            #[trigger] events[i] matches AudioEvent::FramesHandled { alive } ==> alive),
    ensures
        thread.run(events).phase is Decoding,
        thread.ends_announced(events) == 0,
    decreases events.len(),
{
    if events.len() > 0 {
        let before = events.drop_last();
        assert(forall|i: int| 0 <= i < before.len() ==> before[i] == events[i]);
        law_no_end_before_the_packets_end(thread, before);
        assert(events[events.len() - 1] == events.last());
    }
}

/// The end of the audio is announced only when the ring has been played out or the device
/// is dead.
pub proof fn law_done_only_when_played_out(thread: AudioThread, event: AudioEvent)
    ensures
        thread.step(event).1 is AnnounceDone ==> {
            &&& thread.phase is PlayingOut
            &&& event matches AudioEvent::Poll(seen)
            &&& seen.played_out || seen.audio_dead
        },
{
}

/// While the ring plays out, the thread waits until it is empty or the device is dead, and
/// then announces the end, whatever else it sees.
pub proof fn law_ring_is_played_out(thread: AudioThread, seen: AudioSight)
    requires
        thread.phase is PlayingOut,
    ensures
        ({
            let (next, action) = thread.polled(seen);
            let done = seen.played_out || seen.audio_dead;
            &&& done ==> next.phase is Lingering && action is AnnounceDone
            &&& !done ==> next == thread && action == (AudioAction::Sleep { millis: 5 })
            &&& next.local_epoch == thread.local_epoch
            &&& next.capacity == thread.capacity
        }),
{
}

/// The resampler is flushed until nothing more comes out, it fails, or the ring takes no
/// more; what comes out last is not lost before that.
pub proof fn law_resampler_is_flushed(thread: AudioThread, seen: AudioSight, result: Flushed)
    requires
        thread.phase is Flushing,
    ensures
        ({
            let (next, action) = thread.polled(seen);
            let more = result matches Flushed::Yielded { samples, taken } && samples > 0 && taken;
            &&& next.phase is Flushing
            &&& next.local_epoch == thread.local_epoch
            &&& next.capacity == (if thread.capacity == 0 {
                8192
            } else {
                thread.capacity
            })
            &&& action == (AudioAction::Flush {
                capacity: next.capacity,
                fresh: thread.capacity == 0,
            })
            &&& thread.after_flush(result).phase is Flushing <==> more
            &&& thread.after_flush(result).phase is PlayingOut <==> !more
            &&& thread.after_flush(result).local_epoch == thread.local_epoch
            &&& thread.after_flush(result).capacity == thread.capacity
        }),
{
}

/// A flush matters only while flushing, and handled frames only while decoding or
/// emptying: then a dead device ends the playing, and an empty decoder is followed by the
/// flushing.
pub proof fn law_frames_are_handled(thread: AudioThread, alive: bool, result: Flushed)
    ensures
        !(thread.phase is Flushing) ==> thread.after_flush(result) == thread,
        thread.phase is Decoding && alive ==> thread.after_frames(alive) == thread,
        thread.phase is Emptying && alive ==> thread.after_frames(alive).phase is Flushing,
        (thread.phase is Decoding || thread.phase is Emptying) && !alive ==> thread.after_frames(
            alive,
        ).phase is PlayingOut,
        !(thread.phase is Decoding || thread.phase is Emptying) ==> thread.after_frames(alive)
            == thread,
        thread.after_frames(alive).local_epoch == thread.local_epoch,
        thread.after_frames(alive).capacity == thread.capacity,
{
}

/// While it lingers, the thread keeps receiving and answers seeks, whatever else it sees;
/// one that empties its decoder does just that; one that has left does nothing any more.
pub proof fn law_lingering_emptying_and_leaving(thread: AudioThread, seen: AudioSight)
    ensures
        thread.phase is Lingering && seen.seek is None ==> thread.polled(seen) == (
            thread,
            AudioAction::Receive { timeout_ms: 100 },
        ),
        thread.phase is Lingering && seen.seek is Some ==> thread.polled(seen).0.phase is Lingering,
        thread.phase is Emptying ==> thread.polled(seen).0 == thread && thread.polled(
            seen,
        ).1 is DecodeRest,
        thread.phase is Finished ==> thread.polled(seen).0 == thread && thread.polled(
            seen,
        ).1 is Stop,
{
}

/// A received packet is decoded while decoding and thrown away otherwise, an idle wait
/// changes nothing, and the end of the packets matters only while decoding or lingering.
pub proof fn law_packets_are_decoded_or_dropped(thread: AudioThread, got: Received)
    ensures
        ({
            let (next, action) = thread.told(got);
            let moves = got is Disconnected && (thread.phase is Decoding
                || thread.phase is Lingering);
            &&& !moves ==> next == thread
            &&& action is Decode <==> thread.phase is Decoding && got is Packet
            &&& action is DecodeRest <==> thread.phase is Decoding && got is Disconnected
            &&& action is Stop <==> thread.phase is Lingering && got is Disconnected
            &&& action is Again <==> !(action is Decode || action is DecodeRest || action is Stop)
            &&& next.phase is Finished <==> thread.phase is Finished || action is Stop
            &&& next.phase is Emptying <==> thread.phase is Emptying || action is DecodeRest
            &&& next.local_epoch == thread.local_epoch
            &&& next.capacity == thread.capacity
        }),
{
}

/// Pushing goes on until all samples are in: it is complete exactly then, it is given up
/// only for a dead device, and it waits only where nothing went in.
pub proof fn law_pushing_goes_on(
    before: int,
    after: int,
    total: int,
    audio_dead: bool,
    paused: bool,
)
    requires
        before <= after <= total,
    ensures
        ({
            let step = push_step(before, after, total, audio_dead, paused);
            let stuck = after < total && after == before;
            &&& step is Complete <==> after == total
            &&& step is Continue <==> before < after < total
            &&& step is DeviceDead <==> stuck && audio_dead
            &&& step is AwaitResume <==> stuck && !audio_dead && paused
            &&& step is Sleep <==> stuck && !audio_dead && !paused
            &&& step matches PushStep::Sleep { millis } ==> millis == 1
        }),
{
}

/// A wait for the end of a pause ends with the pause or with a seek, and with nothing else.
pub proof fn law_pause_ends(thread: AudioThread, paused: bool, epoch: u64)
    ensures
        thread.look_of(paused, epoch) is Resumed <==> !paused,
        thread.look_of(paused, epoch) is Interrupted <==> paused && epoch != thread.local_epoch,
        thread.look_of(paused, epoch) is Wait <==> paused && epoch == thread.local_epoch,
        thread.look_of(paused, epoch) matches PauseLook::Wait { timeout_ms } ==> timeout_ms == 50,
{
}

/// Muted, nothing is heard; else the gain is the volume, up to twice the recorded one.
pub proof fn law_gain_follows_volume(volume: u64, mute: u64)
    ensures
        mute != 0 ==> gain_of(volume, mute) == 0,
        mute == 0 && volume <= 200 ==> gain_of(volume, mute) == volume,
        mute == 0 && volume >= 200 ==> gain_of(volume, mute) == 200,
{
}

/// Each layout has its channels, and no two have the same.
pub proof fn law_layouts_have_channels(layout: OutputLayout)
    ensures
        layout.spec_channels() == 1 <==> layout is Mono,
        layout.spec_channels() == 2 <==> layout is Stereo,
        layout.spec_channels() == 4 <==> layout is Quad,
        layout.spec_channels() == 6 <==> layout is FivePointOne,
        layout.spec_channels() == 8 <==> layout is SevenPointOne,
{
}

/// The device is waited for at most twenty times, and not once it has emptied the ring or
/// failed.
pub proof fn law_device_is_not_awaited_forever(slept: u32, pending: bool, audio_dead: bool)
    ensures
        sleeps_on(slept, pending, audio_dead) ==> slept < 20,
        !pending || audio_dead ==> !sleeps_on(slept, pending, audio_dead),
        pending && !audio_dead && slept < 20 ==> sleeps_on(slept, pending, audio_dead),
{
}

/// Making room gives what is needed, takes nothing away, and changes nothing else.
pub proof fn law_room_is_made(thread: AudioThread, needed: usize)
    ensures
        thread.with_room(needed).capacity >= needed,
        thread.with_room(needed).capacity >= thread.capacity,
        thread.with_room(needed).capacity == needed || thread.with_room(needed).capacity
            == thread.capacity,
        thread.with_room(needed).phase == thread.phase,
        thread.with_room(needed).local_epoch == thread.local_epoch,
        thread.with_room(needed) == (AudioThread {
            capacity: thread.with_room(needed).capacity,
            ..thread
        }),
{
}

/// A device gets a layout with just its channels wherever there is one, else stereo.
pub proof fn law_layout_matches_the_device(channels: u32, layout: OutputLayout)
    ensures
        layout.spec_channels() == channels ==> layout_for(channels) == layout,
        layout_for(channels).spec_channels() != channels ==> layout_for(channels) is Stereo,
{
}

/// Each sample has the four bytes that stand at its place in the frame, in their order.
pub proof fn law_samples_are_the_bytes(words: Seq<[u8; 4]>, bytes: Seq<u8>, count: int, at: int)
    requires
        are_samples(words, bytes, count),
        0 <= at < 4 * count,
    ensures
        words.len() == count,
        words[at / 4]@[at % 4] == bytes[at],
{
}

/// A new thread decodes, has handled no seek, and has room for nothing yet.
pub proof fn law_new_thread_decodes(needed: usize)
    ensures
        AudioThread::started().phase is Decoding,
        AudioThread::started().local_epoch == 0,
        AudioThread::started().with_room(needed).capacity == needed,
{
}

/// A dead device ends the decoding quietly: the thread keeps its epoch and its room, and
/// looks again.
pub proof fn law_dead_device_ends_decoding(thread: AudioThread, seen: AudioSight)
    requires
        thread.phase is Decoding,
        seen.seek is None,
        !seen.paused,
        seen.audio_dead,
    ensures
        ({
            let (next, action) = thread.polled(seen);
            &&& next.phase is PlayingOut
            &&& next.local_epoch == thread.local_epoch
            &&& next.capacity == thread.capacity
            &&& action is Again
        }),
{
}

} // verus!
