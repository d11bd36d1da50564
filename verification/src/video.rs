//! The video decoder thread as a state machine.
//!
//! The thread decodes until its packets end, waits for the audio to finish, tells
//! the window that the source has ended, and then lingers to answer seeks until
//! the demuxer is gone. The program around this library performs each
//! [`VideoAction`] and hands back what happened.

use vstd::prelude::*;

verus! {

/// How long to wait for a packet while decoding, in milliseconds.
pub const DECODE_RECEIVE_MS: u64 = 10;

/// How long to wait for a packet while lingering, in milliseconds.
pub const LINGER_RECEIVE_MS: u64 = 100;

/// How long to wait on a condition before looking again, in milliseconds.
pub const RECHECK_MS: u64 = 50;

/// How long the end of the audio is waited for, in nanoseconds.
pub const AUDIO_GRACE_NANOS: u64 = 5_000_000_000;

/// Where the video thread is in its life.
#[derive(Clone, Copy)]
pub enum VideoPhase {
    /// Packets are received and decoded.
    Decoding,
    /// The packets have ended; the decoder is being emptied.
    Emptying,
    /// The video is over; the audio may still play until `deadline`.
    AwaitingAudio { deadline: u64 },
    /// The end was announced; packets are thrown away and seeks answered.
    Lingering,
    /// The demuxer is gone.
    Finished,
}

/// What the thread has to do next.
pub enum VideoAction<T> {
    /// Flush the decoder, throw queued packets away, move the clock to the target
    /// if there is one, and report ready for the epoch.
    Reset { epoch: u64, target: Option<T> },
    /// Throw queued packets away and report ready for the epoch.
    Acknowledge { epoch: u64 },
    /// Wait for a packet.
    Receive { timeout_ms: u64 },
    /// Hand the received packet to the decoder and process the frames it yields.
    Decode,
    /// Tell the decoder that no packet follows and process the frames it yields.
    DecodeRest,
    /// Wait until the audio is done or the time is up.
    AwaitAudio { timeout_ms: u64 },
    /// Tell the window that the source has ended.
    AnnounceEnd { timed_out: bool },
    /// Look again.
    Again,
    /// Leave the thread.
    Stop,
}

/// What a wait for a packet came to.
#[derive(Clone, Copy)]
pub enum Received {
    Packet,
    Timeout,
    Disconnected,
}

/// What the thread sees when it looks around.
pub struct Observation<T> {
    /// The newest epoch and its target, where the thread has not handled it.
    pub seek: Option<(u64, Option<T>)>,
    /// Whether the audio has been played to its end.
    pub audio_done: bool,
    /// The time in nanoseconds.
    pub now: u64,
}

/// Something that happens to the thread.
pub enum VideoEvent<T> {
    Poll(Observation<T>),
    Received(Received),
    Emptied { now: u64 },
}

/// Whether a pause holds a decoded frame back.
#[derive(Clone, Copy)]
pub enum Hold {
    /// The first frame after a seek is shown even while paused.
    Bypass,
    /// Not paused (any more); the time that it was held counts as a pause.
    Open,
    /// A seek came in while paused; the frame is void.
    Abandon,
    /// Still paused.
    Wait { timeout_ms: u64 },
}

/// What becomes of a frame that has a time stamp.
#[derive(Clone, Copy)]
pub enum Pace {
    /// Too early: wait for its time.
    Wait,
    /// Show it.
    Show,
    /// Too late: drop it.
    Drop,
}

/// One step of the wait for a frame's time.
#[derive(Clone, Copy)]
pub enum WaitStep {
    /// A seek came in; the frame is void.
    Abandon,
    /// The time has come.
    Show,
    /// Sleep a little and look again.
    Nap,
}

/// The state of the video thread.
#[derive(Clone, Copy)]
pub struct VideoThread {
    pub phase: VideoPhase,
    /// The newest epoch that the thread has handled.
    pub local_epoch: u64,
    /// Whether no frame was timed since the last reset.
    pub just_seeked: bool,
    /// The time stamp of the previous frame.
    pub last_pts: Option<i64>,
}

impl VideoPhase {
    /// The place of a phase in the order in which phases follow each other.
    pub open spec fn rank(self) -> int {
        match self {
            VideoPhase::Decoding => 0,
            VideoPhase::Emptying => 1,
            VideoPhase::AwaitingAudio { .. } => 2,
            VideoPhase::Lingering => 3,
            VideoPhase::Finished => 4,
        }
    }
}

impl VideoThread {
    /// What follows from looking around.
    pub open spec fn polled<T>(self, seen: Observation<T>) -> (VideoThread, VideoAction<T>) {
        match self.phase {
            VideoPhase::Decoding => match seen.seek {
                Some((epoch, target)) => (
                    VideoThread {
                        local_epoch: epoch,
                        just_seeked: true,
                        last_pts: None,
                        ..self
                    },
                    VideoAction::Reset { epoch, target },
                ),
                None => (self, VideoAction::Receive { timeout_ms: DECODE_RECEIVE_MS }),
            },
            VideoPhase::Emptying => (self, VideoAction::DecodeRest),
            VideoPhase::AwaitingAudio { deadline } => if seen.audio_done {
                (
                    VideoThread { phase: VideoPhase::Lingering, ..self },
                    VideoAction::AnnounceEnd { timed_out: false },
                )
            } else if let Some((epoch, _)) = seen.seek {
                (
                    VideoThread {
                        phase: VideoPhase::AwaitingAudio {
                            deadline: (seen.now + AUDIO_GRACE_NANOS) as u64,
                        },
                        local_epoch: epoch,
                        ..self
                    },
                    VideoAction::Acknowledge { epoch },
                )
            } else if seen.now >= deadline {
                (
                    VideoThread { phase: VideoPhase::Lingering, ..self },
                    VideoAction::AnnounceEnd { timed_out: true },
                )
            } else {
                (self, VideoAction::AwaitAudio { timeout_ms: RECHECK_MS })
            },
            VideoPhase::Lingering => match seen.seek {
                Some((epoch, _)) => (
                    VideoThread { local_epoch: epoch, ..self },
                    VideoAction::Acknowledge { epoch },
                ),
                None => (self, VideoAction::Receive { timeout_ms: LINGER_RECEIVE_MS }),
            },
            VideoPhase::Finished => (self, VideoAction::Stop),
        }
    }

    /// What follows from the end of a wait for a packet.
    pub open spec fn told<T>(self, got: Received) -> (VideoThread, VideoAction<T>) {
        match (self.phase, got) {
            (VideoPhase::Decoding, Received::Packet) => (self, VideoAction::Decode),
            (VideoPhase::Decoding, Received::Disconnected) => (
                VideoThread { phase: VideoPhase::Emptying, ..self },
                VideoAction::DecodeRest,
            ),
            (VideoPhase::Lingering, Received::Disconnected) => (
                VideoThread { phase: VideoPhase::Finished, ..self },
                VideoAction::Stop,
            ),
            _ => (self, VideoAction::Again),
        }
    }

    /// The state once the decoder holds no frame any more.
    pub open spec fn after_rest(self, now: u64) -> VideoThread {
        if self.phase is Emptying {
            VideoThread {
                phase: VideoPhase::AwaitingAudio { deadline: (now + AUDIO_GRACE_NANOS) as u64 },
                ..self
            }
        } else {
            self
        }
    }

    /// The state and the action after one event.
    pub open spec fn step<T>(self, event: VideoEvent<T>) -> (VideoThread, VideoAction<T>) {
        match event {
            VideoEvent::Poll(seen) => self.polled(seen),
            VideoEvent::Received(got) => self.told(got),
            VideoEvent::Emptied { now } => (self.after_rest(now), VideoAction::Again),
        }
    }

    /// The state after a series of events.
    pub open spec fn run<T>(self, events: Seq<VideoEvent<T>>) -> VideoThread
        decreases events.len(),
    {
        if events.len() == 0 {
            self
        } else {
            self.run(events.drop_last()).step(events.last()).0
        }
    }

    /// How often the end of the source is announced in a series of events.
    pub open spec fn ends_announced<T>(self, events: Seq<VideoEvent<T>>) -> nat
        decreases events.len(),
    {
        if events.len() == 0 {
            0
        } else {
            self.ends_announced(events.drop_last()) + if self.run(events.drop_last()).step(
                events.last(),
            ).1 is AnnounceEnd {
                1nat
            } else {
                0
            }
        }
    }

    /// The time stamp of a frame: its own, else the decoder's best guess, else one
    /// step after the previous frame, else zero.
    pub open spec fn pts_of(self, pts: Option<i64>, best_effort: Option<i64>) -> int {
        if let Some(p) = pts {
            p as int
        } else if let Some(b) = best_effort {
            b as int
        } else if let Some(last) = self.last_pts {
            last + 1
        } else {
            0
        }
    }

    /// The state after `n` frames without any time stamp.
    pub open spec fn after_unstamped(self, n: nat) -> VideoThread
        decreases n,
    {
        if n == 0 {
            self
        } else {
            let before = self.after_unstamped((n - 1) as nat);
            VideoThread { last_pts: Some(before.pts_of(None, None) as i64), ..before }
        }
    }

    /// Whether a pause holds a decoded frame back, given the newest epoch.
    pub open spec fn hold_of(self, paused: bool, epoch: u64) -> Hold {
        if self.just_seeked {
            Hold::Bypass
        } else if !paused {
            Hold::Open
        } else if epoch != self.local_epoch {
            Hold::Abandon
        } else {
            Hold::Wait { timeout_ms: RECHECK_MS }
        }
    }

    /// The state once the clock was aligned with a frame.
    pub open spec fn realigned(self) -> VideoThread {
        VideoThread { just_seeked: false, ..self }
    }

    /// A thread at its start.
    pub open spec fn started(has_decoder: bool, now: u64) -> VideoThread {
        VideoThread {
            phase: if has_decoder {
                VideoPhase::Decoding
            } else {
                VideoPhase::AwaitingAudio { deadline: (now + AUDIO_GRACE_NANOS) as u64 }
            },
            local_epoch: 0,
            just_seeked: false,
            last_pts: None,
        }
    }

    /// A thread that starts at `now`; without a decoder there is nothing to decode.
    pub fn new(has_decoder: bool, now: u64) -> (thread: VideoThread)
        requires
            now <= u64::MAX - AUDIO_GRACE_NANOS,
        ensures
            thread.phase == (if has_decoder {
                VideoPhase::Decoding
            } else {
                VideoPhase::AwaitingAudio { deadline: (now + AUDIO_GRACE_NANOS) as u64 }
            }),
            thread.local_epoch == 0,
            !thread.just_seeked,
            thread.last_pts is None,
            thread == VideoThread::started(has_decoder, now),
    {
        VideoThread {
            phase: if has_decoder {
                VideoPhase::Decoding
            } else {
                VideoPhase::AwaitingAudio { deadline: now + AUDIO_GRACE_NANOS }
            },
            local_epoch: 0,
            just_seeked: false,
            last_pts: None,
        }
    }

    /// Looks around and decides what to do next.
    pub fn poll<T: Copy>(&mut self, seen: Observation<T>) -> (action: VideoAction<T>)
        requires
            seen.now <= u64::MAX - AUDIO_GRACE_NANOS,
        ensures
            (*final(self), action) == old(self).polled(seen),
    {
        match self.phase {
            VideoPhase::Decoding => {
                if let Some((epoch, target)) = seen.seek {
                    self.local_epoch = epoch;
                    self.just_seeked = true;
                    self.last_pts = None;
                    VideoAction::Reset { epoch, target }
                } else {
                    VideoAction::Receive { timeout_ms: DECODE_RECEIVE_MS }
                }
            },
            VideoPhase::Emptying => VideoAction::DecodeRest,
            VideoPhase::AwaitingAudio { deadline } => {
                if seen.audio_done {
                    self.phase = VideoPhase::Lingering;
                    VideoAction::AnnounceEnd { timed_out: false }
                } else if let Some((epoch, _)) = seen.seek {
                    self.local_epoch = epoch;
                    self.phase = VideoPhase::AwaitingAudio {
                        deadline: seen.now + AUDIO_GRACE_NANOS,
                    };
                    VideoAction::Acknowledge { epoch }
                } else if seen.now >= deadline {
                    self.phase = VideoPhase::Lingering;
                    VideoAction::AnnounceEnd { timed_out: true }
                } else {
                    VideoAction::AwaitAudio { timeout_ms: RECHECK_MS }
                }
            },
            VideoPhase::Lingering => {
                if let Some((epoch, _)) = seen.seek {
                    self.local_epoch = epoch;
                    VideoAction::Acknowledge { epoch }
                } else {
                    VideoAction::Receive { timeout_ms: LINGER_RECEIVE_MS }
                }
            },
            VideoPhase::Finished => VideoAction::Stop,
        }
    }

    /// Takes in what a wait for a packet came to.
    pub fn received<T>(&mut self, got: Received) -> (action: VideoAction<T>)
        ensures
            (*final(self), action) == old(self).told::<T>(got),
    {
        match (self.phase, got) {
            (VideoPhase::Decoding, Received::Packet) => VideoAction::Decode,
            (VideoPhase::Decoding, Received::Disconnected) => {
                self.phase = VideoPhase::Emptying;
                VideoAction::DecodeRest
            },
            (VideoPhase::Lingering, Received::Disconnected) => {
                self.phase = VideoPhase::Finished;
                VideoAction::Stop
            },
            _ => VideoAction::Again,
        }
    }

    /// Takes in that the decoder holds no frame any more.
    pub fn emptied(&mut self, now: u64)
        requires
            now <= u64::MAX - AUDIO_GRACE_NANOS,
        ensures
            *final(self) == old(self).after_rest(now),
    {
        if let VideoPhase::Emptying = self.phase {
            self.phase = VideoPhase::AwaitingAudio { deadline: now + AUDIO_GRACE_NANOS };
        }
    }

    /// Whether a pause holds a decoded frame back, given the newest epoch.
    pub fn pause_hold(&self, paused: bool, epoch: u64) -> (hold: Hold)
        ensures
            hold == self.hold_of(paused, epoch),
    {
        if self.just_seeked {
            Hold::Bypass
        } else if !paused {
            Hold::Open
        } else if epoch != self.local_epoch {
            Hold::Abandon
        } else {
            Hold::Wait { timeout_ms: RECHECK_MS }
        }
    }

    /// Decides the time stamp of a frame and remembers it.
    pub fn frame_pts(&mut self, pts: Option<i64>, best_effort: Option<i64>) -> (chosen: i64)
        requires
            pts is None && best_effort is None && old(self).last_pts is Some
                ==> old(self).last_pts->0 < i64::MAX,
        ensures
            chosen == old(self).pts_of(pts, best_effort),
            *final(self) == (VideoThread { last_pts: Some(chosen), ..*old(self) }),
    {
        let chosen: i64 = match pts {
            Some(p) => p,
            None => match best_effort {
                Some(b) => b,
                None => match self.last_pts {
                    Some(last) => last + 1,
                    None => 0,
                },
            },
        };
        self.last_pts = Some(chosen);
        chosen
    }

    /// Whether the clock has to be aligned with this frame: true for the first
    /// frame that is timed after a reset, and for no other.
    pub fn take_realign(&mut self) -> (realign: bool)
        ensures
            realign == old(self).just_seeked,
            *final(self) == old(self).realigned(),
    {
        let realign = self.just_seeked;
        self.just_seeked = false;
        realign
    }

    /// What a frame that waits for its time does next, given the newest epoch and whether
    /// the clock has reached the frame's time stamp.
    pub open spec fn wait_of(self, epoch: u64, reached: bool) -> WaitStep {
        if epoch != self.local_epoch {
            WaitStep::Abandon
        } else if reached {
            WaitStep::Show
        } else {
            WaitStep::Nap
        }
    }

    /// One step of the wait for a frame's time, given the newest epoch and whether
    /// the clock has reached the frame's time stamp.
    pub fn wait_step(&self, epoch: u64, reached: bool) -> (step: WaitStep)
        ensures
            step == (if epoch != self.local_epoch {
                WaitStep::Abandon
            } else if reached {
                WaitStep::Show
            } else {
                WaitStep::Nap
            }),
            step == self.wait_of(epoch, reached),
    {
        if epoch != self.local_epoch {
            WaitStep::Abandon
        } else if reached {
            WaitStep::Show
        } else {
            WaitStep::Nap
        }
    }
}

/// A frame further ahead of the clock than this waits, in microseconds.
pub const EARLY_MICROS: i64 = 5_000;

/// A frame further behind the clock than this is dropped, in microseconds.
pub const LATE_MICROS: i64 = 50_000;

/// What becomes of a frame that is ahead of the clock by `lead` microseconds, or behind
/// it where that is negative.
pub open spec fn pace_of(lead: int) -> Pace {
    if lead > EARLY_MICROS {
        Pace::Wait
    } else if lead < -LATE_MICROS {
        Pace::Drop
    } else {
        Pace::Show
    }
}

/// Decides what becomes of a frame that is ahead of the clock by `lead_micros`
/// microseconds, or behind it where that is negative.
pub fn pace(lead_micros: i64) -> (pace: Pace)
    ensures
        pace == pace_of(lead_micros as int),
{
    if lead_micros > EARLY_MICROS {
        Pace::Wait
    } else if lead_micros < -LATE_MICROS {
        Pace::Drop
    } else {
        Pace::Show
    }
}

/// The time base of a stream, where it can be divided by.
pub open spec fn time_base_of(time_base: Option<(i32, i32)>) -> Option<(i32, i32)> {
    match time_base {
        Some((numerator, denominator)) if denominator > 0 => Some((numerator, denominator)),
        _ => None,
    }
}

/// The time base as numerator and denominator by which a time stamp is scaled to
/// seconds; none where the stream gives none that can be divided by, and a time
/// stamp then counts seconds.
pub fn usable_time_base(time_base: Option<(i32, i32)>) -> (usable: Option<(i32, i32)>)
    ensures
        usable == time_base_of(time_base),
        usable == (match time_base {
            Some((numerator, denominator)) if denominator > 0 => Some((numerator, denominator)),
            _ => None,
        }),
{
    match time_base {
        Some((numerator, denominator)) => if denominator > 0 {
            Some((numerator, denominator))
        } else {
            None
        },
        None => None,
    }
}

/// What a pixel converter was made for.
#[derive(Clone, Copy)]
pub struct ConverterKey {
    pub format: i32,
    pub width: u32,
    pub height: u32,
}

/// How a frame reaches the one pixel layout that is shown.
#[derive(Clone, Copy)]
pub enum ConverterPlan {
    /// It has that layout.
    Direct,
    /// The converter at hand fits.
    Reuse,
    /// A converter has to be made.
    Rebuild { key: ConverterKey },
}

/// How a frame reaches the layout that is shown, given what the converter at hand was
/// made for, and what the frame needs.
pub open spec fn conversion_of(
    current: Option<ConverterKey>,
    is_planar_420: bool,
    needed: ConverterKey,
) -> ConverterPlan {
    if is_planar_420 {
        ConverterPlan::Direct
    } else if current == Some(needed) {
        ConverterPlan::Reuse
    } else {
        ConverterPlan::Rebuild { key: needed }
    }
}

/// Plans the conversion of a frame, given what the converter at hand was made for.
pub fn plan_conversion(
    current: Option<ConverterKey>,
    is_planar_420: bool,
    format: i32,
    width: u32,
    height: u32,
) -> (plan: ConverterPlan)
    ensures
        plan == (if is_planar_420 {
            ConverterPlan::Direct
        } else if current == Some(ConverterKey { format, width, height }) {
            ConverterPlan::Reuse
        } else {
            ConverterPlan::Rebuild { key: ConverterKey { format, width, height } }
        }),
        plan == conversion_of(current, is_planar_420, ConverterKey { format, width, height }),
{
    if is_planar_420 {
        return ConverterPlan::Direct;
    }
    if let Some(key) = current {
        if key.format == format && key.width == width && key.height == height {
            return ConverterPlan::Reuse;
        }
    }
    ConverterPlan::Rebuild { key: ConverterKey { format, width, height } }
}

/// Phases only ever advance.
pub proof fn law_phases_advance<T>(thread: VideoThread, event: VideoEvent<T>)
    ensures
        thread.phase.rank() <= thread.step(event).0.phase.rank() <= 4,
{
}

/// Wherever packets are still expected or the end was announced, a seek is
/// answered at once, for its own epoch; while the audio is awaited it is answered
/// at once, or, where the audio has just ended, at the next look.
pub proof fn law_seek_is_answered<T>(
    thread: VideoThread,
    epoch: u64,
    target: Option<T>,
    audio_done: bool,
    now: u64,
)
    requires
        !(thread.phase is Emptying),
        !(thread.phase is Finished),
    ensures
        ({
            let seen = Observation { seek: Some((epoch, target)), audio_done, now };
            let (next, action) = thread.polled(seen);
            let (later, answer) = if action is AnnounceEnd {
                next.polled(seen)
            } else {
                (next, action)
            };
            &&& answer == VideoAction::Reset { epoch, target } || answer
                == VideoAction::<T>::Acknowledge { epoch }
            &&& answer is Reset <==> thread.phase is Decoding
            &&& later.local_epoch == epoch
        }),
{
}

/// The end of the source is announced exactly once on the way from decoding to
/// lingering, whatever happens in between and afterwards.
pub proof fn law_end_announced_once<T>(thread: VideoThread, events: Seq<VideoEvent<T>>)
    requires
        thread.phase.rank() < 3,
    ensures
        thread.ends_announced(events) == (if thread.run(events).phase.rank() >= 3 {
            1nat
        } else {
            0
        }),
    decreases events.len(),
{
    if events.len() > 0 {
        law_end_announced_once(thread, events.drop_last());
    }
}

/// The thread leaves only when the demuxer is gone, and not before the end of the
/// source was announced.
pub proof fn law_leaves_only_when_disconnected<T>(thread: VideoThread, event: VideoEvent<T>)
    requires
        !(thread.phase is Finished),
    ensures
        thread.step(event).0.phase is Finished ==> event == VideoEvent::<T>::Received(
            Received::Disconnected,
        ) && thread.phase is Lingering,
{
}

/// A seek during decoding is shown at once: the first frame after the reset is not
/// held, paused or not, and realigns the clock; from then on a pause holds frames
/// back again.
pub proof fn law_reset_shows_one_frame<T>(
    thread: VideoThread,
    seen: Observation<T>,
    paused: bool,
    epoch: u64,
)
    requires
        thread.phase is Decoding,
        seen.seek is Some,
    ensures
        ({
            let reset = thread.polled(seen).0;
            let timed = reset.realigned();
            &&& reset.just_seeked
            &&& reset.hold_of(paused, epoch) is Bypass
            &&& !timed.just_seeked
            &&& timed.hold_of(true, timed.local_epoch) is Wait
            &&& timed.hold_of(false, epoch) is Open
        }),
{
}

/// After a reset, frames without any time stamp are numbered from zero.
pub proof fn law_missing_pts_count_up(thread: VideoThread, n: nat)
    requires
        thread.last_pts is None,
        n <= i64::MAX,
    ensures
        thread.after_unstamped(n).pts_of(None, None) == n,
    decreases n,
{
    if n > 0 {
        law_missing_pts_count_up(thread, (n - 1) as nat);
    }
}

/// Early frames wait, late ones are dropped, and the others are shown: a frame waits
/// exactly when it is more than five milliseconds ahead of the clock, and is dropped
/// exactly when it is more than fifty behind.
pub proof fn law_lead_decides(lead: int)
    ensures
        pace_of(lead) is Wait <==> lead > 5_000,
        pace_of(lead) is Drop <==> lead < -50_000,
        pace_of(lead) is Show <==> -50_000 <= lead <= 5_000,
{
}

/// A frame that comes later is never treated as if it came earlier: if one lead waits, so
/// does every greater one, and if one is dropped, so is every smaller one.
pub proof fn law_pace_is_monotone(lead: int, greater: int)
    requires
        lead <= greater,
    ensures
        pace_of(lead) is Wait ==> pace_of(greater) is Wait,
        pace_of(greater) is Drop ==> pace_of(lead) is Drop,
{
}

/// While it decodes, the thread goes on receiving packets unless a seek comes: neither the
/// end of the audio nor the time makes a difference.
pub proof fn law_decoding_goes_on<T>(thread: VideoThread, seen: Observation<T>)
    requires
        thread.phase is Decoding,
        seen.seek is None,
    ensures
        thread.polled(seen).0 == thread,
        thread.polled(seen).1 == (VideoAction::<T>::Receive { timeout_ms: 10 }),
{
}

/// A seek while decoding resets the thread for just that epoch and target, and the thread
/// goes on decoding.
pub proof fn law_decoding_is_reset<T>(
    thread: VideoThread,
    seen: Observation<T>,
    epoch: u64,
    target: Option<T>,
)
    requires
        thread.phase is Decoding,
        seen.seek == Some((epoch, target)),
    ensures
        ({
            let (next, action) = thread.polled(seen);
            &&& action == VideoAction::Reset { epoch, target }
            &&& next.phase is Decoding
            &&& next.local_epoch == epoch
            &&& next.just_seeked
            &&& next.last_pts is None
        }),
{
}

/// Decoding ends with the packets, and with nothing else.
pub proof fn law_decoding_ends_with_the_packets<T>(thread: VideoThread, event: VideoEvent<T>)
    requires
        thread.phase is Decoding,
    ensures
        ({
            let (next, action) = thread.step(event);
            let ended = event == VideoEvent::<T>::Received(Received::Disconnected);
            &&& next.phase is Emptying <==> ended
            &&& next.phase is Decoding <==> !ended
            &&& ended ==> action is DecodeRest
            &&& action is Decode <==> event == VideoEvent::<T>::Received(Received::Packet)
            &&& !(action is AnnounceEnd)
            &&& !(action is Stop)
        }),
{
}

/// As long as the packets have not ended, the thread decodes, and the end of the source is
/// not announced, whatever happens and however often.
pub proof fn law_no_end_before_the_packets_end<T>(thread: VideoThread, events: Seq<VideoEvent<T>>)
    requires
        thread.phase is Decoding,
        forall|i: int|
            0 <= i < events.len() ==> #[trigger] events[i] != VideoEvent::<T>::Received(
                Received::Disconnected,
            ),
    ensures
        thread.run(events).phase is Decoding,
        thread.ends_announced(events) == 0,
    decreases events.len(),
{
    if events.len() > 0 {
        let before = events.drop_last();
        assert forall|i: int| 0 <= i < before.len() implies #[trigger] before[i] != VideoEvent::<
            T,
        >::Received(Received::Disconnected) by {
            assert(before[i] == events[i]);
        }
        assert(events[events.len() - 1] == events.last());
        law_no_end_before_the_packets_end(thread, before);
    }
}

/// The end of the source is announced only while the audio is awaited: when the audio has
/// ended, or when no seek has come and the time is up.
pub proof fn law_end_comes_after_waiting<T>(thread: VideoThread, event: VideoEvent<T>)
    ensures
        thread.step(event).1 matches VideoAction::AnnounceEnd { timed_out } ==> {
            &&& event matches VideoEvent::Poll(seen)
            &&& thread.phase matches VideoPhase::AwaitingAudio { deadline }
            &&& timed_out <==> !seen.audio_done
            &&& timed_out ==> seen.seek is None && seen.now >= deadline
        },
{
}

/// While the audio is awaited: its end is announced at once; until then a seek is answered
/// and gives the audio another five seconds; else the thread waits until the deadline.
pub proof fn law_audio_is_awaited<T>(thread: VideoThread, seen: Observation<T>, deadline: u64)
    requires
        thread.phase == (VideoPhase::AwaitingAudio { deadline }),
        seen.now + 5_000_000_000 <= u64::MAX,
    ensures
        ({
            let (next, action) = thread.polled(seen);
            &&& seen.audio_done ==> next.phase is Lingering
            &&& !seen.audio_done && seen.seek is None && seen.now < deadline ==> next == thread
                && action == (VideoAction::<T>::AwaitAudio { timeout_ms: 50 })
            &&& !seen.audio_done && seen.seek is None && seen.now >= deadline
                ==> next.phase is Lingering
            &&& !seen.audio_done && seen.seek is Some ==> {
                &&& next.phase == VideoPhase::AwaitingAudio {
                    deadline: (seen.now + 5_000_000_000) as u64,
                }
                &&& next.local_epoch == (seen.seek->0).0
                &&& action == (VideoAction::<T>::Acknowledge { epoch: (seen.seek->0).0 })
            }
            &&& seen.audio_done || seen.seek is None ==> next.local_epoch == thread.local_epoch
            &&& next.phase is Lingering <==> action is AnnounceEnd
            &&& next.just_seeked == thread.just_seeked
            &&& next.last_pts == thread.last_pts
        }),
{
}

/// While it lingers, the thread keeps receiving and answers seeks, whatever else it sees.
pub proof fn law_lingering_answers_seeks<T>(thread: VideoThread, seen: Observation<T>)
    requires
        thread.phase is Lingering,
    ensures
        ({
            let (next, action) = thread.polled(seen);
            &&& next.phase is Lingering
            &&& seen.seek is None ==> next == thread && action == (VideoAction::<T>::Receive {
                timeout_ms: 100,
            })
            &&& seen.seek is Some ==> next.local_epoch == (seen.seek->0).0 && action == (
            VideoAction::<T>::Acknowledge { epoch: (seen.seek->0).0 })
            &&& next.just_seeked == thread.just_seeked
            &&& next.last_pts == thread.last_pts
        }),
{
}

/// A thread that empties its decoder does just that until the decoder is empty, and then
/// gives the audio five seconds; one that has left does nothing any more.
pub proof fn law_emptying_and_leaving<T>(thread: VideoThread, seen: Observation<T>, now: u64)
    requires
        now + 5_000_000_000 <= u64::MAX,
    ensures
        thread.phase is Emptying ==> {
            &&& thread.polled(seen).0 == thread
            &&& thread.polled(seen).1 is DecodeRest
            &&& thread.after_rest(now).phase == VideoPhase::AwaitingAudio {
                deadline: (now + 5_000_000_000) as u64,
            }
        },
        !(thread.phase is Emptying) ==> thread.after_rest(now) == thread,
        thread.phase is Finished ==> thread.polled(seen).0 == thread && thread.polled(
            seen,
        ).1 is Stop,
        thread.after_rest(now).local_epoch == thread.local_epoch,
        thread.after_rest(now).just_seeked == thread.just_seeked,
        thread.after_rest(now).last_pts == thread.last_pts,
{
}

/// A received packet is decoded while decoding and thrown away otherwise, an idle wait
/// changes nothing, and the end of the packets matters only while decoding or lingering.
pub proof fn law_packets_are_decoded_or_dropped<T>(thread: VideoThread, got: Received)
    ensures
        ({
            let (next, action) = thread.told::<T>(got);
            let moves = got is Disconnected && (thread.phase is Decoding
                || thread.phase is Lingering);
            &&& !moves ==> next == thread
            &&& action is Decode <==> thread.phase is Decoding && got is Packet
            &&& action is DecodeRest <==> thread.phase is Decoding && got is Disconnected
            &&& action is Stop <==> thread.phase is Lingering && got is Disconnected
            &&& action is Again <==> !(action is Decode || action is DecodeRest || action is Stop)
            &&& next.phase is Finished <==> thread.phase is Finished || action is Stop
            &&& next.phase is Emptying <==> thread.phase is Emptying || action is DecodeRest
            &&& next.local_epoch == thread.local_epoch
            &&& next.just_seeked == thread.just_seeked
            &&& next.last_pts == thread.last_pts
        }),
{
}

/// A frame keeps its own time stamp if it has one; else it gets the decoder's guess; else
/// it comes one step after the frame before, or is the first.
pub proof fn law_time_stamp_of_a_frame(
    thread: VideoThread,
    pts: Option<i64>,
    best_effort: Option<i64>,
)
    ensures
        pts is Some ==> thread.pts_of(pts, best_effort) == pts->0,
        pts is None && best_effort is Some ==> thread.pts_of(pts, best_effort) == best_effort->0,
        pts is None && best_effort is None && thread.last_pts is Some ==> thread.pts_of(
            pts,
            best_effort,
        ) == thread.last_pts->0 + 1,
        pts is None && best_effort is None && thread.last_pts is None ==> thread.pts_of(
            pts,
            best_effort,
        ) == 0,
{
}

/// A pause holds frames back until it ends or a seek comes; the first frame after a seek
/// is not held.
pub proof fn law_pause_holds_frames(thread: VideoThread, paused: bool, epoch: u64)
    ensures
        thread.hold_of(paused, epoch) is Bypass <==> thread.just_seeked,
        thread.hold_of(paused, epoch) is Open <==> !thread.just_seeked && !paused,
        thread.hold_of(paused, epoch) is Abandon <==> !thread.just_seeked && paused && epoch
            != thread.local_epoch,
        thread.hold_of(paused, epoch) is Wait <==> !thread.just_seeked && paused && epoch
            == thread.local_epoch,
        thread.hold_of(paused, epoch) matches Hold::Wait { timeout_ms } ==> timeout_ms == 50,
{
}

/// The wait for a frame's time ends when a seek comes or the clock has reached it, and not
/// before.
pub proof fn law_wait_ends_in_time(thread: VideoThread, epoch: u64, reached: bool)
    ensures
        thread.wait_of(epoch, reached) is Nap <==> epoch == thread.local_epoch && !reached,
        thread.wait_of(epoch, reached) is Show <==> epoch == thread.local_epoch && reached,
        thread.wait_of(epoch, reached) is Abandon <==> epoch != thread.local_epoch,
{
}

/// Aligning the clock takes the mark of the seek off, and changes nothing else.
pub proof fn law_alignment_is_remembered(thread: VideoThread)
    ensures
        !thread.realigned().just_seeked,
        thread.realigned().phase == thread.phase,
        thread.realigned().local_epoch == thread.local_epoch,
        thread.realigned().last_pts == thread.last_pts,
{
}

/// A time base is used exactly if its denominator is positive, and as it is.
pub proof fn law_time_base_is_used_as_it_is(numerator: i32, denominator: i32)
    ensures
        time_base_of(None) is None,
        time_base_of(Some((numerator, denominator))) is Some <==> denominator > 0,
        time_base_of(Some((numerator, denominator))) matches Some((n, d)) ==> n == numerator && d
            == denominator,
{
}

/// A frame that has the layout needs no converter; for every other one the converter at
/// hand is used exactly if it was made for such frames, and else one is made for them.
pub proof fn law_converter_is_made_for_the_frame(
    current: Option<ConverterKey>,
    is_planar_420: bool,
    needed: ConverterKey,
)
    ensures
        ({
            let plan = conversion_of(current, is_planar_420, needed);
            &&& plan is Direct <==> is_planar_420
            &&& plan is Reuse <==> !is_planar_420 && {
                &&& current is Some
                &&& current->0.format == needed.format
                &&& current->0.width == needed.width
                &&& current->0.height == needed.height
            }
            &&& plan matches ConverterPlan::Rebuild { key } ==> {
                &&& key.format == needed.format
                &&& key.width == needed.width
                &&& key.height == needed.height
            }
        }),
{
}

/// A thread starts to decode at once, before any seek; without a decoder it only waits for
/// the audio, at most five seconds.
pub proof fn law_thread_starts(has_decoder: bool, now: u64)
    requires
        now + 5_000_000_000 <= u64::MAX,
    ensures
        ({
            let thread = VideoThread::started(has_decoder, now);
            &&& thread.phase is Decoding <==> has_decoder
            &&& !has_decoder ==> thread.phase == (VideoPhase::AwaitingAudio {
                deadline: (now + 5_000_000_000) as u64,
            })
            &&& thread.local_epoch == 0
            &&& !thread.just_seeked
            &&& thread.last_pts is None
        }),
{
}

} // verus!
