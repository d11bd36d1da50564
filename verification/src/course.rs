//! The way of one decoded frame to the window.
//!
//! A frame is held while playing is paused, gets its time stamp, is compared with the
//! clock, waits for its time where it is early, is converted and shown. On the way it is dropped
//! where a seek makes it void, where it is late, or where it cannot be converted.

use crate::clock::{shown, ClockModel};
use crate::video::{
    pace, pace_of, Hold, Observation, Pace, VideoThread, WaitStep, EARLY_MICROS, LATE_MICROS,
};
use vstd::prelude::*;

verus! {

/// How far a frame has come.
#[derive(Clone, Copy, PartialEq, Eq, Structural)]
pub enum Stage {
    /// It is held while playing is paused.
    Hold,
    /// It gets its time stamp.
    Stamp,
    /// It is compared with the clock.
    Compare,
    /// It waits for its time.
    Wait,
    /// It is converted to the pixel layout that is shown.
    Convert,
    Shown,
    Dropped,
}

/// What the program tells of a frame.
#[derive(Clone, Copy)]
pub enum FrameEvent {
    /// While it is held: whether playing is paused, and the newest epoch.
    Looked { paused: bool, epoch: u64 },
    /// The time stamp of the frame, and the decoder's best guess.
    Stamped { pts: Option<i64>, best_effort: Option<i64> },
    /// How far the frame is ahead of the clock, in microseconds rounded away from zero;
    /// negative where it is behind.
    Compared { lead_micros: i64 },
    /// While it waits: the newest epoch, and whether the clock has reached its time.
    Waited { epoch: u64, reached: bool },
    /// Whether it has the layout that is shown.
    Converted { ok: bool },
}

/// What has to be done about a frame next.
#[derive(Clone, Copy, PartialEq, Eq, Structural)]
pub enum FrameStep {
    /// Wait until playing is resumed or the time is up, and look again.
    AwaitResume { timeout_ms: u64 },
    /// Count the time that it was held as a pause where that is asked for, and give
    /// the time stamps.
    GiveStamps { count_pause: bool },
    /// Align the clock with this time stamp where that is asked for, and compare them.
    CompareWithClock { pts: i64, realign: bool },
    /// Look at the clock and the newest epoch.
    LookAtClock,
    /// Sleep a little, and look at them again.
    Nap,
    /// Convert it where that is needed.
    Convert,
    /// Copy it and send it to the window.
    Show,
    Drop,
    /// Nothing: the event does not belong to this stage.
    Ignore,
}

/// The way of a frame.
#[derive(Clone, Copy)]
pub struct FrameCourse {
    pub stage: Stage,
    /// Whether the clock was aligned with it, which makes it neither early nor late.
    pub aligned: bool,
}

/// A frame that comes out of the decoder.
pub open spec fn fresh() -> FrameCourse {
    FrameCourse { stage: Stage::Hold, aligned: false }
}

impl Stage {
    /// The place of a stage on the way.
    pub open spec fn rank(self) -> int {
        match self {
            Stage::Hold => 0,
            Stage::Stamp => 1,
            Stage::Compare => 2,
            Stage::Wait => 3,
            Stage::Convert => 4,
            Stage::Shown => 5,
            Stage::Dropped => 5,
        }
    }
}

impl FrameCourse {
    /// The same frame at another stage.
    pub open spec fn at(self, stage: Stage) -> FrameCourse {
        FrameCourse { stage, ..self }
    }

    /// What follows from an event, for the frame and for the thread.
    pub open spec fn advanced(self, thread: VideoThread, event: FrameEvent) -> (
        FrameCourse,
        VideoThread,
        FrameStep,
    ) {
        match (self.stage, event) {
            (Stage::Hold, FrameEvent::Looked { paused, epoch }) => match thread.hold_of(
                paused,
                epoch,
            ) {
                Hold::Bypass => (
                    self.at(Stage::Stamp),
                    thread,
                    FrameStep::GiveStamps { count_pause: false },
                ),
                Hold::Open => (
                    self.at(Stage::Stamp),
                    thread,
                    FrameStep::GiveStamps { count_pause: true },
                ),
                Hold::Abandon => (self.at(Stage::Dropped), thread, FrameStep::Drop),
                Hold::Wait { timeout_ms } => (self, thread, FrameStep::AwaitResume { timeout_ms }),
            },
            (Stage::Stamp, FrameEvent::Stamped { pts, best_effort }) => {
                let chosen = thread.pts_of(pts, best_effort) as i64;
                (
                    FrameCourse { stage: Stage::Compare, aligned: thread.just_seeked },
                    VideoThread { last_pts: Some(chosen), ..thread }.realigned(),
                    FrameStep::CompareWithClock { pts: chosen, realign: thread.just_seeked },
                )
            },
            (Stage::Compare, FrameEvent::Compared { lead_micros }) => if self.aligned {
                (self.at(Stage::Convert), thread, FrameStep::Convert)
            } else {
                match pace_of(lead_micros as int) {
                    Pace::Wait => (self.at(Stage::Wait), thread, FrameStep::LookAtClock),
                    Pace::Drop => (self.at(Stage::Dropped), thread, FrameStep::Drop),
                    Pace::Show => (self.at(Stage::Convert), thread, FrameStep::Convert),
                }
            },
            (Stage::Wait, FrameEvent::Waited { epoch, reached }) => if epoch
                != thread.local_epoch {
                (self.at(Stage::Dropped), thread, FrameStep::Drop)
            } else if reached {
                (self.at(Stage::Convert), thread, FrameStep::Convert)
            } else {
                (self, thread, FrameStep::Nap)
            },
            (Stage::Convert, FrameEvent::Converted { ok }) => if ok {
                (self.at(Stage::Shown), thread, FrameStep::Show)
            } else {
                (self.at(Stage::Dropped), thread, FrameStep::Drop)
            },
            _ => (self, thread, FrameStep::Ignore),
        }
    }

    /// Where a frame and the thread are after a series of events.
    pub open spec fn run(self, thread: VideoThread, events: Seq<FrameEvent>) -> (
        FrameCourse,
        VideoThread,
    )
        decreases events.len(),
    {
        if events.len() == 0 {
            (self, thread)
        } else {
            let (course, before) = self.run(thread, events.drop_last());
            let (next, after, _) = course.advanced(before, events.last());
            (next, after)
        }
    }

    /// What has to be done on a series of events, one after the other.
    pub open spec fn steps(self, thread: VideoThread, events: Seq<FrameEvent>) -> Seq<FrameStep>
        decreases events.len(),
    {
        if events.len() == 0 {
            Seq::empty()
        } else {
            let (course, before) = self.run(thread, events.drop_last());
            self.steps(thread, events.drop_last()).push(course.advanced(before, events.last()).2)
        }
    }

    /// How often the frame is sent to the window in a series of events.
    pub open spec fn times_shown(self, thread: VideoThread, events: Seq<FrameEvent>) -> nat
        decreases events.len(),
    {
        if events.len() == 0 {
            0
        } else {
            self.times_shown(thread, events.drop_last()) + if self.steps(
                thread,
                events,
            ).last() is Show {
                1nat
            } else {
                0
            }
        }
    }

    /// A frame that comes out of the decoder.
    pub fn new() -> (course: FrameCourse)
        ensures
            course == fresh(),
    {
        FrameCourse { stage: Stage::Hold, aligned: false }
    }

    /// Takes in what the program tells of the frame, and decides what to do next.
    pub fn process_frame(&mut self, thread: &mut VideoThread, event: FrameEvent) -> (step:
        FrameStep)
        requires
            old(self).stage == Stage::Stamp && event == (FrameEvent::Stamped {
                pts: None,
                best_effort: None,
            }) && old(thread).last_pts is Some ==> old(thread).last_pts->0 < i64::MAX,
        ensures
            (*final(self), *final(thread), step) == old(self).advanced(*old(thread), event),
    {
        match (self.stage, event) {
            (Stage::Hold, FrameEvent::Looked { paused, epoch }) => match thread.pause_hold(
                paused,
                epoch,
            ) {
                Hold::Bypass => {
                    self.stage = Stage::Stamp;
                    FrameStep::GiveStamps { count_pause: false }
                },
                Hold::Open => {
                    self.stage = Stage::Stamp;
                    FrameStep::GiveStamps { count_pause: true }
                },
                Hold::Abandon => {
                    self.stage = Stage::Dropped;
                    FrameStep::Drop
                },
                Hold::Wait { timeout_ms } => FrameStep::AwaitResume { timeout_ms },
            },
            (Stage::Stamp, FrameEvent::Stamped { pts, best_effort }) => {
                let chosen: i64 = thread.frame_pts(pts, best_effort);
                let realign = thread.take_realign();
                self.stage = Stage::Compare;
                self.aligned = realign;
                FrameStep::CompareWithClock { pts: chosen, realign }
            },
            (Stage::Compare, FrameEvent::Compared { lead_micros }) => {
                if self.aligned {
                    self.stage = Stage::Convert;
                    return FrameStep::Convert;
                }
                match pace(lead_micros) {
                    Pace::Wait => {
                        self.stage = Stage::Wait;
                        FrameStep::LookAtClock
                    },
                    Pace::Drop => {
                        self.stage = Stage::Dropped;
                        FrameStep::Drop
                    },
                    Pace::Show => {
                        self.stage = Stage::Convert;
                        FrameStep::Convert
                    },
                }
            },
            (Stage::Wait, FrameEvent::Waited { epoch, reached }) => match thread.wait_step(
                epoch,
                reached,
            ) {
                WaitStep::Abandon => {
                    self.stage = Stage::Dropped;
                    FrameStep::Drop
                },
                WaitStep::Show => {
                    self.stage = Stage::Convert;
                    FrameStep::Convert
                },
                WaitStep::Nap => FrameStep::Nap,
            },
            (Stage::Convert, FrameEvent::Converted { ok }) => {
                if ok {
                    self.stage = Stage::Shown;
                    FrameStep::Show
                } else {
                    self.stage = Stage::Dropped;
                    FrameStep::Drop
                }
            },
            _ => FrameStep::Ignore,
        }
    }
}

/// A frame never goes back, and once shown or dropped it stays so.
pub proof fn law_frames_go_forward(course: FrameCourse, thread: VideoThread, event: FrameEvent)
    ensures
        course.stage.rank() <= course.advanced(thread, event).0.stage.rank() <= 5,
        course.stage.rank() == 5 ==> course.advanced(thread, event).0 == course,
{
}

/// A frame is sent to the window at most once, and exactly if it ends up shown: one that
/// is dropped, for whatever reason, is never sent.
pub proof fn law_frame_is_shown_once(thread: VideoThread, events: Seq<FrameEvent>)
    ensures
        fresh().times_shown(thread, events) == (if fresh().run(thread, events).0.stage
            == Stage::Shown {
            1nat
        } else {
            0
        }),
    decreases events.len(),
{
    if events.len() > 0 {
        law_frame_is_shown_once(thread, events.drop_last());
    }
}

/// A frame that cannot be converted is dropped.
pub proof fn law_unconverted_frame_is_dropped(course: FrameCourse, thread: VideoThread)
    requires
        course.stage == Stage::Convert,
    ensures
        ({
            let failed = FrameEvent::Converted { ok: false };
            &&& course.advanced(thread, failed).0.stage == Stage::Dropped
            &&& course.advanced(thread, failed).2 is Drop
        }),
{
}

/// The usual way of a frame to the window, in four events.
pub open spec fn way(
    paused: bool,
    epoch: u64,
    pts: Option<i64>,
    best_effort: Option<i64>,
    lead_micros: i64,
) -> Seq<FrameEvent> {
    seq![
        FrameEvent::Looked { paused, epoch },
        FrameEvent::Stamped { pts, best_effort },
        FrameEvent::Compared { lead_micros },
        FrameEvent::Converted { ok: true },
    ]
}

proof fn lemma_four_steps(thread: VideoThread, events: Seq<FrameEvent>)
    requires
        events.len() == 4,
    ensures
        ({
            let (c1, t1, s1) = fresh().advanced(thread, events[0]);
            let (c2, t2, s2) = c1.advanced(t1, events[1]);
            let (c3, t3, s3) = c2.advanced(t2, events[2]);
            let (c4, t4, s4) = c3.advanced(t3, events[3]);
            &&& fresh().run(thread, events) == (c4, t4)
            &&& fresh().steps(thread, events) == seq![s1, s2, s3, s4]
        }),
{
    let start = fresh();
    let none = Seq::<FrameEvent>::empty();
    let one = events.take(1);
    let two = events.take(2);
    let three = events.take(3);
    assert(one.drop_last() =~= none);
    assert(two.drop_last() =~= one);
    assert(three.drop_last() =~= two);
    assert(events.drop_last() =~= three);
    let (c1, t1, s1) = start.advanced(thread, events[0]);
    let (c2, t2, s2) = c1.advanced(t1, events[1]);
    let (c3, t3, s3) = c2.advanced(t2, events[2]);
    let (_, _, s4) = c3.advanced(t3, events[3]);
    assert(start.run(thread, none) == (start, thread));
    assert(start.run(thread, one) == (c1, t1));
    assert(start.run(thread, two) == (c2, t2));
    assert(start.run(thread, three) == (c3, t3));
    assert(start.steps(thread, none) =~= Seq::<FrameStep>::empty());
    assert(start.steps(thread, one) =~= seq![s1]);
    assert(start.steps(thread, two) =~= seq![s1, s2]);
    assert(start.steps(thread, three) =~= seq![s1, s2, s3]);
    assert(start.steps(thread, events) =~= seq![s1, s2, s3, s4]);
}

/// A frame that is neither held up nor early nor late, and can be converted, is shown.
pub proof fn law_frame_on_time_is_shown(
    thread: VideoThread,
    pts: Option<i64>,
    best_effort: Option<i64>,
    epoch: u64,
    lead_micros: i64,
)
    requires
        -LATE_MICROS <= lead_micros <= EARLY_MICROS,
    ensures
        fresh().run(thread, way(false, epoch, pts, best_effort, lead_micros)).0.stage
            == Stage::Shown,
{
    lemma_four_steps(thread, way(false, epoch, pts, best_effort, lead_micros));
}

/// A frame that is late is dropped, unless the clock was just aligned with it.
pub proof fn law_late_frame_is_dropped(
    thread: VideoThread,
    pts: Option<i64>,
    best_effort: Option<i64>,
    epoch: u64,
    lead_micros: i64,
)
    requires
        !thread.just_seeked,
        lead_micros < -LATE_MICROS,
    ensures
        fresh().run(thread, way(false, epoch, pts, best_effort, lead_micros)).0.stage
            == Stage::Dropped,
{
    lemma_four_steps(thread, way(false, epoch, pts, best_effort, lead_micros));
}

/// The first frame after a seek is shown: paused or not, and whatever its time stamp, it
/// is neither held nor dropped as late; the clock is aligned with it; it is sent to the
/// window, once; and the next frame obeys the pause again.
pub proof fn law_first_frame_after_seek_is_shown<T>(
    thread: VideoThread,
    seen: Observation<T>,
    paused: bool,
    epoch: u64,
    pts: Option<i64>,
    best_effort: Option<i64>,
    lead_micros: i64,
)
    requires
        thread.phase is Decoding,
        seen.seek is Some,
    ensures
        ({
            let reset = thread.polled(seen).0;
            let events = way(paused, epoch, pts, best_effort, lead_micros);
            let stamp = reset.pts_of(pts, best_effort) as i64;
            let (course, after) = fresh().run(reset, events);
            &&& fresh().steps(reset, events) == seq![
                FrameStep::GiveStamps { count_pause: false },
                FrameStep::CompareWithClock { pts: stamp, realign: true },
                FrameStep::Convert,
                FrameStep::Show,
            ]
            &&& course.stage == Stage::Shown
            &&& !after.just_seeked
            &&& after.local_epoch == reset.local_epoch
            &&& after.hold_of(true, after.local_epoch) is Wait
        }),
{
    lemma_four_steps(thread.polled(seen).0, way(paused, epoch, pts, best_effort, lead_micros));
}

/// A frame with which the clock is aligned is on time: for positions that are counted in
/// the clock's unit it is neither ahead nor behind, as long as the clock stands still.
pub proof fn law_aligned_frame_is_on_time(clock: ClockModel<int>, position: int, now: u64)
    ensures
        ({
            let base = clock.base + position - shown(clock.reading(now));
            let lead = position - shown(clock.rebased(base).reading(now));
            lead == 0 && pace_of(lead) is Show
        }),
{
}

/// A seek makes a frame void that it finds held or waiting for its time, so that the
/// thread gets round to answering it.
pub proof fn law_seek_voids_waiting_frames(
    thread: VideoThread,
    epoch: u64,
    reached: bool,
    aligned: bool,
)
    requires
        epoch != thread.local_epoch,
    ensures
        ({
            let waiting = FrameCourse { stage: Stage::Wait, aligned };
            let held = FrameCourse { stage: Stage::Hold, aligned };
            let waited = FrameEvent::Waited { epoch, reached };
            let looked = FrameEvent::Looked { paused: true, epoch };
            &&& waiting.advanced(thread, waited).0.stage == Stage::Dropped
            &&& !thread.just_seeked ==> held.advanced(thread, looked).0.stage == Stage::Dropped
        }),
{
}

/// The clock is aligned with the first frame after a reset and with no other: once a
/// frame has its time stamp, no frame asks for it until the next reset.
pub proof fn law_clock_is_aligned_once(
    course: FrameCourse,
    thread: VideoThread,
    events: Seq<FrameEvent>,
    event: FrameEvent,
)
    requires
        !thread.just_seeked,
    ensures
        ({
            let (later, after) = course.run(thread, events);
            &&& !after.just_seeked
            &&& after.local_epoch == thread.local_epoch
            &&& later.advanced(after, event).2 matches FrameStep::CompareWithClock {
                realign,
                ..
            } ==> !realign
        }),
    decreases events.len(),
{
    if events.len() > 0 {
        law_clock_is_aligned_once(course, thread, events.drop_last(), events.last());
    }
}

/// An early frame waits: one that is more than five milliseconds ahead of the clock, and
/// with which the clock was not aligned, is neither shown nor dropped yet.
pub proof fn law_early_frame_waits(course: FrameCourse, thread: VideoThread, lead_micros: i64)
    requires
        course.stage == Stage::Compare,
        !course.aligned,
        lead_micros > 5_000,
    ensures
        ({
            let (next, after, step) = course.advanced(
                thread,
                FrameEvent::Compared { lead_micros },
            );
            &&& next.stage == Stage::Wait
            &&& !next.aligned
            &&& after == thread
            &&& step is LookAtClock
        }),
{
}

/// A frame that was compared goes on to be converted exactly when the clock was aligned
/// with it or it is neither early nor late, and is dropped exactly when it is late.
pub proof fn law_compared_frame_goes_on(
    course: FrameCourse,
    thread: VideoThread,
    lead_micros: i64,
)
    requires
        course.stage == Stage::Compare,
    ensures
        ({
            let (next, after, step) = course.advanced(
                thread,
                FrameEvent::Compared { lead_micros },
            );
            &&& next.stage == Stage::Convert <==> course.aligned || -50_000 <= lead_micros <= 5_000
            &&& next.stage == Stage::Dropped <==> !course.aligned && lead_micros < -50_000
            &&& next.stage == Stage::Wait <==> !course.aligned && lead_micros > 5_000
            &&& step is Convert <==> next.stage == Stage::Convert
            &&& step is Drop <==> next.stage == Stage::Dropped
            &&& step is LookAtClock <==> next.stage == Stage::Wait
            &&& next.aligned == course.aligned
            &&& after == thread
        }),
{
}

/// A waiting frame waits until the clock has reached its time or a seek comes: it is
/// converted exactly in the one case, dropped exactly in the other, and sleeps else.
pub proof fn law_waiting_frame_goes_on(
    course: FrameCourse,
    thread: VideoThread,
    epoch: u64,
    reached: bool,
)
    requires
        course.stage == Stage::Wait,
    ensures
        ({
            let (next, after, step) = course.advanced(
                thread,
                FrameEvent::Waited { epoch, reached },
            );
            let sought = epoch != thread.local_epoch;
            &&& next.stage == Stage::Dropped <==> sought
            &&& next.stage == Stage::Convert <==> !sought && reached
            &&& next.stage == Stage::Wait <==> !sought && !reached
            &&& step is Drop <==> sought
            &&& step is Convert <==> !sought && reached
            &&& step is Nap <==> !sought && !reached
            &&& next.aligned == course.aligned
            &&& after == thread
        }),
{
}

/// An early frame stays away from the window as long as the clock has not reached its time
/// and no seek has come, whatever else it is told.
pub proof fn law_early_frame_is_not_shown_before_its_time(
    course: FrameCourse,
    thread: VideoThread,
    events: Seq<FrameEvent>,
)
    requires
        course.stage == Stage::Wait,
        forall|i: int|
            0 <= i < events.len() ==> (#[trigger] events[i] matches FrameEvent::Waited {
                epoch,
                reached,
            } ==> !reached && epoch == thread.local_epoch),
    ensures
        course.run(thread, events) == (course, thread),
        course.times_shown(thread, events) == 0,
    decreases events.len(),
{
    if events.len() > 0 {
        let before = events.drop_last();
        assert forall|i: int| 0 <= i < before.len() implies (
        #[trigger] before[i] matches FrameEvent::Waited { epoch, reached } ==> !reached && epoch
            == thread.local_epoch) by {
            assert(before[i] == events[i]);
        }
        law_early_frame_is_not_shown_before_its_time(course, thread, before);
        assert(events[events.len() - 1] == events.last());
    }
}

/// A frame that is held goes on when playing goes on, or at once after a seek; while paused
/// it stays, and a seek drops it.
pub proof fn law_held_frame_goes_on(
    course: FrameCourse,
    thread: VideoThread,
    paused: bool,
    epoch: u64,
)
    requires
        course.stage == Stage::Hold,
    ensures
        ({
            let (next, after, step) = course.advanced(thread, FrameEvent::Looked { paused, epoch });
            let passes = thread.just_seeked || !paused;
            let sought = epoch != thread.local_epoch;
            &&& passes ==> next.stage == Stage::Stamp && step == (FrameStep::GiveStamps {
                count_pause: !thread.just_seeked,
            })
            &&& !passes && sought ==> next.stage == Stage::Dropped && step is Drop
            &&& !passes && !sought ==> next.stage == Stage::Hold && step == (
            FrameStep::AwaitResume { timeout_ms: 50 })
            &&& next.aligned == course.aligned
            &&& after == thread
        }),
{
}

/// A frame gets its time stamp: its own, else the decoder's guess, else one step after the
/// frame before; the clock is aligned with it exactly if it is the first after a seek; and
/// the thread remembers the stamp.
pub proof fn law_frame_is_stamped(
    course: FrameCourse,
    thread: VideoThread,
    pts: Option<i64>,
    best_effort: Option<i64>,
)
    requires
        course.stage == Stage::Stamp,
        pts is None && best_effort is None && thread.last_pts is Some ==> thread.last_pts->0
            < i64::MAX,
    ensures
        ({
            let (next, after, step) = course.advanced(
                thread,
                FrameEvent::Stamped { pts, best_effort },
            );
            &&& next.stage == Stage::Compare
            &&& next.aligned == thread.just_seeked
            &&& step matches FrameStep::CompareWithClock { pts: stamp, realign }
            &&& realign == thread.just_seeked
            &&& pts is Some ==> stamp == pts->0
            &&& pts is None && best_effort is Some ==> stamp == best_effort->0
            &&& pts is None && best_effort is None && thread.last_pts is Some ==> stamp
                == thread.last_pts->0 + 1
            &&& pts is None && best_effort is None && thread.last_pts is None ==> stamp == 0
            &&& after.last_pts == Some(stamp)
            &&& !after.just_seeked
            &&& after.phase == thread.phase
            &&& after.local_epoch == thread.local_epoch
        }),
{
}

/// A frame that can be converted is shown, and one that cannot is dropped.
pub proof fn law_converted_frame_is_shown(course: FrameCourse, thread: VideoThread, ok: bool)
    requires
        course.stage == Stage::Convert,
    ensures
        ({
            let (next, after, step) = course.advanced(thread, FrameEvent::Converted { ok });
            &&& next.stage == Stage::Shown <==> ok
            &&& next.stage == Stage::Dropped <==> !ok
            &&& step is Show <==> ok
            &&& step is Drop <==> !ok
            &&& next.aligned == course.aligned
            &&& after == thread
        }),
{
}

/// Whether an event belongs to a stage.
pub open spec fn belongs(stage: Stage, event: FrameEvent) -> bool {
    ||| stage == Stage::Hold && event is Looked
    ||| stage == Stage::Stamp && event is Stamped
    ||| stage == Stage::Compare && event is Compared
    ||| stage == Stage::Wait && event is Waited
    ||| stage == Stage::Convert && event is Converted
}

/// An event that does not belong to the stage of a frame changes nothing, and one that
/// does is never ignored.
pub proof fn law_stray_events_change_nothing(
    course: FrameCourse,
    thread: VideoThread,
    event: FrameEvent,
)
    ensures
        !belongs(course.stage, event) ==> course.advanced(thread, event) == (
            course,
            thread,
            FrameStep::Ignore,
        ),
        belongs(course.stage, event) ==> !(course.advanced(thread, event).2 is Ignore),
{
}

} // verus!
