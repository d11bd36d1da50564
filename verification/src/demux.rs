//! The demuxer thread as a state machine.
//!
//! One thread reads the source and hands each packet to the decoder of its stream.
//! On a seek it waits until the decoders have reset themselves before it moves the
//! read position, so that no packet from before the seek follows one from after it.

use crate::audio::{AudioAction, AudioSight, AudioThread};
use crate::seek::{SeekCtl, SeekModel};
use crate::video::{Observation, VideoAction, VideoThread};
use vstd::prelude::*;

verus! {

/// How far from a seek target a key frame is looked for, in microseconds.
pub const SEEK_TOLERANCE_MICROS: i64 = 250_000;

/// Where a packet goes.
#[derive(Clone, Copy)]
pub enum Route {
    Video,
    Audio,
    /// Nowhere: its stream is not played.
    Skip,
}

/// Where a packet of the stream `index` goes.
pub open spec fn route_of(
    index: usize,
    video_index: Option<usize>,
    audio_index: Option<usize>,
) -> Route {
    if video_index == Some(index) {
        Route::Video
    } else if audio_index == Some(index) {
        Route::Audio
    } else {
        Route::Skip
    }
}

/// Decides where a packet of the stream `index` goes.
pub fn route(index: usize, video_index: Option<usize>, audio_index: Option<usize>) -> (route: Route)
    ensures
        route == (if video_index == Some(index) {
            Route::Video
        } else if audio_index == Some(index) {
            Route::Audio
        } else {
            Route::Skip
        }),
        route == route_of(index, video_index, audio_index),
{
    if let Some(video) = video_index {
        if video == index {
            return Route::Video;
        }
    }
    if let Some(audio) = audio_index {
        if audio == index {
            return Route::Audio;
        }
    }
    Route::Skip
}

/// Where the demuxer is.
#[derive(Clone, Copy)]
pub enum DemuxPhase {
    /// It reads packets.
    Reading,
    /// It waits until the decoders are ready for the epoch that it has seen.
    AwaitingReady,
    /// The source has ended, or nobody takes its packets.
    Finished,
}

/// What the demuxer has to do next.
pub enum DemuxAction<T> {
    /// Read a packet and hand it on.
    ReadPacket,
    /// Wait for a report.
    AwaitReady,
    /// Move the read position to the target.
    Seek { target: T },
    /// Look again.
    Again,
    /// Leave the thread, which lets the decoders finish.
    Stop,
}

/// What became of the attempt to read a packet and hand it on.
#[derive(Clone, Copy)]
pub enum PacketFate {
    Delivered,
    Skipped,
    /// The decoder is gone.
    Refused,
    /// There is none.
    EndOfSource,
}

/// The state of the demuxer.
#[derive(Clone, Copy)]
pub struct DemuxThread {
    pub phase: DemuxPhase,
    /// The newest epoch that the demuxer has seen.
    pub seen: u64,
}

impl DemuxThread {
    /// What follows from looking at the seek state, for it and for the demuxer.
    pub open spec fn polled<T>(self, seek: SeekModel<T>) -> (
        DemuxThread,
        SeekModel<T>,
        DemuxAction<T>,
    ) {
        match self.phase {
            DemuxPhase::Reading => match seek.news(self.seen as nat) {
                Some((epoch, _)) => (
                    DemuxThread { phase: DemuxPhase::AwaitingReady, seen: epoch as u64 },
                    seek,
                    DemuxAction::Again,
                ),
                None => (self, seek, DemuxAction::ReadPacket),
            },
            DemuxPhase::AwaitingReady => if seek.is_ready(self.seen as nat) {
                (
                    DemuxThread { phase: DemuxPhase::Reading, ..self },
                    seek.taken(self.seen as nat),
                    match seek.target_of(self.seen as nat) {
                        Some(target) => DemuxAction::Seek { target },
                        None => DemuxAction::Again,
                    },
                )
            } else {
                (self, seek, DemuxAction::AwaitReady)
            },
            DemuxPhase::Finished => (self, seek, DemuxAction::Stop),
        }
    }

    /// The state after the attempt to read a packet and hand it on.
    pub open spec fn after_packet(self, fate: PacketFate) -> DemuxThread {
        if fate is Refused || fate is EndOfSource {
            DemuxThread { phase: DemuxPhase::Finished, ..self }
        } else {
            self
        }
    }

    /// A demuxer at the start of its source.
    pub open spec fn started() -> DemuxThread {
        DemuxThread { phase: DemuxPhase::Reading, seen: 0 }
    }

    /// A demuxer at the start of its source.
    pub fn new() -> (demux: DemuxThread)
        ensures
            demux == (DemuxThread { phase: DemuxPhase::Reading, seen: 0 }),
            demux == DemuxThread::started(),
    {
        DemuxThread { phase: DemuxPhase::Reading, seen: 0 }
    }

    /// Looks at the seek state and decides what to do next.
    pub fn poll<T: Copy>(&mut self, seek: &mut SeekCtl<T>) -> (action: DemuxAction<T>)
        ensures
            (*final(self), final(seek)@, action) == old(self).polled(old(seek)@),
    {
        match self.phase {
            DemuxPhase::Reading => {
                if let Some((epoch, _)) = seek.snapshot_new(self.seen) {
                    self.seen = epoch;
                    self.phase = DemuxPhase::AwaitingReady;
                    DemuxAction::Again
                } else {
                    DemuxAction::ReadPacket
                }
            },
            DemuxPhase::AwaitingReady => {
                if seek.wait_ready(self.seen) {
                    self.phase = DemuxPhase::Reading;
                    match seek.take_target(self.seen) {
                        Some(target) => DemuxAction::Seek { target },
                        None => DemuxAction::Again,
                    }
                } else {
                    DemuxAction::AwaitReady
                }
            },
            DemuxPhase::Finished => DemuxAction::Stop,
        }
    }

    /// Takes in what became of a packet.
    pub fn packet_done(&mut self, fate: PacketFate)
        ensures
            *final(self) == old(self).after_packet(fate),
    {
        match fate {
            PacketFate::Refused | PacketFate::EndOfSource => {
                self.phase = DemuxPhase::Finished;
            },
            _ => {},
        }
    }
}

/// The number closest to `value` that a position can be.
pub open spec fn saturated(value: int) -> int {
    if value < i64::MIN {
        i64::MIN as int
    } else if value > i64::MAX {
        i64::MAX as int
    } else {
        value
    }
}

/// The positions between which the source may be moved for a seek to `position`.
pub open spec fn range_around(position: int) -> (int, int) {
    (saturated(position - SEEK_TOLERANCE_MICROS), saturated(position + SEEK_TOLERANCE_MICROS))
}

/// The positions, in microseconds, between which the source may be moved for a seek to
/// `position`.
pub fn seek_range(position: i64) -> (range: (i64, i64))
    ensures
        range.0 == (if position - SEEK_TOLERANCE_MICROS < i64::MIN {
            i64::MIN as int
        } else {
            position - SEEK_TOLERANCE_MICROS
        }),
        range.1 == (if position + SEEK_TOLERANCE_MICROS > i64::MAX {
            i64::MAX as int
        } else {
            position + SEEK_TOLERANCE_MICROS
        }),
        range.0 == saturated(position - 250_000),
        range.1 == saturated(position + 250_000),
        (range.0 as int, range.1 as int) == range_around(position as int),
{
    let low: i64 = if position < i64::MIN + SEEK_TOLERANCE_MICROS {
        i64::MIN
    } else {
        position - SEEK_TOLERANCE_MICROS
    };
    let high: i64 = if position > i64::MAX - SEEK_TOLERANCE_MICROS {
        i64::MAX
    } else {
        position + SEEK_TOLERANCE_MICROS
    };
    (low, high)
}

/// No packet is read between the moment a seek is noticed and the moment all decoders
/// are ready for it: the demuxer neither reads nor moves its position before.
pub proof fn law_reading_stops_for_a_seek<T>(demux: DemuxThread, seek: SeekModel<T>)
    requires
        seek.epoch <= u64::MAX,
        demux.phase is Reading ==> seek.epoch != demux.seen,
        demux.phase is AwaitingReady ==> !seek.is_ready(demux.seen as nat),
    ensures
        ({
            let (next, unchanged, action) = demux.polled(seek);
            &&& !(action is ReadPacket)
            &&& !(action is Seek)
            &&& unchanged == seek
            &&& demux.phase is Reading ==> next.phase is AwaitingReady && next.seen == seek.epoch
        }),
{
}

/// The position moves only to the target of the epoch that the demuxer waited for, and
/// that target is gone afterwards.
pub proof fn law_position_moves_once<T>(demux: DemuxThread, seek: SeekModel<T>)
    ensures
        ({
            let (next, after, action) = demux.polled(seek);
            action matches DemuxAction::Seek { target } ==> {
                &&& seek.is_ready(demux.seen as nat)
                &&& seek.epoch == demux.seen
                &&& seek.target == Some(target)
                &&& after.target is None
                &&& next.phase is Reading
            }
        }),
{
}

/// A request that comes in while the demuxer waits is not lost: once the barrier opens,
/// the demuxer leaves the newer target alone and turns to it at its next look.
pub proof fn law_newer_seek_is_taken_up<T>(demux: DemuxThread, seek: SeekModel<T>, newer: T)
    requires
        demux.phase is AwaitingReady,
        seek.epoch == demux.seen,
        seek.epoch < u64::MAX,
        seek.is_ready(demux.seen as nat),
    ensures
        ({
            let (let_through, after, action) = demux.polled(seek.requested(newer));
            let (waiting, unchanged, again) = let_through.polled(after);
            &&& action is Again
            &&& after == seek.requested(newer)
            &&& waiting.phase is AwaitingReady
            &&& waiting.seen == seek.epoch + 1
            &&& unchanged.target_of(waiting.seen as nat) == Some(newer)
        }),
{
}

/// A seek goes through all threads: each decoder answers it when it next looks, whether it
/// decodes, lingers or, for video, waits for the audio to end; the demuxer, once it has
/// noticed, waits for the answer of the video decoder, and for that of the audio decoder
/// where there is one, and then moves to the target.
pub proof fn law_seek_goes_through<T>(
    demux: DemuxThread,
    video: VideoThread,
    audio: AudioThread,
    seek: SeekModel<T>,
    target: T,
    audio_done: bool,
    now: u64,
    sight: AudioSight,
)
    requires
        seek.ready_max == 1 || seek.ready_max == 2,
        seek.epoch < u64::MAX,
        seek.ready_epoch <= seek.epoch,
        demux.phase is Reading,
        demux.seen == seek.epoch,
        video.phase is Decoding || video.phase is Lingering || video.phase is AwaitingAudio
            && !audio_done,
        seek.ready_max == 2 ==> audio.phase is Decoding || audio.phase is Lingering,
        sight.seek == Some((seek.epoch + 1) as u64),
    ensures
        ({
            let asked = seek.requested(target);
            let epoch = asked.epoch as u64;
            let seen = Observation { seek: Some((epoch, Some(target))), audio_done, now };
            let waiting = demux.polled(asked).0;
            let once = asked.reported(epoch as nat);
            let twice = once.reported(epoch as nat);
            let moves = DemuxAction::Seek { target };
            &&& asked.news(demux.seen as nat) == Some((epoch as nat, Some(target)))
            &&& video.polled(seen).1 == (if video.phase is Decoding {
                VideoAction::Reset { epoch, target: Some(target) }
            } else {
                VideoAction::Acknowledge { epoch }
            })
            &&& waiting.polled(asked).2 is AwaitReady
            &&& seek.ready_max == 1 ==> waiting.polled(once).2 == moves
            &&& seek.ready_max == 2 ==> {
                &&& audio.polled(sight).1 == (AudioAction::Reset { epoch })
                &&& waiting.polled(once).2 is AwaitReady
                &&& waiting.polled(twice).2 == moves
            }
        }),
{
}

/// However many decoders there are, the demuxer waits for the report of every one of them:
/// with fewer reports for the epoch of a seek it waits, with all of them it moves to the
/// target.
pub proof fn law_seek_waits_for_every_decoder<T>(
    demux: DemuxThread,
    seek: SeekModel<T>,
    target: T,
    reports: nat,
)
    requires
        1 <= seek.ready_max,
        reports <= seek.ready_max,
        seek.epoch < u64::MAX,
        seek.ready_epoch <= seek.epoch,
        demux.phase is Reading,
        demux.seen == seek.epoch,
    ensures
        ({
            let asked = seek.requested(target);
            let waiting = demux.polled(asked).0;
            let after = asked.reported_all(Seq::new(reports, |i: int| asked.epoch));
            if reports < seek.ready_max {
                waiting.polled(after).2 is AwaitReady
            } else {
                waiting.polled(after).2 == (DemuxAction::Seek { target })
            }
        }),
{
    let asked = seek.requested(target);
    if reports == 0 {
        assert(Seq::new(reports, |i: int| asked.epoch) =~= Seq::<nat>::empty());
    } else {
        lemma_same_reports(asked, reports);
    }
}

proof fn lemma_same_reports<T>(asked: SeekModel<T>, reports: nat)
    requires
        reports >= 1,
        asked.ready_epoch < asked.epoch,
    ensures
        asked.reported_all(Seq::new(reports, |i: int| asked.epoch)) == (SeekModel {
            ready_epoch: asked.epoch,
            ready_count: reports,
            ..asked
        }),
    decreases reports,
{
    let all = Seq::new(reports, |i: int| asked.epoch);
    let fewer = Seq::new((reports - 1) as nat, |i: int| asked.epoch);
    assert(all.drop_last() =~= fewer);
    if reports > 1 {
        lemma_same_reports(asked, (reports - 1) as nat);
    } else {
        assert(fewer =~= Seq::<nat>::empty());
        assert(asked.reported_all(fewer) == asked);
    }
}

/// A finished demuxer stays finished.
pub proof fn law_finished_is_final<T>(demux: DemuxThread, seek: SeekModel<T>, fate: PacketFate)
    requires
        demux.phase is Finished,
    ensures
        demux.polled(seek).0 == demux,
        demux.polled(seek).2 is Stop,
        demux.after_packet(fate).phase is Finished,
{
}

/// Packets go to the decoder of their stream, and those of other streams nowhere; where
/// one stream is both, it is the picture.
pub proof fn law_packets_find_their_decoder(
    index: usize,
    video_index: Option<usize>,
    audio_index: Option<usize>,
)
    ensures
        route_of(index, video_index, audio_index) is Video <==> video_index == Some(index),
        route_of(index, video_index, audio_index) is Audio <==> video_index != Some(index)
            && audio_index == Some(index),
        route_of(index, video_index, audio_index) is Skip <==> video_index != Some(index)
            && audio_index != Some(index),
{
}

/// A saturated position is in range, and is the value itself where that is.
pub proof fn law_positions_saturate(value: int)
    ensures
        i64::MIN <= saturated(value) <= i64::MAX,
        i64::MIN <= value <= i64::MAX ==> saturated(value) == value,
        value > i64::MAX ==> saturated(value) == i64::MAX,
        value < i64::MIN ==> saturated(value) == i64::MIN,
{
}

/// Reading goes on from packet to packet: one that was delivered or skipped leaves the
/// demuxer as it is, whatever epoch it has seen; it is finished exactly when a packet was
/// refused or there is none left, or it was finished before.
pub proof fn law_reading_goes_on(demux: DemuxThread, fate: PacketFate)
    ensures
        fate is Delivered || fate is Skipped ==> demux.after_packet(fate) == demux,
        demux.after_packet(fate).phase is Finished <==> demux.phase is Finished
            || fate is Refused || fate is EndOfSource,
        demux.after_packet(fate).seen == demux.seen,
{
}

/// The demuxer after a series of packets.
pub open spec fn after_packets(demux: DemuxThread, fates: Seq<PacketFate>) -> DemuxThread
    decreases fates.len(),
{
    if fates.len() == 0 {
        demux
    } else {
        after_packets(demux, fates.drop_last()).after_packet(fates.last())
    }
}

/// As long as no newer seek comes, a demuxer that reads goes on reading, through any
/// number of packets, unless one was refused or there is none left; so it does after a
/// seek as before.
pub proof fn law_reading_goes_on_without_end<T>(
    demux: DemuxThread,
    seek: SeekModel<T>,
    fates: Seq<PacketFate>,
)
    requires
        demux.phase is Reading,
        seek.epoch == demux.seen,
        forall|i: int|
            0 <= i < fates.len() ==> #[trigger] fates[i] is Delivered || fates[i] is Skipped,
    ensures
        after_packets(demux, fates) == demux,
        after_packets(demux, fates).polled(seek) == (demux, seek, DemuxAction::<T>::ReadPacket),
    decreases fates.len(),
{
    if fates.len() > 0 {
        let before = fates.drop_last();
        assert forall|i: int| 0 <= i < before.len() implies #[trigger] before[i] is Delivered
            || before[i] is Skipped by {
            assert(before[i] == fates[i]);
        }
        law_reading_goes_on_without_end(demux, seek, before);
        assert(fates[fates.len() - 1] == fates.last());
    }
}

/// A demuxer that reads goes on reading exactly if no newer seek has come, and else turns
/// to the current one; the seek state stays as it is.
pub proof fn law_reading_demuxer_looks<T>(demux: DemuxThread, seek: SeekModel<T>)
    requires
        demux.phase is Reading,
        seek.epoch <= u64::MAX,
    ensures
        ({
            let (next, after, action) = demux.polled(seek);
            &&& action is ReadPacket <==> seek.epoch == demux.seen
            &&& action is Again <==> seek.epoch != demux.seen
            &&& next.phase is AwaitingReady <==> seek.epoch != demux.seen
            &&& next.phase is Reading <==> seek.epoch == demux.seen
            &&& next.seen == seek.epoch
            &&& after == seek
        }),
{
}

/// A demuxer that waits goes on exactly when as many reports as there are decoders spoke
/// of its epoch or a newer one; it then moves to the target if that is still its own, and
/// reads on; the target is gone, and nothing else of the seek state has changed.
pub proof fn law_waiting_demuxer_looks<T>(demux: DemuxThread, seek: SeekModel<T>)
    requires
        demux.phase is AwaitingReady,
    ensures
        ({
            let (next, after, action) = demux.polled(seek);
            let open = seek.ready_epoch >= demux.seen && seek.ready_count >= seek.ready_max;
            let own = seek.epoch == demux.seen;
            &&& !open ==> next == demux && after == seek && action is AwaitReady
            &&& open ==> next.phase is Reading && next.seen == demux.seen
            &&& open && own && seek.target is Some ==> action == (DemuxAction::Seek {
                target: seek.target->0,
            })
            &&& open && !(own && seek.target is Some) ==> action is Again
            &&& open && own ==> after.target is None
            &&& open && !own ==> after == seek
            &&& after.epoch == seek.epoch
            &&& after.ready_epoch == seek.ready_epoch
            &&& after.ready_count == seek.ready_count
            &&& after.ready_max == seek.ready_max
        }),
{
}

/// After a seek the demuxer reads on from the target: once it was told to move there, its
/// next look, and the one after any packet that was delivered or skipped, says to read.
pub proof fn law_reading_resumes_after_seek<T>(
    demux: DemuxThread,
    seek: SeekModel<T>,
    fate: PacketFate,
)
    requires
        demux.polled(seek).2 is Seek,
        fate is Delivered || fate is Skipped,
    ensures
        ({
            let (next, after, _) = demux.polled(seek);
            &&& next.polled(after).2 is ReadPacket
            &&& next.after_packet(fate).polled(after).2 is ReadPacket
        }),
{
}

/// A new demuxer reads as long as no seek is asked for, and notices the first one.
pub proof fn law_new_demuxer_reads<T>(seek: SeekModel<T>)
    ensures
        seek.epoch == 0 ==> DemuxThread::started().polled(seek).2 is ReadPacket,
        0 < seek.epoch <= u64::MAX ==> DemuxThread::started().polled(seek).0.phase
            is AwaitingReady && DemuxThread::started().polled(seek).0.seen == seek.epoch,
{
}

/// A seek lands within a quarter of a second of its target, on either side as far as there
/// are positions.
pub proof fn law_seek_lands_close(position: i64)
    ensures
        ({
            let (low, high) = range_around(position as int);
            &&& i64::MIN <= low <= position <= high <= i64::MAX
            &&& position - low == 250_000 || low == i64::MIN && position - low < 250_000
            &&& high - position == 250_000 || high == i64::MAX && high - position < 250_000
        }),
{
}

} // verus!
