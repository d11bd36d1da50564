use auv::audio::{
    after_push, await_clear, gain_percent, output_layout, resample_capacity, split_samples,
    AudioAction, AudioPhase, AudioSight, AudioThread, Flushed, OutputLayout, PauseLook, PushStep,
};
use auv::course::{FrameCourse, FrameEvent, FrameStep, Stage};
use auv::demux::{route, seek_range, DemuxAction, DemuxThread, PacketFate, Route};
use auv::seek::SeekCtl;
use auv::video::{
    plan_conversion, usable_time_base, ConverterKey, ConverterPlan, Observation, Received,
    VideoAction, VideoPhase, VideoThread,
};

const SECOND: u64 = 1_000_000_000;

fn seen(seek: Option<(u64, Option<f64>)>, audio_done: bool, now: u64) -> Observation<f64> {
    Observation { seek, audio_done, now }
}

fn sight(seek: Option<u64>) -> AudioSight {
    AudioSight { seek, paused: false, audio_dead: false, played_out: false }
}

#[test]
fn packets_go_to_their_decoders() {
    assert!(matches!(route(0, Some(0), Some(1)), Route::Video));
    assert!(matches!(route(1, Some(0), Some(1)), Route::Audio));
    assert!(matches!(route(2, Some(0), Some(1)), Route::Skip));
    assert!(matches!(route(0, None, None), Route::Skip));
    assert!(matches!(route(3, Some(3), Some(3)), Route::Video));
}

#[test]
fn seek_range_saturates() {
    assert_eq!(seek_range(1_000_000), (750_000, 1_250_000));
    assert_eq!(seek_range(0), (-250_000, 250_000));
    assert_eq!(seek_range(i64::MAX), (i64::MAX - 250_000, i64::MAX));
    assert_eq!(seek_range(i64::MIN), (i64::MIN, i64::MIN + 250_000));
}

#[test]
fn seek_goes_through_all_threads() {
    let mut ctl: SeekCtl<f64> = SeekCtl::new(2);
    let mut demux = DemuxThread::new();
    let mut video = VideoThread::new(true, 0);
    let mut audio = AudioThread::new();
    assert!(matches!(demux.poll(&mut ctl), DemuxAction::ReadPacket));
    ctl.request(42.0);
    assert!(matches!(demux.poll(&mut ctl), DemuxAction::Again));
    assert!(matches!(demux.poll(&mut ctl), DemuxAction::AwaitReady));
    match video.poll(seen(ctl.snapshot_new(video.local_epoch), false, 0)) {
        VideoAction::Reset { epoch, target } => {
            assert_eq!(target, Some(42.0));
            ctl.report_ready(epoch);
        }
        _ => panic!("the video thread does not answer"),
    }
    assert!(matches!(demux.poll(&mut ctl), DemuxAction::AwaitReady));
    match audio.poll(sight(ctl.snapshot_new(audio.local_epoch).map(|(e, _)| e))) {
        AudioAction::Reset { epoch } => ctl.report_ready(epoch),
        _ => panic!("the audio thread does not answer"),
    }
    match demux.poll(&mut ctl) {
        DemuxAction::Seek { target } => assert_eq!(target, 42.0),
        _ => panic!("the demuxer does not move"),
    }
    assert!(matches!(demux.poll(&mut ctl), DemuxAction::ReadPacket));
}

#[test]
fn seek_without_audio_waits_for_the_video_thread_alone() {
    let mut ctl: SeekCtl<f64> = SeekCtl::new(1);
    let mut demux = DemuxThread::new();
    let mut video = VideoThread::new(true, 0);
    ctl.request(7.0);
    assert!(matches!(demux.poll(&mut ctl), DemuxAction::Again));
    assert!(matches!(demux.poll(&mut ctl), DemuxAction::AwaitReady));
    match video.poll(seen(ctl.snapshot_new(video.local_epoch), false, 0)) {
        VideoAction::Reset { epoch, .. } => ctl.report_ready(epoch),
        _ => panic!("the video thread does not answer"),
    }
    assert!(matches!(demux.poll(&mut ctl), DemuxAction::Seek { target } if target == 7.0));
}

#[test]
fn newer_seek_is_taken_up_by_the_demuxer() {
    let mut ctl: SeekCtl<f64> = SeekCtl::new(1);
    let mut demux = DemuxThread::new();
    ctl.request(1.0);
    assert!(matches!(demux.poll(&mut ctl), DemuxAction::Again));
    ctl.request(2.0);
    ctl.report_ready(2);
    assert!(matches!(demux.poll(&mut ctl), DemuxAction::Again));
    assert!(matches!(demux.poll(&mut ctl), DemuxAction::Again));
    assert!(matches!(demux.poll(&mut ctl), DemuxAction::Seek { target } if target == 2.0));
}

#[test]
fn demuxer_stops_at_the_end() {
    for (fate, stops) in [
        (PacketFate::Delivered, false),
        (PacketFate::Skipped, false),
        (PacketFate::Refused, true),
        (PacketFate::EndOfSource, true),
    ] {
        let mut ctl: SeekCtl<f64> = SeekCtl::new(1);
        let mut demux = DemuxThread::new();
        demux.packet_done(fate);
        assert_eq!(matches!(demux.poll(&mut ctl), DemuxAction::Stop), stops);
    }
}

#[test]
fn video_thread_runs_to_its_end() {
    let mut video = VideoThread::new(true, 0);
    assert!(matches!(video.poll(seen(None, false, 0)), VideoAction::Receive { timeout_ms: 10 }));
    assert!(matches!(video.received::<f64>(Received::Timeout), VideoAction::Again));
    assert!(matches!(video.received::<f64>(Received::Packet), VideoAction::Decode));
    assert!(matches!(video.received::<f64>(Received::Disconnected), VideoAction::DecodeRest));
    video.emptied(SECOND);
    assert!(matches!(video.poll(seen(None, false, 2 * SECOND)), VideoAction::AwaitAudio { timeout_ms: 50 }));
    assert!(matches!(
        video.poll(seen(None, true, 3 * SECOND)),
        VideoAction::AnnounceEnd { timed_out: false }
    ));
    assert!(matches!(video.poll(seen(None, true, 0)), VideoAction::Receive { timeout_ms: 100 }));
    assert!(matches!(video.received::<f64>(Received::Packet), VideoAction::Again));
    assert!(matches!(
        video.poll(seen(Some((1, Some(2.0))), true, 0)),
        VideoAction::Acknowledge { epoch: 1 }
    ));
    assert!(matches!(video.received::<f64>(Received::Disconnected), VideoAction::Stop));
    assert!(matches!(video.poll(seen(None, true, 0)), VideoAction::Stop));
}

#[test]
fn video_gives_up_on_the_audio_after_five_seconds() {
    let mut video = VideoThread::new(false, SECOND);
    assert!(matches!(video.phase, VideoPhase::AwaitingAudio { deadline } if deadline == 6 * SECOND));
    assert!(matches!(
        video.poll(seen(Some((1, None)), false, 5 * SECOND)),
        VideoAction::Acknowledge { epoch: 1 }
    ));
    assert!(matches!(video.poll(seen(None, false, 10 * SECOND - 1)), VideoAction::AwaitAudio { .. }));
    assert!(matches!(
        video.poll(seen(None, false, 10 * SECOND)),
        VideoAction::AnnounceEnd { timed_out: true }
    ));
}

fn timed(course: &mut FrameCourse, video: &mut VideoThread, pts: Option<i64>, guess: Option<i64>) -> FrameStep {
    course.process_frame(video, FrameEvent::Looked { paused: false, epoch: video.local_epoch });
    course.process_frame(video, FrameEvent::Stamped { pts, best_effort: guess })
}

#[test]
fn frame_on_time_is_shown() {
    let mut video = VideoThread::new(true, 0);
    let mut course = FrameCourse::new();
    let look = FrameEvent::Looked { paused: false, epoch: 0 };
    assert!(course.process_frame(&mut video, look) == FrameStep::GiveStamps { count_pause: true });
    assert!(course.process_frame(&mut video, look) == FrameStep::Ignore);
    let stamps = FrameEvent::Stamped { pts: Some(40), best_effort: Some(41) };
    assert!(
        course.process_frame(&mut video, stamps)
            == FrameStep::CompareWithClock { pts: 40, realign: false }
    );
    let on_time = FrameEvent::Compared { lead_micros: 0 };
    assert!(course.process_frame(&mut video, on_time) == FrameStep::Convert);
    assert!(course.process_frame(&mut video, FrameEvent::Converted { ok: true }) == FrameStep::Show);
    assert!(course.stage == Stage::Shown);
}

#[test]
fn late_and_broken_frames_are_dropped() {
    let mut video = VideoThread::new(true, 0);
    let mut late = FrameCourse::new();
    timed(&mut late, &mut video, Some(1), None);
    let event = FrameEvent::Compared { lead_micros: -50_001 };
    assert!(late.process_frame(&mut video, event) == FrameStep::Drop);
    let mut broken = FrameCourse::new();
    timed(&mut broken, &mut video, Some(2), None);
    broken.process_frame(&mut video, FrameEvent::Compared { lead_micros: 0 });
    assert!(broken.process_frame(&mut video, FrameEvent::Converted { ok: false }) == FrameStep::Drop);
    assert!(broken.stage == Stage::Dropped);
}

#[test]
fn lead_over_the_clock_decides() {
    for (lead, expected) in [
        (i64::MIN, FrameStep::Drop),
        (-50_001, FrameStep::Drop),
        (-50_000, FrameStep::Convert),
        (0, FrameStep::Convert),
        (5_000, FrameStep::Convert),
        (5_001, FrameStep::LookAtClock),
        (i64::MAX, FrameStep::LookAtClock),
    ] {
        let mut video = VideoThread::new(true, 0);
        let mut course = FrameCourse::new();
        timed(&mut course, &mut video, Some(1), None);
        let compared = FrameEvent::Compared { lead_micros: lead };
        assert!(course.process_frame(&mut video, compared) == expected);
    }
}

#[test]
fn early_frame_naps_until_its_time_or_a_seek() {
    let mut video = VideoThread::new(true, 0);
    for (epoch, last) in [(0, FrameStep::Convert), (1, FrameStep::Drop)] {
        let mut course = FrameCourse::new();
        timed(&mut course, &mut video, Some(9), None);
        let early = FrameEvent::Compared { lead_micros: 5_001 };
        assert!(course.process_frame(&mut video, early) == FrameStep::LookAtClock);
        let not_yet = FrameEvent::Waited { epoch: 0, reached: false };
        assert!(course.process_frame(&mut video, not_yet) == FrameStep::Nap);
        let then = FrameEvent::Waited { epoch, reached: true };
        assert!(course.process_frame(&mut video, then) == last);
    }
}

#[test]
fn first_frame_after_a_seek_passes_a_pause() {
    let mut video = VideoThread::new(true, 0);
    video.poll(seen(Some((1, Some(5.0))), false, 0));
    let paused = FrameEvent::Looked { paused: true, epoch: 1 };
    let mut first = FrameCourse::new();
    assert!(first.process_frame(&mut video, paused) == FrameStep::GiveStamps { count_pause: false });
    let none = FrameEvent::Stamped { pts: None, best_effort: None };
    assert!(
        first.process_frame(&mut video, none) == FrameStep::CompareWithClock { pts: 0, realign: true }
    );
    let far_off = FrameEvent::Compared { lead_micros: -3_000_000 };
    assert!(first.process_frame(&mut video, far_off) == FrameStep::Convert);
    assert!(first.process_frame(&mut video, FrameEvent::Converted { ok: true }) == FrameStep::Show);
    let mut second = FrameCourse::new();
    assert!(second.process_frame(&mut video, paused) == FrameStep::AwaitResume { timeout_ms: 50 });
    let newer = FrameEvent::Looked { paused: true, epoch: 2 };
    assert!(second.process_frame(&mut video, newer) == FrameStep::Drop);
}

#[test]
fn missing_time_stamps_count_up() {
    let mut video = VideoThread::new(true, 0);
    let mut chosen = Vec::new();
    for (pts, guess) in [(None, None), (None, None), (None, Some(10)), (None, None), (Some(3), Some(9)), (None, None)] {
        match timed(&mut FrameCourse::new(), &mut video, pts, guess) {
            FrameStep::CompareWithClock { pts, .. } => chosen.push(pts),
            _ => panic!("the frame has no time stamp"),
        }
    }
    assert_eq!(chosen, vec![0, 1, 10, 11, 3, 4]);
}

#[test]
fn time_base_without_denominator_is_not_used() {
    assert_eq!(usable_time_base(Some((1, 25))), Some((1, 25)));
    assert_eq!(usable_time_base(Some((1, 0))), None);
    assert_eq!(usable_time_base(Some((1, -5))), None);
    assert_eq!(usable_time_base(None), None);
}

#[test]
fn converters_are_kept_while_they_fit() {
    let key = ConverterKey { format: 3, width: 10, height: 20 };
    assert!(matches!(plan_conversion(None, true, 0, 10, 20), ConverterPlan::Direct));
    assert!(matches!(plan_conversion(None, false, 3, 10, 20), ConverterPlan::Rebuild { .. }));
    assert!(matches!(plan_conversion(Some(key), false, 3, 10, 20), ConverterPlan::Reuse));
    for (format, width, height) in [(4, 10, 20), (3, 11, 20), (3, 10, 21)] {
        assert!(matches!(
            plan_conversion(Some(key), false, format, width, height),
            ConverterPlan::Rebuild { key } if key.format == format && key.width == width && key.height == height
        ));
    }
}

#[test]
fn audio_thread_runs_to_its_end() {
    let mut audio = AudioThread::new();
    assert!(matches!(audio.poll(sight(None)), AudioAction::Receive { timeout_ms: 10 }));
    assert!(matches!(audio.received(Received::Packet), AudioAction::Decode));
    audio.frames_handled(true);
    assert!(matches!(audio.received(Received::Disconnected), AudioAction::DecodeRest));
    audio.frames_handled(true);
    assert!(matches!(audio.poll(sight(None)), AudioAction::Flush { capacity: 8192, fresh: true }));
    audio.flushed(Flushed::Yielded { samples: 5, taken: true });
    assert!(matches!(audio.poll(sight(None)), AudioAction::Flush { capacity: 8192, fresh: false }));
    audio.flushed(Flushed::Yielded { samples: 0, taken: true });
    assert!(matches!(audio.poll(sight(None)), AudioAction::Sleep { millis: 5 }));
    let played = AudioSight { played_out: true, ..sight(None) };
    assert!(matches!(audio.poll(played), AudioAction::AnnounceDone));
    assert!(matches!(audio.poll(played), AudioAction::Receive { timeout_ms: 100 }));
    assert!(matches!(audio.poll(sight(Some(4))), AudioAction::Reset { epoch: 4 }));
    assert!(matches!(audio.received(Received::Disconnected), AudioAction::Stop));
    assert!(matches!(audio.poll(played), AudioAction::Stop));
}

#[test]
fn failed_flush_ends_flushing() {
    for result in [Flushed::Failed, Flushed::Yielded { samples: 9, taken: false }] {
        let mut audio = AudioThread::new();
        audio.received(Received::Disconnected);
        audio.frames_handled(true);
        audio.flushed(result);
        assert!(matches!(audio.phase, AudioPhase::PlayingOut));
    }
}

#[test]
fn dead_device_ends_the_audio_but_not_the_thread() {
    let mut audio = AudioThread::new();
    let dead = AudioSight { audio_dead: true, ..sight(None) };
    assert!(matches!(audio.poll(dead), AudioAction::Again));
    assert!(matches!(audio.poll(dead), AudioAction::AnnounceDone));
    assert!(matches!(audio.poll(dead), AudioAction::Receive { .. }));
    assert!(matches!(audio.poll(AudioSight { seek: Some(1), ..dead }), AudioAction::Reset { epoch: 1 }));
    let mut pushing = AudioThread::new();
    pushing.received(Received::Packet);
    pushing.frames_handled(false);
    assert!(matches!(pushing.phase, AudioPhase::PlayingOut));
}

#[test]
fn paused_audio_thread_still_answers_seeks() {
    let mut audio = AudioThread::new();
    let paused = AudioSight { paused: true, ..sight(None) };
    assert!(matches!(audio.poll(paused), AudioAction::AwaitResume { timeout_ms: 50 }));
    assert!(matches!(audio.poll(AudioSight { seek: Some(1), ..paused }), AudioAction::Reset { epoch: 1 }));
    assert!(matches!(audio.pause_look(true, 1), PauseLook::Wait { timeout_ms: 50 }));
    assert!(matches!(audio.pause_look(true, 2), PauseLook::Interrupted));
    assert!(matches!(audio.pause_look(false, 2), PauseLook::Resumed));
}

#[test]
fn output_frame_grows_only() {
    let mut audio = AudioThread::new();
    assert!(audio.reserve(100));
    assert!(!audio.reserve(99));
    assert!(!audio.reserve(100));
    assert!(audio.reserve(101));
    assert_eq!(audio.capacity, 101);
}

#[test]
fn full_ring_is_waited_for() {
    assert!(matches!(after_push(3, 5, 5, true, true), PushStep::Complete));
    assert!(matches!(after_push(0, 3, 5, true, true), PushStep::Continue));
    assert!(matches!(after_push(3, 3, 5, true, true), PushStep::DeviceDead));
    assert!(matches!(after_push(3, 3, 5, false, true), PushStep::AwaitResume));
    assert!(matches!(after_push(3, 3, 5, false, false), PushStep::Sleep { millis: 1 }));
}

#[test]
fn device_gets_a_tenth_of_a_second_to_empty_the_ring() {
    assert!(await_clear(0, true, false));
    assert!(await_clear(19, true, false));
    assert!(!await_clear(20, true, false));
    assert!(!await_clear(0, false, false));
    assert!(!await_clear(0, true, true));
}

#[test]
fn resampled_frames_have_room() {
    for (samples, device, source) in [(1024u32, 48_000u32, 44_100u32), (1024, 44_100, 48_000), (1152, 48_000, 48_000), (0, 48_000, 44_100), (1, 8_000, 192_000)] {
        let expected = (samples as f64 * device as f64 / source as f64).ceil() as u64 + 1;
        assert_eq!(resample_capacity(samples, device, source), expected);
    }
}

#[test]
fn layouts_follow_the_device() {
    for (channels, expected) in [(1, 1), (2, 2), (4, 4), (6, 6), (8, 8), (0, 2), (3, 2), (7, 2), (16, 2)] {
        assert_eq!(output_layout(channels).channels(), expected);
    }
    assert!(matches!(output_layout(6), OutputLayout::FivePointOne));
}

#[test]
fn packed_frames_are_split_into_samples() {
    let values = [0.5f32, -0.25, 1.0, 0.0];
    let mut bytes: Vec<u8> = Vec::new();
    for v in values {
        bytes.extend_from_slice(&v.to_ne_bytes());
    }
    bytes.push(99);
    let words = split_samples(&bytes, 2, 2);
    let back: Vec<f32> = words.iter().map(|w| f32::from_ne_bytes(*w)).collect();
    assert_eq!(back, values.to_vec());
    assert_eq!(split_samples(&bytes, 1, 2).len(), 2);
}

#[test]
fn gain_follows_volume_and_mute() {
    assert_eq!(gain_percent(100, 0), 100);
    assert_eq!(gain_percent(100, 1), 0);
    assert_eq!(gain_percent(250, 0), 200);
    assert_eq!(gain_percent(0, 0), 0);
}
