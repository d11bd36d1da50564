use auv::source::{
    cannot_open_message, extract_streams, follow_audio, hyprctl_ok, hyprctl_toggle_fullscreen, known_duration,
    open_input, plan_threads, resolver_missing_message, stream_error_message, OpenStep, Playlist,
    SourceOutcome, StreamError, ThreadPlan, VideoShape,
};

#[test]
fn links_that_do_not_open_are_resolved() {
    for link in ["http://a.b/c", "https://www.bilibili.com/video/x"] {
        match open_input(link, false) {
            OpenStep::Resolve(words) => assert_eq!(
                words,
                vec!["-q", "--no-playlist", "--merge-output-format", "mkv", "-o", "-", link]
            ),
            _ => panic!("the link is not resolved"),
        }
        assert!(matches!(open_input(link, true), OpenStep::Play));
    }
}

#[test]
fn files_that_do_not_open_fail() {
    for file in ["video.mp4", "", "ftp://x", "HTTP://x", "http:/x"] {
        assert!(matches!(open_input(file, false), OpenStep::Fail));
        assert!(matches!(open_input(file, true), OpenStep::Play));
    }
}

#[test]
fn messages_name_what_failed() {
    assert_eq!(
        resolver_missing_message("404", "not found"),
        "direct open failed (404); spawning yt-dlp failed: not found (install yt-dlp to play page links)"
    );
    assert_eq!(
        cannot_open_message("http://x", "404", "broken pipe"),
        "Cannot open http://x (direct: 404; yt-dlp: broken pipe)"
    );
    assert_eq!(stream_error_message(StreamError::NoVideo), "No video stream found");
}

#[test]
fn source_without_pictures_is_not_played() {
    assert!(extract_streams(None) == Err(StreamError::NoVideo));
    let shape = VideoShape { width: 1440, height: 1080, sar_num: 4, sar_den: 3 };
    assert!(extract_streams(Some(shape)) == Ok((1920, 1080)));
}

#[test]
fn audio_thread_needs_output_stream_and_parameters() {
    for (output, stream, parameters) in [
        (true, true, true),
        (true, true, false),
        (true, false, false),
        (false, true, true),
        (false, false, false),
    ] {
        let audio_thread = output && stream && parameters;
        let plan = plan_threads(output, stream, parameters);
        assert!(
            plan == ThreadPlan {
                audio_thread,
                ready_max: 1 + usize::from(audio_thread),
                audio_done: !output || !stream,
            }
        );
    }
}

#[test]
fn clock_follows_the_audio_only_where_it_is_heard() {
    assert!(follow_audio(true, true, true));
    assert!(!follow_audio(false, true, true));
    assert!(!follow_audio(true, false, true));
    assert!(!follow_audio(true, true, false));
}

#[test]
fn unknown_durations_are_none() {
    assert_eq!(known_duration(1), Some(1));
    assert_eq!(known_duration(0), None);
    assert_eq!(known_duration(i64::MIN), None);
}

#[test]
fn sources_play_in_order() {
    let mut list = Playlist::new();
    assert_eq!(list.next(3), Some(0));
    list.finished(SourceOutcome::Skipped);
    assert!(!list.played_any);
    assert_eq!(list.next(3), Some(1));
    list.finished(SourceOutcome::Played);
    assert!(list.played_any);
    assert_eq!(list.next(3), Some(2));
    list.finished(SourceOutcome::Skipped);
    assert_eq!(list.next(3), None);
    assert!(list.played_any);
}

#[test]
fn closing_the_window_ends_the_list() {
    let mut list = Playlist::new();
    list.finished(SourceOutcome::Closed);
    assert_eq!(list.next(3), None);
    assert!(list.played_any);
}

#[test]
fn fullscreen_falls_back_to_the_older_command() {
    assert_eq!(
        hyprctl_toggle_fullscreen(None, false),
        Some(vec!["dispatch".to_string(), "hl.dsp.window.fullscreen(0)".to_string()])
    );
    assert_eq!(
        hyprctl_toggle_fullscreen(Some(false), false),
        Some(vec!["dispatch".to_string(), "fullscreen".to_string(), "0".to_string()])
    );
    assert_eq!(hyprctl_toggle_fullscreen(Some(true), false), None);
    for lua_ok in [None, Some(false), Some(true)] {
        assert_eq!(hyprctl_toggle_fullscreen(lua_ok, true), None);
    }
}

#[test]
fn commands_answer_ok_without_error() {
    assert!(hyprctl_ok(&b"ok".to_vec(), &Vec::new()));
    assert!(hyprctl_ok(&b"o".to_vec(), &b"k\n".to_vec()));
    assert!(!hyprctl_ok(&b"ok".to_vec(), &b"error: no window".to_vec()));
    assert!(!hyprctl_ok(&Vec::new(), &Vec::new()));
    assert!(!hyprctl_ok(&b"Invalid dispatcher".to_vec(), &Vec::new()));
    for (out, err) in [(&b"\xffok"[..], &b""[..]), (b"o\xffk", b""), (b"ok er", b"ror"), (b"\xe2\x82", b"\xacok")] {
        let text = format!("{}{}", String::from_utf8_lossy(out), String::from_utf8_lossy(err));
        assert_eq!(
            hyprctl_ok(&out.to_vec(), &err.to_vec()),
            text.contains("ok") && !text.contains("error")
        );
    }
}
