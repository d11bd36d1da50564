use auv::window::{
    calc_display_size, format_time, largest_window, window_position, window_title, Fit, TitleClock,
};

#[test]
fn margins_are_left_free() {
    assert_eq!(largest_window(1920, 1080), (1880, 980));
    assert_eq!(largest_window(40, 100), (0, 0));
}

#[test]
fn pictures_fit_into_the_window() {
    assert!(matches!(calc_display_size(640, 480, 1880, 980), Fit::Native));
    assert!(matches!(calc_display_size(1880, 980, 1880, 980), Fit::Native));
    assert!(matches!(calc_display_size(3840, 1600, 1880, 980), Fit::FullWidth));
    assert!(matches!(calc_display_size(1920, 1080, 1880, 980), Fit::FullHeight));
    assert!(matches!(calc_display_size(500, 3000, 1880, 980), Fit::FullHeight));
    assert!(matches!(calc_display_size(1881, 1, 1880, 980), Fit::FullWidth));
    assert!(matches!(calc_display_size(3760, 1960, 1880, 980), Fit::FullHeight));
}

#[test]
fn fit_agrees_with_the_ratios() {
    for (w, h) in [(3840u32, 2160u32), (4096, 1716), (1, 5000), (5000, 1), (1921, 981), (2000, 1043)] {
        let wider = w as f64 / h as f64 > 1880.0 / 980.0;
        match calc_display_size(w, h, 1880, 980) {
            Fit::Native => panic!("the picture is too large"),
            Fit::FullWidth => assert!(wider),
            Fit::FullHeight => assert!(!wider),
        }
    }
}

#[test]
fn window_stands_in_the_middle() {
    assert_eq!(window_position(1920, 1080, 640, 480), (640, 280));
    assert_eq!(window_position(1920, 1080, 1921, 1050), (0, 0));
    assert_eq!(window_position(101, 141, 100, 100), (0, 0));
    assert_eq!(window_position(103, 143, 100, 100), (1, 1));
}

#[test]
fn times_are_minutes_and_seconds() {
    assert_eq!(format_time(0), "00:00");
    assert_eq!(format_time(61), "01:01");
    assert_eq!(format_time(599), "09:59");
    assert_eq!(format_time(6_000), "100:00");
}

#[test]
fn title_shows_the_source_and_the_position() {
    let title = window_title("a.mkv");
    assert_eq!(title, "AUV (A/V Sync Engine) - a.mkv");
    let mut clock = TitleClock::new();
    assert_eq!(
        clock.update(&title, 0, Some(125)),
        Some("AUV (A/V Sync Engine) - a.mkv [00:00/02:05]".to_string())
    );
    assert_eq!(clock.update(&title, 0, Some(125)), None);
    assert_eq!(
        clock.update(&title, 1, None),
        Some("AUV (A/V Sync Engine) - a.mkv [00:01]".to_string())
    );
}
