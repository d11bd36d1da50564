use auv::frame::{fill_frame, ColorRange, ColorSpace, Picture, YuvFrame};
use auv::screenshot::{
    encode_image, error_message, holds_all_pixels, render_rgb, save_screenshot, screenshot_name, ScreenshotError,
};

fn frame(width: i32, height: i32) -> YuvFrame<f64> {
    YuvFrame {
        y: (0..15).collect(),
        u: (100..106).collect(),
        v: (200..206).collect(),
        width,
        height,
        y_stride: 5,
        uv_stride: 3,
        pts_sec: 0.0,
        frame_gen: 0,
        color_space: ColorSpace::Bt709,
        color_range: ColorRange::Jpeg,
        disp_w: width,
        disp_h: height,
    }
}

fn decode(bytes: &[u8]) -> (u32, u32, Vec<u8>) {
    let decoder = png::Decoder::new(std::io::Cursor::new(bytes.to_vec()));
    let mut reader = decoder.read_info().unwrap();
    let mut pixels = vec![0; reader.output_buffer_size().unwrap()];
    let info = reader.next_frame(&mut pixels).unwrap();
    assert!(info.color_type == png::ColorType::Rgb);
    assert!(info.bit_depth == png::BitDepth::Eight);
    pixels.truncate(info.buffer_size());
    (info.width, info.height, pixels)
}

#[test]
fn pixels_stand_row_by_row() {
    let rgb = render_rgb(&frame(3, 3), |y, u, v| (y, u, v));
    let expected: Vec<u8> = vec![
        0, 100, 200, 1, 100, 200, 2, 101, 201, 5, 100, 200, 6, 100, 200, 7, 101, 201, 10, 103, 203,
        11, 103, 203, 12, 104, 204,
    ];
    assert_eq!(rgb, expected);
    assert!(render_rgb(&frame(0, 3), |y, u, v| (y, u, v)).is_empty());
}

#[test]
fn screenshot_reads_back() {
    let shot = match save_screenshot(&frame(3, 3), |y, u, v| (v, y, u), 1_700_000_000) {
        Ok(shot) => shot,
        Err(_) => panic!("no screenshot"),
    };
    assert_eq!(shot.name, "auv_1700000000.png");
    let (width, height, pixels) = decode(&shot.bytes);
    assert_eq!((width, height), (3, 3));
    assert_eq!(pixels, render_rgb(&frame(3, 3), |y, u, v| (v, y, u)));
}

#[test]
fn empty_frame_has_no_screenshot() {
    for (width, height) in [(0, 3), (3, 0), (0, 0)] {
        assert!(matches!(
            save_screenshot(&frame(width, height), |y, u, v| (y, u, v), 0),
            Err(ScreenshotError::EmptyFrame)
        ));
    }
}

#[test]
fn image_without_pixels_is_not_encoded() {
    assert!(matches!(encode_image(0, 5, &Vec::new()), Err(ScreenshotError::Encoding(_))));
    assert!(matches!(encode_image(5, 0, &Vec::new()), Err(ScreenshotError::Encoding(_))));
    let file = match encode_image(1, 2, &vec![1, 2, 3, 4, 5, 6]) {
        Ok(file) => file,
        Err(_) => panic!("no file"),
    };
    assert_eq!(decode(&file), (1, 2, vec![1, 2, 3, 4, 5, 6]));
}

#[test]
fn missing_pixels_are_noticed() {
    assert!(holds_all_pixels(&frame(5, 3)));
    assert!(!holds_all_pixels(&frame(6, 3)));
    assert!(!holds_all_pixels(&frame(5, 4)));
    assert!(!holds_all_pixels(&frame(-1, 3)));
    assert!(holds_all_pixels(&frame(0, 300)));
    let mut empty = frame(0, -3);
    empty.y_stride = -1;
    assert!(holds_all_pixels(&empty));
    let mut short = frame(5, 3);
    short.v.pop();
    assert!(!holds_all_pixels(&short));
}

#[test]
fn names_carry_the_time() {
    assert_eq!(screenshot_name(0), "auv_0.png");
    assert_ne!(screenshot_name(1), screenshot_name(10));
}

#[test]
fn frame_of_odd_height_gives_a_whole_screenshot() {
    let picture = Picture {
        width: 3,
        height: 3,
        y_stride: 4,
        uv_stride: 2,
        sar_num: 0,
        sar_den: 1,
        color_space: ColorSpace::Bt709,
        color_range: ColorRange::Jpeg,
    };
    let y: Vec<u8> = (0..12).collect();
    let u: Vec<u8> = (20..24).collect();
    let v: Vec<u8> = (30..34).collect();
    let frame = fill_frame(None, picture, &y, &u, &v, 0.0, 0);
    assert!(holds_all_pixels(&frame));
    match save_screenshot(&frame, |y, u, v| (y, u, v), 7) {
        Ok(shot) => {
            let (width, height, pixels) = decode(&shot.bytes);
            assert_eq!((width, height), (3, 3));
            assert_eq!(pixels[18..].to_vec(), vec![8, 22, 32, 9, 22, 32, 10, 23, 33]);
        }
        Err(_) => panic!("no screenshot"),
    }
}

#[test]
fn messages_tell_empty_frames() {
    assert_eq!(
        error_message(&ScreenshotError::EmptyFrame),
        Some("screenshot: empty frame".to_string())
    );
    match encode_image(0, 0, &Vec::new()) {
        Err(e) => assert_eq!(error_message(&e), None),
        Ok(_) => panic!("an image without pixels"),
    }
}
