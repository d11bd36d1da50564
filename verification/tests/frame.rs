use auv::frame::{
    color_matrix, fill_frame, frame_display_size, next_frame_gen, planes_fit, stream_display_size,
    ColorRange, ColorSpace, Message, Picture, Ratio, YuvFrame,
};

fn value(ratio: Ratio) -> f32 {
    ratio.numerator as f32 / ratio.denominator as f32
}

fn factors(space: ColorSpace, height: i32) -> (f32, f32, f32, f32) {
    let m = color_matrix(space, ColorRange::Mpeg, height);
    (value(m.rv), value(m.gu), value(m.gv), value(m.bu))
}

const HD: (f32, f32, f32, f32) = (1.5748, -0.1873, -0.4681, 1.8556);
const UHD: (f32, f32, f32, f32) = (1.4746, -0.1645531, -0.5713531, 1.8814);
const SD: (f32, f32, f32, f32) = (1.402, -0.344136, -0.714136, 1.772);

#[test]
fn declared_color_space_decides() {
    for height in [480, 1080] {
        assert_eq!(factors(ColorSpace::Bt709, height), HD);
        assert_eq!(factors(ColorSpace::Bt2020Ncl, height), UHD);
        assert_eq!(factors(ColorSpace::Bt2020Cl, height), UHD);
        assert_eq!(factors(ColorSpace::Smpte170m, height), SD);
        assert_eq!(factors(ColorSpace::Bt470bg, height), SD);
    }
}

#[test]
fn height_decides_where_no_color_space_is_declared() {
    assert_eq!(factors(ColorSpace::Other, 719), SD);
    assert_eq!(factors(ColorSpace::Other, 720), HD);
}

#[test]
fn color_range_is_stretched() {
    for range in [ColorRange::Mpeg, ColorRange::Unspecified] {
        let m = color_matrix(ColorSpace::Bt709, range, 720);
        assert_eq!(value(m.y_off), 16.0 / 255.0);
        assert_eq!(value(m.y_gain), 255.0 / 219.0);
        assert_eq!(value(m.uv_center), 128.0 / 255.0);
        assert_eq!(value(m.uv_gain), 255.0 / 224.0);
        for (code, expected) in [(16.0f32, -0.5f32), (128.0, 0.0), (240.0, 0.5)] {
            let chroma = (code / 255.0 - value(m.uv_center)) * value(m.uv_gain);
            assert!((chroma - expected).abs() < 1e-6);
        }
    }
    let full = color_matrix(ColorSpace::Bt709, ColorRange::Jpeg, 720);
    assert_eq!(value(full.y_off), 0.0);
    assert_eq!(value(full.y_gain), 1.0);
    assert_eq!(value(full.uv_center), 0.5);
    assert_eq!(value(full.uv_gain), 1.0);
}

#[test]
fn frame_numbers_count_up_and_wrap() {
    let mut counter = 0;
    assert_eq!(next_frame_gen(&mut counter), 0);
    assert_eq!(next_frame_gen(&mut counter), 1);
    counter = u64::MAX;
    assert_eq!(next_frame_gen(&mut counter), u64::MAX);
    assert_eq!(next_frame_gen(&mut counter), 0);
}

#[test]
fn pixels_that_are_not_square_change_the_width() {
    assert_eq!(frame_display_size(720, 576, 16, 15), (768, 576));
    assert_eq!(stream_display_size(720, 480, 8, 9), (640, 480));
    assert_eq!(frame_display_size(720, 576, 1, 1), (720, 576));
    assert_eq!(frame_display_size(720, 576, 0, 1), (720, 576));
    assert_eq!(frame_display_size(720, 576, 4, 0), (720, 576));
    assert_eq!(frame_display_size(1, 2, 1, 100), (1, 2));
}

fn picture(width: u32, height: u32) -> Picture {
    Picture {
        width,
        height,
        y_stride: 4,
        uv_stride: 2,
        sar_num: 2,
        sar_den: 1,
        color_space: ColorSpace::Bt709,
        color_range: ColorRange::Jpeg,
    }
}

#[test]
fn frames_are_copies_of_pictures() {
    let y: Vec<u8> = (0..20).collect();
    let u: Vec<u8> = (100..110).collect();
    let v: Vec<u8> = (200..210).collect();
    let fresh: YuvFrame<f64> = fill_frame(None, picture(3, 4), &y, &u, &v, 1.5, 9);
    let again = fill_frame(
        Some(YuvFrame {
            y: vec![1; 100],
            u: Vec::new(),
            v: vec![7; 4],
            width: 1,
            height: 1,
            y_stride: 1,
            uv_stride: 1,
            pts_sec: -1.0,
            frame_gen: 0,
            color_space: ColorSpace::Other,
            color_range: ColorRange::Mpeg,
            disp_w: 1,
            disp_h: 1,
        }),
        picture(3, 4),
        &y,
        &u,
        &v,
        1.5,
        9,
    );
    for frame in [fresh, again] {
        assert_eq!(frame.y, y[..16].to_vec());
        assert_eq!(frame.u, u[..4].to_vec());
        assert_eq!(frame.v, v[..4].to_vec());
        assert_eq!((frame.width, frame.height), (3, 4));
        assert_eq!((frame.y_stride, frame.uv_stride), (4, 2));
        assert_eq!((frame.disp_w, frame.disp_h), (6, 4));
        assert_eq!(frame.pts_sec, 1.5);
        assert_eq!(frame.frame_gen, 9);
        assert!(frame.color_space == ColorSpace::Bt709);
        assert!(frame.color_range == ColorRange::Jpeg);
        assert!(matches!(Message::Frame(frame), Message::Frame(_)));
    }
}

#[test]
fn planes_have_to_hold_the_picture() {
    assert!(planes_fit(&picture(3, 4), 16, 4, 4));
    assert!(!planes_fit(&picture(3, 4), 15, 4, 4));
    assert!(!planes_fit(&picture(3, 4), 16, 3, 4));
    assert!(!planes_fit(&picture(3, 4), 16, 4, 3));
    assert!(planes_fit(&picture(3, 5), 20, 6, 6));
    assert!(!planes_fit(&picture(3, 5), 20, 4, 4));
}
