use auv::frame::{ColorRange, ColorSpace, YuvFrame};
use auv::render::{draw_frame, plane_size, upload_plane, RenderState, UploadPlan, UploadStep};

fn frame(frame_gen: u64, width: i32, height: i32) -> YuvFrame<f64> {
    YuvFrame {
        y: Vec::new(),
        u: Vec::new(),
        v: Vec::new(),
        width,
        height,
        y_stride: 0,
        uv_stride: 0,
        pts_sec: 0.0,
        frame_gen,
        color_space: ColorSpace::Other,
        color_range: ColorRange::Unspecified,
        disp_w: width,
        disp_h: height,
    }
}

fn state() -> RenderState {
    RenderState::new([[1, 2, 3], [4, 5, 6], [7, 8, 9]], 10, 11, 12)
}

#[test]
fn first_frame_is_uploaded_into_new_textures() {
    let mut state = state();
    let plan = draw_frame(&mut state, &frame(0, 640, 480));
    assert!(plan.upload == Some(UploadPlan { allocate: true, turn: 0 }));
    assert_eq!(plan.colors.rv.numerator, 1402);
    assert_eq!(state.tex_size, (640, 480));
    assert_eq!(state.last_gen, 0);
}

#[test]
fn redraw_uploads_nothing() {
    let mut state = state();
    draw_frame(&mut state, &frame(3, 640, 480));
    assert!(draw_frame(&mut state, &frame(3, 640, 480)).upload.is_none());
    assert_eq!(state.pbo_cur, 1);
}

#[test]
fn buffers_take_turns() {
    let mut state = state();
    for (frame_gen, turn) in [(0, 0), (1, 1), (2, 2), (3, 0), (4, 1)] {
        let plan = draw_frame(&mut state, &frame(frame_gen, 8, 8));
        assert!(plan.upload == Some(UploadPlan { allocate: frame_gen == 0, turn }));
    }
    let plan = draw_frame(&mut state, &frame(5, 8, 16));
    assert!(plan.upload == Some(UploadPlan { allocate: true, turn: 2 }));
}

#[test]
fn chroma_planes_are_half_as_large() {
    assert_eq!(plane_size(641, 481, 0), (641, 481));
    assert_eq!(plane_size(641, 481, 1), (320, 240));
    assert_eq!(plane_size(641, 481, 2), (320, 240));
    assert_eq!(plane_size(-5, i32::MIN, 1), (-5 / 2, i32::MIN / 2));
    assert_eq!(plane_size(-5, i32::MIN, 0), (-5, i32::MIN));
}

#[test]
fn buffers_grow_only() {
    let mut state = state();
    assert!(state.reserve(1, 2, 100));
    assert!(!state.reserve(1, 2, 100));
    assert!(!state.reserve(1, 2, 50));
    assert!(state.reserve(1, 2, 101));
    assert_eq!(state.pbo_cap, [0, 0, 0, 0, 0, 101, 0, 0, 0]);
}

#[test]
fn every_buffer_is_allocated_at_its_first_use() {
    let mut state = state();
    for plane in 0..3 {
        for turn in 0..3 {
            assert!(state.reserve(plane, turn, 64));
            assert!(!state.reserve(plane, turn, 64));
        }
    }
}

#[test]
fn replaced_fences_are_handed_out() {
    let mut state = state();
    assert_eq!(state.fence(2, 1), 0);
    assert_eq!(state.record_fence(2, 1, 77), None);
    assert_eq!(state.fence(2, 1), 77);
    assert_eq!(state.record_fence(2, 1, 0), None);
    assert_eq!(state.fence(2, 1), 77);
    assert_eq!(state.record_fence(2, 1, 78), Some(77));
    assert_eq!(state.fences, [0, 0, 0, 0, 0, 0, 0, 78, 0]);
}

#[test]
fn busy_buffer_is_waited_for_and_skipped() {
    assert!(upload_plane(0, 0, false) == UploadStep::Write);
    assert!(upload_plane(5, 0, false) == UploadStep::Wait { nanos: 0 });
    assert!(upload_plane(5, 1, false) == UploadStep::Write);
    for waits in 1..9 {
        assert!(upload_plane(5, waits, true) == UploadStep::Wait { nanos: 16_000_000 });
    }
    assert!(upload_plane(5, 9, false) == UploadStep::Write);
    assert!(upload_plane(5, 9, true) == UploadStep::Skip);
}
