//! What the renderer uploads, where to, and when.
//!
//! Each of the three planes of a frame has three buffers that are filled in turn, so
//! that one can be written while the graphics processor still reads from another. A
//! fence per buffer tells when it has been read.

use crate::frame::{color_matrix, is_color_matrix, ColorMatrix, YuvFrame};
use vstd::prelude::*;

verus! {

/// How long one wait for a busy buffer lasts, in nanoseconds.
pub const BUSY_WAIT_NANOS: u64 = 16_000_000;

/// How many such waits are made before the upload is skipped.
pub const BUSY_WAITS: u32 = 8;

/// The state of the renderer.
pub struct RenderState {
    /// The buffers, by plane and turn.
    pub pbo: [[u32; 3]; 3],
    /// The room in each buffer, by slot.
    pub pbo_cap: [isize; 9],
    /// The size of the textures; negative before there are any.
    pub tex_size: (i32, i32),
    /// Whose turn it is.
    pub pbo_cur: usize,
    pub cmat_loc: i32,
    pub range_y_loc: i32,
    pub range_uv_loc: i32,
    /// The frame that was uploaded last.
    pub last_gen: u64,
    /// The fence of each buffer, by slot; zero where there is none.
    pub fences: [usize; 9],
}

/// The part of an upload that is the same for all planes.
#[derive(Clone, Copy, PartialEq, Eq, Structural)]
pub struct UploadPlan {
    /// Whether the textures have to be allocated first.
    pub allocate: bool,
    /// Which of its three buffers each plane uses.
    pub turn: usize,
}

/// What has to be done to draw a frame.
pub struct DrawPlan {
    pub colors: ColorMatrix,
    /// None where the textures hold the frame already.
    pub upload: Option<UploadPlan>,
}

/// Half of a length, rounded towards zero.
pub open spec fn half(length: int) -> int {
    if length >= 0 {
        length / 2
    } else {
        -((-length) / 2)
    }
}

/// Width and height of a plane: the first is luma, the others chroma.
pub open spec fn plane_extent(width: int, height: int, plane: int) -> (int, int) {
    if plane == 0 {
        (width, height)
    } else {
        (half(width), half(height))
    }
}

fn halved(length: i32) -> (result: i32)
    ensures
        result == half(length as int),
{
    if length >= 0 {
        length / 2
    } else {
        let magnitude: i64 = -(length as i64);
        (-(magnitude / 2)) as i32
    }
}

/// The size of a plane's texture.
pub fn plane_size(width: i32, height: i32, plane: usize) -> (size: (i32, i32))
    ensures
        (size.0 as int, size.1 as int) == plane_extent(width as int, height as int, plane as int),
{
    if plane == 0 {
        (width, height)
    } else {
        (halved(width), halved(height))
    }
}

/// The slot of a buffer.
pub open spec fn slot_of(plane: int, turn: int) -> int {
    plane * 3 + turn
}

impl RenderState {
    /// The turn is one of the three.
    pub open spec fn wf(self) -> bool {
        self.pbo_cur < 3
    }

    /// The state after a frame was drawn.
    pub open spec fn drawn(self, frame_gen: u64, size: (i32, i32)) -> RenderState {
        if frame_gen == self.last_gen {
            self
        } else {
            RenderState {
                last_gen: frame_gen,
                tex_size: size,
                pbo_cur: ((self.pbo_cur + 1) % 3) as usize,
                ..self
            }
        }
    }

    /// What is uploaded for a frame.
    pub open spec fn upload_for(self, frame_gen: u64, size: (i32, i32)) -> Option<UploadPlan> {
        if frame_gen == self.last_gen {
            None
        } else {
            Some(UploadPlan { allocate: self.tex_size != size, turn: self.pbo_cur })
        }
    }

    /// A renderer that has uploaded nothing yet.
    pub fn new(pbo: [[u32; 3]; 3], cmat_loc: i32, range_y_loc: i32, range_uv_loc: i32) -> (state:
        RenderState)
        ensures
            state.wf(),
            state.pbo == pbo,
            state.pbo_cap@ == Seq::new(9, |i: int| 0isize),
            state.tex_size == (-1i32, -1i32),
            state.pbo_cur == 0,
            state.cmat_loc == cmat_loc,
            state.range_y_loc == range_y_loc,
            state.range_uv_loc == range_uv_loc,
            state.last_gen == u64::MAX,
            state.fences@ == Seq::new(9, |i: int| 0usize),
    {
        RenderState {
            pbo,
            pbo_cap: [0, 0, 0, 0, 0, 0, 0, 0, 0],
            tex_size: (-1, -1),
            pbo_cur: 0,
            cmat_loc,
            range_y_loc,
            range_uv_loc,
            last_gen: u64::MAX,
            fences: [0, 0, 0, 0, 0, 0, 0, 0, 0],
        }
    }

    /// The fence that guards a buffer.
    pub fn fence(&self, plane: usize, turn: usize) -> (fence: usize)
        requires
            plane < 3,
            turn < 3,
        ensures
            fence == self.fences@[slot_of(plane as int, turn as int)],
    {
        self.fences[plane * 3 + turn]
    }

    /// The state once a buffer has room for `len` bytes.
    pub open spec fn caps_with(self, plane: int, turn: int, len: isize) -> Seq<isize> {
        if len > self.pbo_cap@[slot_of(plane, turn)] {
            self.pbo_cap@.update(slot_of(plane, turn), len)
        } else {
            self.pbo_cap@
        }
    }

    /// Makes room for `len` bytes in a buffer. Returns whether it has to be allocated
    /// anew.
    pub fn reserve(&mut self, plane: usize, turn: usize, len: isize) -> (grow: bool)
        requires
            plane < 3,
            turn < 3,
        ensures
            grow == (len > old(self).pbo_cap@[slot_of(plane as int, turn as int)]),
            final(self).pbo_cap@ == old(self).caps_with(plane as int, turn as int, len),
            *final(self) == (RenderState { pbo_cap: final(self).pbo_cap, ..*old(self) }),
    {
        let slot: usize = plane * 3 + turn;
        if len > self.pbo_cap[slot] {
            self.pbo_cap[slot] = len;
            true
        } else {
            false
        }
    }

    /// The fences once the one of a buffer was replaced by `done`, if that is one.
    pub open spec fn fences_with(self, plane: int, turn: int, done: usize) -> Seq<usize> {
        if done == 0 {
            self.fences@
        } else {
            self.fences@.update(slot_of(plane, turn), done)
        }
    }

    /// The fence of a buffer that `done` replaces, if there is one.
    pub open spec fn stale_fence(self, plane: int, turn: int, done: usize) -> Option<usize> {
        let before = self.fences@[slot_of(plane, turn)];
        if done == 0 || before == 0 {
            None
        } else {
            Some(before)
        }
    }

    /// Records the fence of the upload that was just started. Where no fence could be
    /// made, the one before stays. Returns the fence that it replaces, which is of no use
    /// any more.
    pub fn record_fence(&mut self, plane: usize, turn: usize, done: usize) -> (stale: Option<usize>)
        requires
            plane < 3,
            turn < 3,
        ensures
            ({
                let slot = slot_of(plane as int, turn as int);
                let before = old(self).fences@[slot];
                &&& final(self).fences@ == (if done == 0 {
                    old(self).fences@
                } else {
                    old(self).fences@.update(slot, done)
                })
                &&& stale == (if done == 0 || before == 0 {
                    None
                } else {
                    Some(before)
                })
            }),
            *final(self) == (RenderState { fences: final(self).fences, ..*old(self) }),
            final(self).fences@ == old(self).fences_with(plane as int, turn as int, done),
            stale == old(self).stale_fence(plane as int, turn as int, done),
    {
        let slot: usize = plane * 3 + turn;
        if done == 0 {
            return None;
        }
        let before: usize = self.fences[slot];
        self.fences[slot] = done;
        if before == 0 {
            None
        } else {
            Some(before)
        }
    }
}

/// Whether a plan is the one for a frame: its colours, and its upload.
pub open spec fn is_plan<T>(state: RenderState, frame: YuvFrame<T>, plan: DrawPlan) -> bool {
    &&& plan.upload == state.upload_for(frame.frame_gen, (frame.width, frame.height))
    &&& is_color_matrix(plan.colors, frame.color_space, frame.color_range, frame.height)
}

/// Decides what has to be done to draw a frame: its colours are set every time, its
/// planes are uploaded only when it is not the frame that was uploaded last.
pub fn draw_frame<T>(state: &mut RenderState, frame: &YuvFrame<T>) -> (plan: DrawPlan)
    requires
        old(state).wf(),
    ensures
        final(state).wf(),
        *final(state) == old(state).drawn(frame.frame_gen, (frame.width, frame.height)),
        plan.upload == old(state).upload_for(frame.frame_gen, (frame.width, frame.height)),
        is_color_matrix(plan.colors, frame.color_space, frame.color_range, frame.height),
        is_plan(*old(state), *frame, plan),
{
    let colors = color_matrix(frame.color_space, frame.color_range, frame.height);
    if frame.frame_gen == state.last_gen {
        return DrawPlan { colors, upload: None };
    }
    let allocate = state.tex_size.0 != frame.width || state.tex_size.1 != frame.height;
    let turn: usize = state.pbo_cur;
    state.last_gen = frame.frame_gen;
    state.tex_size = (frame.width, frame.height);
    state.pbo_cur = (turn + 1) % 3;
    DrawPlan { colors, upload: Some(UploadPlan { allocate, turn }) }
}

/// What comes next before a buffer is written.
#[derive(Clone, Copy, PartialEq, Eq, Structural)]
pub enum UploadStep {
    /// Wait for its fence, at most this long.
    Wait { nanos: u64 },
    /// Write it.
    Write,
    /// Leave it: the texture keeps what it holds.
    Skip,
}

/// What comes next after `waits` waits for the fence of a buffer, where `expired` tells
/// whether the last of them ran out.
pub open spec fn step_of(fence: usize, waits: u32, expired: bool) -> UploadStep {
    if fence == 0 {
        UploadStep::Write
    } else if waits == 0 {
        UploadStep::Wait { nanos: 0 }
    } else if !expired {
        UploadStep::Write
    } else if waits <= BUSY_WAITS {
        UploadStep::Wait { nanos: BUSY_WAIT_NANOS }
    } else {
        UploadStep::Skip
    }
}

/// Decides whether a buffer is written: first the fence is only asked, and a buffer that
/// is still being read is waited for a few times and then left.
pub fn upload_plane(fence: usize, waits: u32, expired: bool) -> (step: UploadStep)
    ensures
        step == step_of(fence, waits, expired),
{
    if fence == 0 {
        UploadStep::Write
    } else if waits == 0 {
        UploadStep::Wait { nanos: 0 }
    } else if !expired {
        UploadStep::Write
    } else if waits <= BUSY_WAITS {
        UploadStep::Wait { nanos: BUSY_WAIT_NANOS }
    } else {
        UploadStep::Skip
    }
}

/// The step at which the upload of a plane ends, where `answers` tells of each wait
/// whether it ran out, and how long has been waited until then.
pub open spec fn upload_run(fence: usize, waits: u32, expired: bool, answers: Seq<bool>) -> (
    UploadStep,
    nat,
)
    decreases answers.len(),
{
    match step_of(fence, waits, expired) {
        UploadStep::Wait { nanos } if answers.len() > 0 && waits < u32::MAX => {
            let (last, waited) = upload_run(
                fence,
                (waits + 1) as u32,
                answers.first(),
                answers.drop_first(),
            );
            (last, waited + nanos as nat)
        },
        step => (step, 0),
    }
}

/// A redraw of the frame that was uploaded last uploads nothing and changes nothing.
pub proof fn law_redraw_uploads_nothing(
    state: RenderState,
    frame_gen: u64,
    size: (i32, i32),
    again: (i32, i32),
)
    ensures
        state.drawn(frame_gen, size).upload_for(frame_gen, again) is None,
        state.drawn(frame_gen, size).drawn(frame_gen, again) == state.drawn(frame_gen, size),
{
}

/// Three frames in a row use three different buffers, and the fourth the first again.
pub proof fn law_buffers_take_turns(
    state: RenderState,
    gens: (u64, u64, u64),
    sizes: ((i32, i32), (i32, i32), (i32, i32)),
)
    requires
        state.wf(),
        gens.0 != state.last_gen,
        gens.1 != gens.0,
        gens.2 != gens.1,
    ensures
        ({
            let second = state.drawn(gens.0, sizes.0);
            let third = second.drawn(gens.1, sizes.1);
            let fourth = third.drawn(gens.2, sizes.2);
            &&& state.pbo_cur != second.pbo_cur
            &&& second.pbo_cur != third.pbo_cur
            &&& third.pbo_cur != state.pbo_cur
            &&& fourth.pbo_cur == state.pbo_cur
        }),
{
}

/// Textures are allocated exactly when the size changes: a frame of the size of the one
/// before needs no allocation, one of another size does.
pub proof fn law_allocates_when_size_changes(
    state: RenderState,
    first: u64,
    size: (i32, i32),
    second: u64,
    next_size: (i32, i32),
)
    requires
        first != state.last_gen,
        second != first,
    ensures
        state.drawn(first, size).upload_for(second, next_size) is Some,
        state.drawn(first, size).upload_for(second, next_size)->0.allocate == (size != next_size),
{
}

/// Each of the nine buffers is allocated at its first use, whatever the others hold, and
/// again only for more bytes than ever before.
pub proof fn law_buffers_are_allocated_at_first_use(
    state: RenderState,
    plane: int,
    turn: int,
    len: isize,
    other_plane: int,
    other_turn: int,
    other_len: isize,
)
    requires
        0 <= plane < 3,
        0 <= turn < 3,
        0 <= other_plane < 3,
        0 <= other_turn < 3,
    ensures
        ({
            let slot = slot_of(plane, turn);
            let after = state.caps_with(other_plane, other_turn, other_len);
            &&& other_plane != plane || other_turn != turn ==> after[slot] == state.pbo_cap@[slot]
            &&& state.caps_with(plane, turn, len)[slot] >= len
            &&& state.caps_with(plane, turn, len)[slot] >= state.pbo_cap@[slot]
            &&& state.pbo_cap@[slot] == 0 && len > 0 ==> len > state.pbo_cap@[slot]
        }),
{
}

/// Buffers do not share slots, and every slot has its place.
pub proof fn law_slots_are_distinct(plane: int, turn: int, other_plane: int, other_turn: int)
    requires
        0 <= plane < 3,
        0 <= turn < 3,
        0 <= other_plane < 3,
        0 <= other_turn < 3,
    ensures
        0 <= slot_of(plane, turn) < 9,
        slot_of(plane, turn) == slot_of(other_plane, other_turn) ==> plane == other_plane && turn
            == other_turn,
{
}

/// A buffer that may still be read is never written: a write needs that there is no
/// fence, or that the last wait for it did not run out.
pub proof fn law_busy_buffer_is_not_written(fence: usize, waits: u32, expired: bool)
    requires
        step_of(fence, waits, expired) is Write,
    ensures
        fence == 0 || (waits > 0 && !expired),
{
}

/// The wait for a buffer is bounded: whatever the answers are, no more than eight times
/// sixteen milliseconds are waited, and with an answer to every wait the upload comes to
/// a write or is skipped.
pub proof fn law_wait_is_bounded(fence: usize, answers: Seq<bool>)
    ensures
        upload_run(fence, 0, false, answers).1 <= BUSY_WAITS * BUSY_WAIT_NANOS,
        answers.len() > BUSY_WAITS ==> !(upload_run(fence, 0, false, answers).0 is Wait),
{
    if fence != 0 && answers.len() > 0 {
        lemma_wait_from(fence, 1, answers.first(), answers.drop_first());
    }
}

proof fn lemma_wait_from(fence: usize, waits: u32, expired: bool, answers: Seq<bool>)
    requires
        1 <= waits <= BUSY_WAITS + 1,
    ensures
        upload_run(fence, waits, expired, answers).1 <= (BUSY_WAITS + 1 - waits) * BUSY_WAIT_NANOS,
        answers.len() > BUSY_WAITS - waits ==> !(upload_run(fence, waits, expired, answers).0 is Wait),
    decreases answers.len(),
{
    if fence != 0 && expired && waits <= BUSY_WAITS && answers.len() > 0 {
        lemma_wait_from(fence, (waits + 1) as u32, answers.first(), answers.drop_first());
    }
}

/// A frame is uploaded exactly if it is not the one that was uploaded last; it uses the
/// buffers whose turn it is, and new textures exactly if its size is another.
pub proof fn law_new_frames_are_uploaded(state: RenderState, frame_gen: u64, size: (i32, i32))
    ensures
        state.upload_for(frame_gen, size) is Some <==> frame_gen != state.last_gen,
        state.upload_for(frame_gen, size) matches Some(plan) ==> {
            &&& plan.turn == state.pbo_cur
            &&& plan.allocate <==> size.0 != state.tex_size.0 || size.1 != state.tex_size.1
        },
{
}

/// Drawing remembers the frame and its size, passes the turn on, and touches neither
/// buffers nor fences.
pub proof fn law_drawing_remembers(state: RenderState, frame_gen: u64, size: (i32, i32))
    requires
        state.wf(),
    ensures
        ({
            let after = state.drawn(frame_gen, size);
            &&& after.last_gen == frame_gen
            &&& frame_gen != state.last_gen ==> after.tex_size == size
            &&& frame_gen != state.last_gen && state.pbo_cur < 2 ==> after.pbo_cur == state.pbo_cur
                + 1
            &&& frame_gen != state.last_gen && state.pbo_cur == 2 ==> after.pbo_cur == 0
            &&& after.wf()
            &&& after.pbo == state.pbo
            &&& after.pbo_cap == state.pbo_cap
            &&& after.fences == state.fences
            &&& after.cmat_loc == state.cmat_loc
            &&& after.range_y_loc == state.range_y_loc
            &&& after.range_uv_loc == state.range_uv_loc
        }),
{
}

/// A buffer is written where it has no fence or its last wait did not run out; it is first
/// only asked, then waited for eight times sixteen milliseconds, and then left.
pub proof fn law_buffer_is_waited_for(fence: usize, waits: u32, expired: bool)
    ensures
        step_of(fence, waits, expired) is Write <==> fence == 0 || waits > 0 && !expired,
        step_of(fence, waits, expired) is Skip <==> fence != 0 && waits > 8 && expired,
        step_of(fence, waits, expired) is Wait <==> fence != 0 && (waits == 0 || expired && waits
            <= 8),
        step_of(fence, waits, expired) matches UploadStep::Wait { nanos } ==> nanos == (
        if waits == 0 {
            0int
        } else {
            16_000_000
        }),
{
}

/// The luma plane is as large as the frame, and a chroma plane half as wide and half as
/// high, rounded towards zero.
pub proof fn law_planes_are_halved(width: int, height: int, plane: int)
    ensures
        plane == 0 ==> plane_extent(width, height, plane) == (width, height),
        plane != 0 && width >= 0 ==> 2 * plane_extent(width, height, plane).0 <= width <= 2
            * plane_extent(width, height, plane).0 + 1,
        plane != 0 && width < 0 ==> 2 * plane_extent(width, height, plane).0 - 1 <= width <= 2
            * plane_extent(width, height, plane).0,
        plane != 0 && height >= 0 ==> 2 * plane_extent(width, height, plane).1 <= height <= 2
            * plane_extent(width, height, plane).1 + 1,
        plane != 0 && height < 0 ==> 2 * plane_extent(width, height, plane).1 - 1 <= height <= 2
            * plane_extent(width, height, plane).1,
{
}

/// Making room in one buffer leaves the others alone, and never takes room away.
pub proof fn law_room_is_made_in_one_buffer(
    state: RenderState,
    plane: int,
    turn: int,
    len: isize,
    slot: int,
)
    requires
        0 <= plane < 3,
        0 <= turn < 3,
        0 <= slot < 9,
    ensures
        ({
            let caps = state.caps_with(plane, turn, len);
            &&& caps.len() == state.pbo_cap@.len()
            &&& slot != 3 * plane + turn ==> caps[slot] == state.pbo_cap@[slot]
            &&& slot == 3 * plane + turn ==> caps[slot] == if len > state.pbo_cap@[slot] {
                len
            } else {
                state.pbo_cap@[slot]
            }
        }),
{
}

/// A new fence replaces that of its own buffer and no other; the one that it replaces is
/// handed out, so that no fence is lost and none is handed out while it is still kept.
pub proof fn law_fences_are_replaced(
    state: RenderState,
    plane: int,
    turn: int,
    done: usize,
    slot: int,
)
    requires
        0 <= plane < 3,
        0 <= turn < 3,
        0 <= slot < 9,
    ensures
        state.fences_with(plane, turn, done).len() == state.fences@.len(),
        slot != 3 * plane + turn || done == 0 ==> state.fences_with(plane, turn, done)[slot]
            == state.fences@[slot],
        slot == 3 * plane + turn && done != 0 ==> {
            &&& state.fences_with(plane, turn, done)[slot] == done
            &&& state.stale_fence(plane, turn, done) is Some <==> state.fences@[slot] != 0
            &&& state.stale_fence(plane, turn, done) matches Some(stale) ==> stale
                == state.fences@[slot]
        },
        done == 0 ==> state.stale_fence(plane, turn, done) is None,
{
}

/// Every frame is drawn in its own colours, whether or not it is uploaded, and uploaded
/// exactly if it is not the last one.
pub proof fn law_frames_are_drawn_in_their_colors<T>(
    state: RenderState,
    frame: YuvFrame<T>,
    plan: DrawPlan,
)
    requires
        is_plan(state, frame, plan),
    ensures
        is_color_matrix(plan.colors, frame.color_space, frame.color_range, frame.height),
        plan.upload is Some <==> frame.frame_gen != state.last_gen,
        plan.upload matches Some(upload) ==> {
            &&& upload.turn == state.pbo_cur
            &&& upload.allocate <==> frame.width != state.tex_size.0 || frame.height
                != state.tex_size.1
        },
{
}

} // verus!
