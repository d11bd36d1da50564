//! Decoded frames on their way to the window, and their colours.

use vstd::prelude::*;
use vstd::slice::slice_subrange;
use vstd::arithmetic::div_mod::lemma_fundamental_div_mod;

verus! {

/// The colour space that a stream declares.
#[derive(Clone, Copy, PartialEq, Eq, Structural)]
pub enum ColorSpace {
    Bt709,
    Bt2020Ncl,
    Bt2020Cl,
    Smpte170m,
    Bt470bg,
    /// Another one, or none.
    Other,
}

/// The range of values that a stream declares.
#[derive(Clone, Copy, PartialEq, Eq, Structural)]
pub enum ColorRange {
    Unspecified,
    /// Limited: luma from 16 to 235.
    Mpeg,
    /// Full.
    Jpeg,
}

/// A frame of three planes, with a quarter of the chroma samples.
pub struct YuvFrame<T> {
    pub y: Vec<u8>,
    pub u: Vec<u8>,
    pub v: Vec<u8>,
    pub width: i32,
    pub height: i32,
    pub y_stride: i32,
    pub uv_stride: i32,
    /// When the frame is to be shown.
    pub pts_sec: T,
    /// Which frame this is, among all that were made.
    pub frame_gen: u64,
    pub color_space: ColorSpace,
    pub color_range: ColorRange,
    /// The size at which the frame is shown, with square pixels.
    pub disp_w: i32,
    pub disp_h: i32,
}

/// What the decoder tells the window.
pub enum Message<T> {
    Frame(YuvFrame<T>),
    End,
}

/// Draws the next frame number from a counter that starts anew from zero at the top.
pub fn next_frame_gen(counter: &mut u64) -> (frame_gen: u64)
    ensures
        frame_gen == *old(counter),
        *final(counter) == gen_after(*old(counter) as nat, 1),
{
    let frame_gen: u64 = *counter;
    *counter = if frame_gen == u64::MAX {
        0
    } else {
        frame_gen + 1
    };
    frame_gen
}

/// The counter of frame numbers after `draws` draws.
pub open spec fn gen_after(counter: nat, draws: nat) -> nat {
    (counter + draws) % 0x1_0000_0000_0000_0000
}

/// Draws count one after the other: the counter after some draws and one more.
pub proof fn law_draws_count(counter: nat, draws: nat)
    ensures
        gen_after(gen_after(counter, draws), 1) == gen_after(counter, draws + 1),
{
    let m: int = 0x1_0000_0000_0000_0000;
    vstd::arithmetic::div_mod::lemma_add_mod_noop_right(1, (counter + draws) as int, m);
}

/// Frame numbers are unique: no two draws among 2^64 consecutive ones agree.
pub proof fn law_frame_gens_are_unique(counter: nat, first: nat, second: nat)
    requires
        first < second,
        second - first < 0x1_0000_0000_0000_0000,
    ensures
        gen_after(counter, first) != gen_after(counter, second),
{
    let m: int = 0x1_0000_0000_0000_0000;
    let a = (counter + first) as int;
    let b = (counter + second) as int;
    if a % m == b % m {
        lemma_fundamental_div_mod(a, m);
        lemma_fundamental_div_mod(b, m);
        let qa = a / m;
        let qb = b / m;
        assert(b - a == m * qb - m * qa);
        assert(b - a == m * (qb - qa)) by (nonlinear_arith)
            requires
                b - a == m * qb - m * qa,
        ;
        assert(false) by (nonlinear_arith)
            requires
                0 < b - a < m,
                b - a == m * (qb - qa),
                m == 0x1_0000_0000_0000_0000,
        ;
    }
}

/// A fraction.
#[derive(Clone, Copy, PartialEq, Eq, Structural)]
pub struct Ratio {
    pub numerator: i32,
    pub denominator: i32,
}

/// The parameters that turn texture values between zero and one into colours:
/// with `y' = (y - y_off) * y_gain`, `u' = (u - uv_center) * uv_gain` and `v'` alike,
/// red is `y' + rv * v'`, green `y' + gu * u' + gv * v'`, and blue `y' + bu * u'`.
#[derive(Clone, Copy, PartialEq, Eq, Structural)]
pub struct ColorMatrix {
    pub rv: Ratio,
    pub gu: Ratio,
    pub gv: Ratio,
    pub bu: Ratio,
    pub y_off: Ratio,
    pub y_gain: Ratio,
    pub uv_center: Ratio,
    pub uv_gain: Ratio,
}

/// The four factors of a colour space: `rv`, `gu`, `gv` and `bu`, in units of a ten
/// millionth.
pub struct Factors {
    pub rv: int,
    pub gu: int,
    pub gv: int,
    pub bu: int,
}

/// High definition.
pub open spec fn bt709() -> Factors {
    Factors { rv: 15748000, gu: -1873000, gv: -4681000, bu: 18556000 }
}

/// Ultra-high definition.
pub open spec fn bt2020() -> Factors {
    Factors { rv: 14746000, gu: -1645531, gv: -5713531, bu: 18814000 }
}

/// Standard definition.
pub open spec fn bt601() -> Factors {
    Factors { rv: 14020000, gu: -3441360, gv: -7141360, bu: 17720000 }
}

/// The factors of a frame: those of the declared colour space, else those that are
/// usual for its height.
pub open spec fn factors_of(space: ColorSpace, height: int) -> Factors {
    match space {
        ColorSpace::Bt709 => bt709(),
        ColorSpace::Bt2020Ncl | ColorSpace::Bt2020Cl => bt2020(),
        ColorSpace::Smpte170m | ColorSpace::Bt470bg => bt601(),
        ColorSpace::Other => if height >= 720 {
            bt709()
        } else {
            bt601()
        },
    }
}

/// A fraction has the value `millionths / 10_000_000`.
pub open spec fn is_ten_millionths(ratio: Ratio, millionths: int) -> bool {
    ratio.denominator > 0 && ratio.numerator * 10_000_000 == millionths * ratio.denominator
}

/// A fraction of two small numbers.
pub open spec fn fraction(numerator: int, denominator: int) -> Ratio {
    Ratio { numerator: numerator as i32, denominator: denominator as i32 }
}

/// Whether a matrix is the one for a colour space, a range and a height.
pub open spec fn is_color_matrix(
    matrix: ColorMatrix,
    space: ColorSpace,
    range: ColorRange,
    height: i32,
) -> bool {
    let factors = factors_of(space, height as int);
    let full = range == ColorRange::Jpeg;
    &&& is_ten_millionths(matrix.rv, factors.rv)
    &&& is_ten_millionths(matrix.gu, factors.gu)
    &&& is_ten_millionths(matrix.gv, factors.gv)
    &&& is_ten_millionths(matrix.bu, factors.bu)
    &&& matrix.y_off == if full {
        fraction(0, 1)
    } else {
        fraction(16, 255)
    }
    &&& matrix.y_gain == if full {
        fraction(1, 1)
    } else {
        fraction(255, 219)
    }
    &&& matrix.uv_center == if full {
        fraction(1, 2)
    } else {
        fraction(128, 255)
    }
    &&& matrix.uv_gain == if full {
        fraction(1, 1)
    } else {
        fraction(255, 224)
    }
}

/// The conversion parameters of a frame. A range that is not declared is limited.
pub fn color_matrix(space: ColorSpace, range: ColorRange, height: i32) -> (matrix: ColorMatrix)
    ensures
        is_color_matrix(matrix, space, range, height),
{
    let hd = match space {
        ColorSpace::Bt709 => true,
        ColorSpace::Other => height >= 720,
        _ => false,
    };
    let uhd = match space {
        ColorSpace::Bt2020Ncl | ColorSpace::Bt2020Cl => true,
        _ => false,
    };
    let (rv, gu, gv, bu) = if hd {
        (
            Ratio { numerator: 15748, denominator: 10_000 },
            Ratio { numerator: -1873, denominator: 10_000 },
            Ratio { numerator: -4681, denominator: 10_000 },
            Ratio { numerator: 18556, denominator: 10_000 },
        )
    } else if uhd {
        (
            Ratio { numerator: 14746, denominator: 10_000 },
            Ratio { numerator: -1645531, denominator: 10_000_000 },
            Ratio { numerator: -5713531, denominator: 10_000_000 },
            Ratio { numerator: 18814, denominator: 10_000 },
        )
    } else {
        (
            Ratio { numerator: 1402, denominator: 1_000 },
            Ratio { numerator: -344136, denominator: 1_000_000 },
            Ratio { numerator: -714136, denominator: 1_000_000 },
            Ratio { numerator: 1772, denominator: 1_000 },
        )
    };
    let full = match range {
        ColorRange::Jpeg => true,
        _ => false,
    };
    let (y_off, y_gain, uv_center, uv_gain) = if full {
        (
            Ratio { numerator: 0, denominator: 1 },
            Ratio { numerator: 1, denominator: 1 },
            Ratio { numerator: 1, denominator: 2 },
            Ratio { numerator: 1, denominator: 1 },
        )
    } else {
        (
            Ratio { numerator: 16, denominator: 255 },
            Ratio { numerator: 255, denominator: 219 },
            Ratio { numerator: 128, denominator: 255 },
            Ratio { numerator: 255, denominator: 224 },
        )
    };
    ColorMatrix {
        rv,
        gu,
        gv,
        bu,
        y_off,
        y_gain,
        uv_center,
        uv_gain,
    }
}

/// Whether the byte `code` of a plane comes out as `num / den`: that is,
/// `(code / 255 - offset) * gain == num / den`.
pub open spec fn comes_out_as(code: int, offset: Ratio, gain: Ratio, num: int, den: int) -> bool {
    (code * offset.denominator - 255 * offset.numerator) * gain.numerator * den == num * (255
        * offset.denominator * gain.denominator)
}

/// The luma range is stretched to run from zero to one: in the limited range from 16
/// to 235, in the full range from 0 to 255.
pub proof fn law_luma_range_is_stretched(
    matrix: ColorMatrix,
    space: ColorSpace,
    range: ColorRange,
    height: i32,
    code: int,
)
    requires
        is_color_matrix(matrix, space, range, height),
    ensures
        range == ColorRange::Jpeg ==> comes_out_as(code, matrix.y_off, matrix.y_gain, code, 255),
        range != ColorRange::Jpeg ==> comes_out_as(
            code,
            matrix.y_off,
            matrix.y_gain,
            code - 16,
            219,
        ),
{
    assert((code * 255 - 255 * 16) * 255 * 219 == (code - 16) * (255 * 255 * 219))
        by (nonlinear_arith);
    assert((code * 1 - 255 * 0) * 1 * 255 == code * (255 * 1 * 1)) by (nonlinear_arith);
}

/// The chroma range is stretched to run from minus a half to a half: in the limited range
/// from 16 to 240, in the full range from 0 to 255.
pub proof fn law_chroma_range_is_stretched(
    matrix: ColorMatrix,
    space: ColorSpace,
    range: ColorRange,
    height: i32,
    code: int,
)
    requires
        is_color_matrix(matrix, space, range, height),
    ensures
        range == ColorRange::Jpeg ==> {
            &&& comes_out_as(code, matrix.uv_center, matrix.uv_gain, 2 * code - 255, 510)
            &&& comes_out_as(0, matrix.uv_center, matrix.uv_gain, -1, 2)
            &&& comes_out_as(255, matrix.uv_center, matrix.uv_gain, 1, 2)
        },
        range != ColorRange::Jpeg ==> {
            &&& comes_out_as(code, matrix.uv_center, matrix.uv_gain, code - 128, 224)
            &&& comes_out_as(16, matrix.uv_center, matrix.uv_gain, -1, 2)
            &&& comes_out_as(240, matrix.uv_center, matrix.uv_gain, 1, 2)
        },
{
    assert((code * 255 - 255 * 128) * 255 * 224 == (code - 128) * (255 * 255 * 224))
        by (nonlinear_arith);
    assert((code * 2 - 255 * 1) * 1 * 510 == (2 * code - 255) * (255 * 2 * 1))
        by (nonlinear_arith);
    assert((16 * 255 - 255 * 128) * 255 * 2 == -1 * (255 * 255 * 224)) by (nonlinear_arith);
    assert((240 * 255 - 255 * 128) * 255 * 2 == 1 * (255 * 255 * 224)) by (nonlinear_arith);
}

/// The width of a picture with square pixels, given the shape of its pixels; a shape
/// that is unknown or square leaves it alone.
pub open spec fn square_pixel_width(width: int, sar_num: int, sar_den: int) -> int {
    if sar_num > 0 && sar_den > 0 && sar_num != sar_den {
        let scaled = width * sar_num / sar_den;
        if scaled < 1 {
            1
        } else {
            scaled
        }
    } else {
        width
    }
}

/// The width of a picture with square pixels.
pub fn display_width(width: u32, sar_num: i32, sar_den: i32) -> (scaled: u64)
    ensures
        scaled == square_pixel_width(width as int, sar_num as int, sar_den as int),
{
    if sar_num > 0 && sar_den > 0 && sar_num != sar_den {
        let num: u64 = sar_num as u64;
        let den: u64 = sar_den as u64;
        assert(width * num <= 0xffff_ffff * 0x7fff_ffff) by (nonlinear_arith)
            requires
                width <= 0xffff_ffff,
                num <= 0x7fff_ffff,
        ;
        let scaled: u64 = width as u64 * num / den;
        if scaled < 1 {
            1
        } else {
            scaled
        }
    } else {
        width as u64
    }
}

/// The size at which a frame is shown.
pub fn frame_display_size(width: u32, height: u32, sar_num: i32, sar_den: i32) -> (size: (i32, i32))
    ensures
        size.0 == square_pixel_width(width as int, sar_num as int, sar_den as int) as i32,
        size.1 == height as i32,
        size == frame_size(width as int, height as int, sar_num as int, sar_den as int),
{
    let scaled: u64 = display_width(width, sar_num, sar_den);
    (scaled as i32, height as i32)
}

/// The size at which a frame is shown.
pub open spec fn frame_size(width: int, height: int, sar_num: int, sar_den: int) -> (i32, i32) {
    (square_pixel_width(width, sar_num, sar_den) as i32, height as i32)
}

/// The size at which a stream is shown.
pub open spec fn stream_size(width: int, height: int, sar_num: int, sar_den: int) -> (u32, u32) {
    (square_pixel_width(width, sar_num, sar_den) as u32, height as u32)
}

/// The size at which a stream is shown.
pub fn stream_display_size(
    width: u32,
    height: u32,
    sar_num: i32,
    sar_den: i32,
) -> (size: (u32, u32))
    ensures
        size.0 == square_pixel_width(width as int, sar_num as int, sar_den as int) as u32,
        size.1 == height,
        size == stream_size(width as int, height as int, sar_num as int, sar_den as int),
{
    let scaled: u64 = display_width(width, sar_num, sar_den);
    (scaled as u32, height)
}

/// Scaling to square pixels keeps the shape of the picture to within one pixel.
pub proof fn law_square_pixels_keep_shape(width: int, sar_num: int, sar_den: int)
    requires
        width >= 0,
        sar_num > 0,
        sar_den > 0,
        width * sar_num >= sar_den,
    ensures
        ({
            let scaled = square_pixel_width(width, sar_num, sar_den);
            scaled * sar_den <= width * sar_num < (scaled + 1) * sar_den
        }),
{
    let product = width * sar_num;
    let q = product / sar_den;
    lemma_fundamental_div_mod(product, sar_den);
    assert(q >= 1) by (nonlinear_arith)
        requires
            product == sar_den * q + product % sar_den,
            0 <= product % sar_den < sar_den,
            product >= sar_den,
            sar_den > 0,
    ;
    assert(q * sar_den <= product < (q + 1) * sar_den) by (nonlinear_arith)
        requires
            product == sar_den * q + product % sar_den,
            0 <= product % sar_den < sar_den,
    ;
    if sar_num == sar_den {
        assert(width * sar_den < (width + 1) * sar_den) by (nonlinear_arith)
            requires
                sar_den > 0,
        ;
    }
}

/// What is known of a decoded picture, besides its planes.
#[derive(Clone, Copy)]
pub struct Picture {
    pub width: u32,
    pub height: u32,
    pub y_stride: usize,
    pub uv_stride: usize,
    pub sar_num: i32,
    pub sar_den: i32,
    pub color_space: ColorSpace,
    pub color_range: ColorRange,
}

impl Picture {
    /// The bytes of the luma plane.
    pub open spec fn y_len(self) -> int {
        self.y_stride * self.height
    }

    /// The bytes of a chroma plane, which has a row for each two rows of luma, and one for
    /// the last where it stands alone.
    pub open spec fn uv_len(self) -> int {
        self.uv_stride * ((self.height + 1) / 2)
    }

    /// Whether planes of these lengths hold the picture.
    pub open spec fn fits(self, y: int, u: int, v: int) -> bool {
        self.y_len() <= y && self.uv_len() <= u && self.uv_len() <= v
    }
}

/// Whether planes of these lengths hold a picture.
pub fn planes_fit(picture: &Picture, y: usize, u: usize, v: usize) -> (fit: bool)
    ensures
        fit == picture.fits(y as int, u as int, v as int),
{
    let y_stride: u128 = picture.y_stride as u128;
    let uv_stride: u128 = picture.uv_stride as u128;
    let rows: u128 = picture.height as u128;
    assert(0 <= y_stride * rows <= 0xffff_ffff_ffff_ffff * 0xffff_ffff) by (nonlinear_arith)
        requires
            0 <= y_stride <= 0xffff_ffff_ffff_ffff,
            0 <= rows <= 0xffff_ffff,
    ;
    let uv_rows: u128 = (rows + 1) / 2;
    assert(0 <= uv_stride * uv_rows <= 0xffff_ffff_ffff_ffff * 0xffff_ffff) by (nonlinear_arith)
        requires
            0 <= uv_stride <= 0xffff_ffff_ffff_ffff,
            0 <= uv_rows <= 0xffff_ffff,
    ;
    let y_len: u128 = y_stride * rows;
    let uv_len: u128 = uv_stride * uv_rows;
    y_len <= y as u128 && uv_len <= u as u128 && uv_len <= v as u128
}

/// Whether `frame` is a copy of the picture with these planes.
pub open spec fn shows<T>(
    frame: YuvFrame<T>,
    picture: Picture,
    y: Seq<u8>,
    u: Seq<u8>,
    v: Seq<u8>,
    pts_sec: T,
    frame_gen: u64,
) -> bool {
    &&& frame.y@ == y.take(picture.y_len())
    &&& frame.u@ == u.take(picture.uv_len())
    &&& frame.v@ == v.take(picture.uv_len())
    &&& frame.width == picture.width as i32
    &&& frame.height == picture.height as i32
    &&& frame.y_stride == picture.y_stride as i32
    &&& frame.uv_stride == picture.uv_stride as i32
    &&& frame.pts_sec == pts_sec
    &&& frame.frame_gen == frame_gen
    &&& frame.color_space == picture.color_space
    &&& frame.color_range == picture.color_range
    &&& frame.disp_w == square_pixel_width(
        picture.width as int,
        picture.sar_num as int,
        picture.sar_den as int,
    ) as i32
    &&& frame.disp_h == picture.height as i32
}

/// A plane's first `len` bytes, in the buffer of an earlier plane.
fn copy_plane(buffer: Vec<u8>, plane: &[u8], len: usize) -> (copy: Vec<u8>)
    requires
        len <= plane@.len(),
    ensures
        copy@ == plane@.take(len as int),
{
    let mut copy = buffer;
    copy.clear();
    copy.extend_from_slice(slice_subrange(plane, 0, len));
    assert(copy@ =~= plane@.take(len as int));
    copy
}

/// Copies a decoded picture into a frame. The buffers of a frame that was shown
/// before are used again where there is one; nothing else of it is left.
pub fn fill_frame<T>(
    recycled: Option<YuvFrame<T>>,
    picture: Picture,
    y: &[u8],
    u: &[u8],
    v: &[u8],
    pts_sec: T,
    frame_gen: u64,
) -> (frame: YuvFrame<T>)
    requires
        picture.fits(y@.len() as int, u@.len() as int, v@.len() as int),
    ensures
        shows(frame, picture, y@, u@, v@, pts_sec, frame_gen),
{
    let y_available: usize = y.len();
    let u_available: usize = u.len();
    let rows: usize = picture.height as usize;
    let uv_rows: usize = rows / 2 + rows % 2;
    assert(uv_rows == (picture.height + 1) / 2);
    let y_len: usize = picture.y_stride * rows;
    let uv_len: usize = picture.uv_stride * uv_rows;
    let (y_old, u_old, v_old) = match recycled {
        Some(old_frame) => (old_frame.y, old_frame.u, old_frame.v),
        None => (Vec::new(), Vec::new(), Vec::new()),
    };
    let (disp_w, disp_h) = frame_display_size(
        picture.width,
        picture.height,
        picture.sar_num,
        picture.sar_den,
    );
    YuvFrame {
        y: copy_plane(y_old, y, y_len),
        u: copy_plane(u_old, u, uv_len),
        v: copy_plane(v_old, v, uv_len),
        width: picture.width as i32,
        height: picture.height as i32,
        y_stride: picture.y_stride as i32,
        uv_stride: picture.uv_stride as i32,
        pts_sec,
        frame_gen,
        color_space: picture.color_space,
        color_range: picture.color_range,
        disp_w,
        disp_h,
    }
}

/// Every frame is in planar layout, whatever frame it was made in: its luma plane has as
/// many rows as the frame, and each chroma plane half as many, rounded up.
pub proof fn law_frames_are_planar<T>(
    frame: YuvFrame<T>,
    picture: Picture,
    y: Seq<u8>,
    u: Seq<u8>,
    v: Seq<u8>,
    pts_sec: T,
    frame_gen: u64,
)
    requires
        shows(frame, picture, y, u, v, pts_sec, frame_gen),
        picture.fits(y.len() as int, u.len() as int, v.len() as int),
        picture.height <= i32::MAX,
        picture.y_stride <= i32::MAX,
        picture.uv_stride <= i32::MAX,
    ensures
        frame.y@.len() == frame.y_stride * frame.height,
        frame.u@.len() == frame.uv_stride * ((frame.height + 1) / 2),
        frame.v@.len() == frame.u@.len(),
        frame.height % 2 == 0 ==> frame.u@.len() == frame.uv_stride * (frame.height as int / 2),
{
    assert(0 <= picture.y_len()) by (nonlinear_arith)
        requires
            picture.y_len() == picture.y_stride * picture.height,
            0 <= picture.y_stride,
            0 <= picture.height,
    ;
    let rows = (picture.height + 1) / 2;
    assert(0 <= picture.uv_len()) by (nonlinear_arith)
        requires
            picture.uv_len() == picture.uv_stride * rows,
            0 <= picture.uv_stride,
            0 <= rows,
    ;
    assert(frame.height % 2 == 0 ==> rows == frame.height as int / 2);
}

/// A frame shows the picture byte for byte: each byte of each plane is the one at the same
/// place of the same plane of the picture, and sizes, colours, time and number are those
/// given.
pub proof fn law_frame_bytes_are_the_pictures<T>(
    frame: YuvFrame<T>,
    picture: Picture,
    y: Seq<u8>,
    u: Seq<u8>,
    v: Seq<u8>,
    pts_sec: T,
    frame_gen: u64,
    i: int,
)
    requires
        shows(frame, picture, y, u, v, pts_sec, frame_gen),
        picture.fits(y.len() as int, u.len() as int, v.len() as int),
        0 <= i,
    ensures
        i < picture.y_stride * picture.height ==> i < frame.y@.len() && frame.y@[i] == y[i],
        i < picture.uv_stride * ((picture.height + 1) / 2) ==> i < frame.u@.len() && frame.u@[i]
            == u[i],
        i < picture.uv_stride * ((picture.height + 1) / 2) ==> i < frame.v@.len() && frame.v@[i]
            == v[i],
        picture.width <= i32::MAX ==> frame.width == picture.width,
        picture.height <= i32::MAX ==> frame.height == picture.height && frame.disp_h
            == picture.height,
        picture.y_stride <= i32::MAX ==> frame.y_stride == picture.y_stride,
        picture.uv_stride <= i32::MAX ==> frame.uv_stride == picture.uv_stride,
        frame.color_space == picture.color_space,
        frame.color_range == picture.color_range,
        frame.pts_sec == pts_sec,
        frame.frame_gen == frame_gen,
        frame.y@.len() == picture.y_stride * picture.height,
        frame.u@.len() == picture.uv_stride * ((picture.height + 1) / 2),
        frame.v@.len() == picture.uv_stride * ((picture.height + 1) / 2),
        picture.sar_num == picture.sar_den && picture.width <= i32::MAX ==> frame.disp_w
            == picture.width,
        (frame.disp_w, frame.disp_h) == frame_size(
            picture.width as int,
            picture.height as int,
            picture.sar_num as int,
            picture.sar_den as int,
        ),
{
}

/// The planes hold the picture exactly if none of them is shorter than its rows.
pub proof fn law_planes_hold_the_picture(picture: Picture, y: int, u: int, v: int)
    ensures
        picture.fits(y, u, v) <==> {
            &&& picture.y_stride * picture.height <= y
            &&& picture.uv_stride * ((picture.height + 1) / 2) <= u
            &&& picture.uv_stride * ((picture.height + 1) / 2) <= v
        },
{
}

/// The counter of frame numbers goes up by one, and starts anew only at the top.
pub proof fn law_counter_goes_up(counter: nat)
    requires
        counter <= u64::MAX,
    ensures
        counter < u64::MAX ==> gen_after(counter, 1) == counter + 1,
        counter == u64::MAX ==> gen_after(counter, 1) == 0,
        gen_after(counter, 0) == counter,
{
}

/// Whether a fraction has the value `num / den`.
pub open spec fn equals(ratio: Ratio, num: int, den: int) -> bool {
    ratio.denominator > 0 && ratio.numerator * den == num * ratio.denominator
}

/// The colour factors are those of the declared colour space, and where none is declared,
/// those of high definition from 720 rows on and of standard definition below.
pub proof fn law_color_factors(
    matrix: ColorMatrix,
    space: ColorSpace,
    range: ColorRange,
    height: i32,
)
    requires
        is_color_matrix(matrix, space, range, height),
    ensures
        space == ColorSpace::Bt709 || space == ColorSpace::Other && height >= 720 ==> {
            &&& equals(matrix.rv, 15748, 10_000)
            &&& equals(matrix.gu, -1873, 10_000)
            &&& equals(matrix.gv, -4681, 10_000)
            &&& equals(matrix.bu, 18556, 10_000)
        },
        space == ColorSpace::Bt2020Ncl || space == ColorSpace::Bt2020Cl ==> {
            &&& equals(matrix.rv, 14746, 10_000)
            &&& equals(matrix.gu, -1645531, 10_000_000)
            &&& equals(matrix.gv, -5713531, 10_000_000)
            &&& equals(matrix.bu, 18814, 10_000)
        },
        space == ColorSpace::Smpte170m || space == ColorSpace::Bt470bg || space
            == ColorSpace::Other && height < 720 ==> {
            &&& equals(matrix.rv, 1402, 1_000)
            &&& equals(matrix.gu, -344136, 1_000_000)
            &&& equals(matrix.gv, -714136, 1_000_000)
            &&& equals(matrix.bu, 1772, 1_000)
        },
{
}

/// Pixels of unknown or square shape leave the width alone, and no picture becomes
/// narrower than one pixel.
pub proof fn law_square_pixels_leave_width(width: int, sar_num: int, sar_den: int)
    requires
        width >= 0,
    ensures
        sar_num <= 0 || sar_den <= 0 || sar_num == sar_den ==> square_pixel_width(
            width,
            sar_num,
            sar_den,
        ) == width,
        sar_num > 0 && sar_den > 0 && sar_num != sar_den ==> square_pixel_width(
            width,
            sar_num,
            sar_den,
        ) >= 1,
        sar_num > 0 && sar_den > 0 && sar_num != sar_den && width * sar_num < sar_den
            ==> square_pixel_width(width, sar_num, sar_den) == 1,
{
    if sar_num > 0 && sar_den > 0 && width * sar_num < sar_den {
        let product = width * sar_num;
        assert(product >= 0) by (nonlinear_arith)
            requires
                product == width * sar_num,
                width >= 0,
                sar_num > 0,
        ;
        vstd::arithmetic::div_mod::lemma_basic_div(product, sar_den);
    }
}

/// Frames and streams are shown at their height, and at the width of square pixels,
/// whenever these can be told.
pub proof fn law_sizes_are_shown(width: int, height: int, sar_num: int, sar_den: int)
    ensures
        ({
            let shown = square_pixel_width(width, sar_num, sar_den);
            let frame = frame_size(width, height, sar_num, sar_den);
            let stream = stream_size(width, height, sar_num, sar_den);
            &&& 0 <= shown <= i32::MAX ==> frame.0 == shown && stream.0 == shown
            &&& 0 <= height <= i32::MAX ==> frame.1 == height && stream.1 == height
            &&& 0 <= shown <= u32::MAX ==> stream.0 == shown
            &&& 0 <= height <= u32::MAX ==> stream.1 == height
        }),
{
}

/// The parameters of a conversion are proper fractions of a whole, and brighter bytes come
/// out brighter.
pub proof fn law_color_fractions_are_proper(
    matrix: ColorMatrix,
    space: ColorSpace,
    range: ColorRange,
    height: i32,
)
    requires
        is_color_matrix(matrix, space, range, height),
    ensures
        matrix.rv.denominator > 0,
        matrix.gu.denominator > 0,
        matrix.gv.denominator > 0,
        matrix.bu.denominator > 0,
        matrix.y_off.denominator > 0,
        matrix.y_gain.denominator > 0,
        matrix.uv_center.denominator > 0,
        matrix.uv_gain.denominator > 0,
        matrix.y_gain.numerator > 0,
        matrix.uv_gain.numerator > 0,
{
}

} // verus!
