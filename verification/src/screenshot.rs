//! Screenshots: a frame becomes an image file.

use crate::frame::{law_frames_are_planar, shows, Picture, YuvFrame};
use crate::text::{decimal, law_decimal_reads_back, push_decimal, read_decimal};
use vstd::arithmetic::div_mod::lemma_fundamental_div_mod;
use vstd::prelude::*;

verus! {

/// The longest row of an image, in bytes.
pub const MAX_ROW_BYTES: u64 = 0xffff_ff00;

/// Why there is no screenshot.
pub enum ScreenshotError {
    /// The frame has no pixels.
    EmptyFrame,
    /// The image could not be encoded.
    Encoding(png::EncodingError),
}

/// `png::EncodingError`, carried through as it is.
#[verifier::external_type_specification]
#[verifier::external_body]
pub struct ExEncodingError(png::EncodingError);

/// What is said of a failure, where this library has words for it; an encoder's failure
/// speaks for itself.
pub fn error_message(error: &ScreenshotError) -> (message: Option<String>)
    ensures
        message is Some <==> error is EmptyFrame,
        message matches Some(text) ==> text@ == "screenshot: empty frame"@,
{
    match error {
        ScreenshotError::EmptyFrame => Some("screenshot: empty frame".to_owned()),
        ScreenshotError::Encoding(_) => None,
    }
}

/// The file that `png` makes of an image of three bytes a pixel, if it makes one.
pub uninterp spec fn png_file(width: u32, height: u32, rgb: Seq<u8>) -> Option<Seq<u8>>;

/// `png::Encoder` with eight bits for each of three colours and fast compression,
/// up to `Writer::write_image_data`; the end of the file is written when the writer
/// is dropped. The bytes are named, not described. The encoder refuses an image without
/// pixels; other than that only the writer can fail, and memory does not. The size of
/// the image has to match its bytes, and a row must not be so long that the 32 bits in
/// which the compressor counts a run of zero bytes overflow.
#[verifier::external_body]
fn encode_rgb(width: u32, height: u32, rgb: &Vec<u8>) -> (file: Result<
    Vec<u8>,
    png::EncodingError,
>)
    requires
        rgb@.len() == 3 * width * height,
        3 * width <= MAX_ROW_BYTES,
    ensures
        match file {
            Ok(bytes) => png_file(width, height, rgb@) == Some(bytes@),
            Err(_) => png_file(width, height, rgb@) is None,
        },
        file is Ok == (0 < width && 0 < height),
{
    let mut file = Vec::new();
    let mut encoder = png::Encoder::new(&mut file, width, height);
    encoder.set_color(png::ColorType::Rgb);
    encoder.set_depth(png::BitDepth::Eight);
    encoder.set_compression(png::Compression::Fast);
    let mut writer = encoder.write_header()?;
    writer.write_image_data(rgb)?;
    drop(writer);
    Ok(file)
}

/// The luma and chroma bytes of a pixel; four neighbouring pixels share their chroma.
pub open spec fn pixel_yuv<T>(frame: YuvFrame<T>, row: int, x: int) -> (u8, u8, u8) {
    let chroma = (row / 2) * frame.uv_stride + x / 2;
    (frame.y@[row * frame.y_stride + x], frame.u@[chroma], frame.v@[chroma])
}

/// Whether the planes of a frame hold all its pixels, if it has any, and an image of it
/// can be held in memory and encoded.
pub open spec fn has_all_pixels<T>(frame: YuvFrame<T>) -> bool {
    frame.width == 0 || frame.height == 0 || {
        let last_luma = (frame.height - 1) * frame.y_stride + (frame.width - 1);
        let last_chroma = ((frame.height - 1) / 2) * frame.uv_stride + (frame.width - 1) / 2;
        &&& 0 < frame.width
        &&& 0 < frame.height
        &&& 0 <= frame.y_stride
        &&& 0 <= frame.uv_stride
        &&& 3 * frame.width <= MAX_ROW_BYTES
        &&& 3 * frame.width * frame.height <= isize::MAX
        &&& last_luma < frame.y@.len()
        &&& last_chroma < frame.u@.len()
        &&& last_chroma < frame.v@.len()
    }
}

/// Whether the planes of a frame hold all its pixels, if it has any, and an image of it
/// can be held in memory and encoded.
pub fn holds_all_pixels<T>(frame: &YuvFrame<T>) -> (complete: bool)
    ensures
        complete == has_all_pixels(*frame),
{
    if frame.width == 0 || frame.height == 0 {
        return true;
    }
    if frame.width < 0 || frame.height < 0 || frame.y_stride < 0 || frame.uv_stride < 0 {
        return false;
    }
    let width: u128 = frame.width as u128;
    let height: u128 = frame.height as u128;
    let y_stride: u128 = frame.y_stride as u128;
    let uv_stride: u128 = frame.uv_stride as u128;
    proof {
        lemma_small_product(width as int, height as int);
        assert(3 * frame.width * frame.height == 3 * (width * height)) by (nonlinear_arith)
            requires
                width == frame.width,
                height == frame.height,
        ;
        lemma_small_product(height - 1, y_stride as int);
        lemma_small_product((height - 1) / 2, uv_stride as int);
    }
    let last_luma: u128 = (height - 1) * y_stride + (width - 1);
    let last_chroma: u128 = ((height - 1) / 2) * uv_stride + (width - 1) / 2;
    3 * width <= MAX_ROW_BYTES as u128 && 3 * (width * height) <= isize::MAX as u128 && last_luma
        < frame.y.len() as u128 && last_chroma < frame.u.len() as u128 && last_chroma
        < frame.v.len() as u128
}

/// The frames of this player are whole: a picture whose rows are as long as its strides
/// say, of whatever height, gives a frame with all its pixels.
pub proof fn law_frames_have_all_pixels<T>(
    frame: YuvFrame<T>,
    picture: Picture,
    y: Seq<u8>,
    u: Seq<u8>,
    v: Seq<u8>,
    pts_sec: T,
    frame_gen: u64,
)
    requires
        shows(frame, picture, y, u, v, pts_sec, frame_gen),
        picture.fits(y.len() as int, u.len() as int, v.len() as int),
        picture.width <= picture.y_stride <= i32::MAX,
        (picture.width + 1) / 2 <= picture.uv_stride <= i32::MAX,
        picture.height <= i32::MAX,
        3 * picture.width <= MAX_ROW_BYTES,
        3 * picture.width * picture.height <= isize::MAX,
    ensures
        has_all_pixels(frame),
{
    if picture.width > 0 && picture.height > 0 {
        law_frames_are_planar(frame, picture, y, u, v, pts_sec, frame_gen);
        let (w, h) = (frame.width as int, frame.height as int);
        let (ys, uvs) = (frame.y_stride as int, frame.uv_stride as int);
        assert((h - 1) * ys + (w - 1) < ys * h) by (nonlinear_arith)
            requires
                w <= ys,
        ;
        let above = (h - 1) / 2;
        assert(above + 1 == (h + 1) / 2);
        assert((w - 1) / 2 < (w + 1) / 2);
        assert(above * uvs + (w - 1) / 2 < uvs * (above + 1)) by (nonlinear_arith)
            requires
                (w - 1) / 2 < uvs,
        ;
    }
}

proof fn lemma_small_product(a: int, b: int)
    requires
        0 <= a <= 0x7fff_ffff,
        0 <= b <= 0x7fff_ffff,
    ensures
        0 <= a * b <= 0x4000_0000_0000_0000,
{
    assert(0 <= a * b <= 0x7fff_ffff * 0x7fff_ffff) by (nonlinear_arith)
        requires
            0 <= a <= 0x7fff_ffff,
            0 <= b <= 0x7fff_ffff,
    ;
}

/// Whether the three bytes at `at` are a colour that `convert` gives for `yuv`.
pub open spec fn is_color<F: Fn(u8, u8, u8) -> (u8, u8, u8)>(
    convert: F,
    yuv: (u8, u8, u8),
    rgb: Seq<u8>,
    at: int,
) -> bool {
    call_ensures(convert, (yuv.0, yuv.1, yuv.2), (rgb[at], rgb[at + 1], rgb[at + 2]))
}

/// Whether `rgb` is the image of a frame: row by row from the top, each row from the
/// left, three bytes for each pixel.
pub open spec fn is_image<T, F: Fn(u8, u8, u8) -> (u8, u8, u8)>(
    frame: YuvFrame<T>,
    convert: F,
    rgb: Seq<u8>,
) -> bool {
    &&& rgb.len() == 3 * frame.width * frame.height
    &&& forall|row: int, x: int|
        0 <= row < frame.height && 0 <= x < frame.width ==> #[trigger] is_color(
            convert,
            pixel_yuv(frame, row, x),
            rgb,
            3 * (row * frame.width + x),
        )
}

proof fn lemma_plane_offset(row: int, rows: int, stride: int, x: int, width: int, len: int)
    requires
        0 <= row < rows,
        0 <= x < width,
        0 <= stride,
        (rows - 1) * stride + (width - 1) < len,
    ensures
        0 <= row * stride + x < len,
        0 <= row * stride <= (rows - 1) * stride,
{
    assert(0 <= row * stride <= (rows - 1) * stride) by (nonlinear_arith)
        requires
            0 <= row <= rows - 1,
            0 <= stride,
    ;
}

proof fn lemma_pixels_in_order(row: int, x: int, width: int, later_row: int, later_x: int)
    requires
        0 <= x < width,
        0 <= later_x <= width,
        row < later_row || row == later_row && x < later_x,
    ensures
        row * width + x < later_row * width + later_x,
{
    if row < later_row {
        assert(row * width + width <= later_row * width) by (nonlinear_arith)
            requires
                row + 1 <= later_row,
                0 <= width,
        ;
    }
}

/// The image of a frame, with the colours that `convert` gives.
pub fn render_rgb<T, F: Fn(u8, u8, u8) -> (u8, u8, u8)>(frame: &YuvFrame<T>, convert: F) -> (rgb:
    Vec<u8>)
    requires
        has_all_pixels(*frame),
        forall|y: u8, u: u8, v: u8| call_requires(convert, (y, u, v)),
    ensures
        is_image(*frame, convert, rgb@),
{
    let mut rgb: Vec<u8> = Vec::new();
    if frame.width == 0 || frame.height == 0 {
        assert(3 * frame.width * frame.height == 0) by (nonlinear_arith)
            requires
                frame.width == 0 || frame.height == 0,
        ;
        return rgb;
    }
    let width: usize = frame.width as usize;
    let height: usize = frame.height as usize;
    let y_stride: usize = frame.y_stride as usize;
    let uv_stride: usize = frame.uv_stride as usize;
    let y_len: usize = frame.y.len();
    let u_len: usize = frame.u.len();
    let v_len: usize = frame.v.len();
    let mut row: usize = 0;
    while row < height
        invariant
            width == frame.width,
            height == frame.height,
            y_stride == frame.y_stride,
            uv_stride == frame.uv_stride,
            0 < width,
            row <= height,
            y_len == frame.y@.len(),
            u_len == frame.u@.len(),
            v_len == frame.v@.len(),
            has_all_pixels(*frame),
            forall|y: u8, u: u8, v: u8| call_requires(convert, (y, u, v)),
            rgb@.len() == 3 * (row * width),
            forall|r: int, c: int|
                0 <= r < row && 0 <= c < width ==> #[trigger] is_color(
                    convert,
                    pixel_yuv(*frame, r, c),
                    rgb@,
                    3 * (r * frame.width + c),
                ),
        decreases height - row,
    {
        proof {
            lemma_plane_offset(
                row as int,
                height as int,
                y_stride as int,
                0,
                width as int,
                y_len as int,
            );
            assert((height - 1) / 2 + 1 > row as int / 2);
            lemma_plane_offset(
                row as int / 2,
                (height - 1) / 2 + 1,
                uv_stride as int,
                0,
                (width - 1) / 2 + 1,
                u_len as int,
            );
        }
        let luma: usize = row * y_stride;
        let chroma: usize = (row / 2) * uv_stride;
        let mut x: usize = 0;
        while x < width
            invariant
                width == frame.width,
                height == frame.height,
                y_stride == frame.y_stride,
                uv_stride == frame.uv_stride,
                0 < width,
                row < height,
                x <= width,
                y_len == frame.y@.len(),
                u_len == frame.u@.len(),
                v_len == frame.v@.len(),
                luma == row * y_stride,
                chroma == (row as int / 2) * uv_stride,
                has_all_pixels(*frame),
                forall|y: u8, u: u8, v: u8| call_requires(convert, (y, u, v)),
                rgb@.len() == 3 * (row * width + x),
                forall|r: int, c: int|
                    0 <= r && 0 <= c < width && (r < row || r == row && c < x)
                        ==> #[trigger] is_color(
                        convert,
                        pixel_yuv(*frame, r, c),
                        rgb@,
                        3 * (r * frame.width + c),
                    ),
            decreases width - x,
        {
            proof {
                lemma_plane_offset(
                    row as int,
                    height as int,
                    y_stride as int,
                    x as int,
                    width as int,
                    y_len as int,
                );
                lemma_plane_offset(
                    row as int / 2,
                    (height - 1) / 2 + 1,
                    uv_stride as int,
                    x as int / 2,
                    (width - 1) / 2 + 1,
                    u_len as int,
                );
                lemma_plane_offset(
                    row as int / 2,
                    (height - 1) / 2 + 1,
                    uv_stride as int,
                    x as int / 2,
                    (width - 1) / 2 + 1,
                    v_len as int,
                );
            }
            let ghost before = rgb@;
            let at: usize = chroma + x / 2;
            let (red, green, blue) = convert(frame.y[luma + x], frame.u[at], frame.v[at]);
            rgb.push(red);
            rgb.push(green);
            rgb.push(blue);
            proof {
                let here = 3 * (row * frame.width + x);
                assert(before.len() == here);
                assert(is_color(convert, pixel_yuv(*frame, row as int, x as int), rgb@, here));
                assert forall|r: int, c: int|
                    0 <= r && 0 <= c < width && (r < row || r == row && c < x + 1) implies #[trigger] is_color(
                    convert,
                    pixel_yuv(*frame, r, c),
                    rgb@,
                    3 * (r * frame.width + c),
                ) by {
                    if r < row || c < x {
                        let there = 3 * (r * frame.width + c);
                        lemma_pixels_in_order(r, c, width as int, row as int, x as int);
                        assert(0 <= r * frame.width) by (nonlinear_arith)
                            requires
                                0 <= r,
                                0 <= frame.width,
                        ;
                        assert(is_color(convert, pixel_yuv(*frame, r, c), before, there));
                        assert(rgb@[there] == before[there]);
                        assert(rgb@[there + 1] == before[there + 1]);
                        assert(rgb@[there + 2] == before[there + 2]);
                    }
                }
            }
            x = x + 1;
        }
        assert(row * width + width == (row + 1) * width) by (nonlinear_arith);
        row = row + 1;
    }
    assert(3 * (height * width) == 3 * frame.width * frame.height) by (nonlinear_arith)
        requires
            width == frame.width,
            height == frame.height,
    ;
    rgb
}

/// Encodes an image of three bytes a pixel as a file.
pub fn encode_image(width: u32, height: u32, rgb: &Vec<u8>) -> (file: Result<
    Vec<u8>,
    ScreenshotError,
>)
    requires
        rgb@.len() == 3 * width * height,
        3 * width <= MAX_ROW_BYTES,
    ensures
        match file {
            Ok(bytes) => png_file(width, height, rgb@) == Some(bytes@),
            Err(e) => e is Encoding && png_file(width, height, rgb@) is None,
        },
        file is Ok == (0 < width && 0 < height),
{
    match encode_rgb(width, height, rgb) {
        Ok(bytes) => Ok(bytes),
        Err(e) => Err(ScreenshotError::Encoding(e)),
    }
}

/// A screenshot: the name of its file, and what the file holds.
pub struct Screenshot {
    pub name: String,
    pub bytes: Vec<u8>,
}

/// The name of a screenshot that is taken `seconds` after the epoch.
pub open spec fn name_of(seconds: nat) -> Seq<char> {
    "auv_"@ + decimal(seconds) + ".png"@
}

/// Whether a screenshot has the name for `seconds` and shows the image `rgb` of a frame.
pub open spec fn is_screenshot<T, F: Fn(u8, u8, u8) -> (u8, u8, u8)>(
    frame: YuvFrame<T>,
    convert: F,
    seconds: nat,
    rgb: Seq<u8>,
    shot: Screenshot,
) -> bool {
    &&& is_image(frame, convert, rgb)
    &&& shot.name@ == name_of(seconds)
    &&& png_file(frame.width as u32, frame.height as u32, rgb) == Some(shot.bytes@)
}

/// Whether a frame has no pixels.
pub open spec fn is_empty_frame<T>(frame: YuvFrame<T>) -> bool {
    frame.width == 0 || frame.height == 0
}

/// Takes a screenshot of a frame, `seconds` after the epoch, with the colours that
/// `convert` gives.
pub fn save_screenshot<T, F: Fn(u8, u8, u8) -> (u8, u8, u8)>(
    frame: &YuvFrame<T>,
    convert: F,
    seconds: u64,
) -> (shot: Result<Screenshot, ScreenshotError>)
    requires
        has_all_pixels(*frame),
        forall|y: u8, u: u8, v: u8| call_requires(convert, (y, u, v)),
    ensures
        frame.width == 0 || frame.height == 0 ==> shot == Err::<Screenshot, ScreenshotError>(
            ScreenshotError::EmptyFrame,
        ),
        shot is Err <==> frame.width == 0 || frame.height == 0,
        shot is Err <==> is_empty_frame(*frame),
        shot matches Ok(s) ==> exists|rgb: Seq<u8>|
            #[trigger] is_screenshot(*frame, convert, seconds as nat, rgb, s),
{
    if frame.width == 0 || frame.height == 0 {
        return Err(ScreenshotError::EmptyFrame);
    }
    let rgb = render_rgb(frame, convert);
    match encode_image(frame.width as u32, frame.height as u32, &rgb) {
        Ok(bytes) => {
            let name = screenshot_name(seconds);
            let shot = Ok(Screenshot { name, bytes });
            assert(is_screenshot(*frame, convert, seconds as nat, rgb@, shot->Ok_0));
            shot
        },
        Err(e) => Err(e),
    }
}

/// The name of a screenshot that is taken `seconds` after the epoch.
pub fn screenshot_name(seconds: u64) -> (name: String)
    ensures
        name@ == name_of(seconds as nat),
{
    let mut name = "auv_".to_owned();
    push_decimal(&mut name, seconds);
    name.append(".png");
    name
}

/// A conversion of colours that gives one colour for each pixel gives one image of each
/// frame: nothing but the frame and the conversion decides what a screenshot shows.
pub proof fn law_image_is_determined<T, F: Fn(u8, u8, u8) -> (u8, u8, u8)>(
    frame: YuvFrame<T>,
    convert: F,
    first: Seq<u8>,
    second: Seq<u8>,
)
    requires
        0 <= frame.width,
        0 <= frame.height,
        forall|y: u8, u: u8, v: u8, a: (u8, u8, u8), b: (u8, u8, u8)|
            #![trigger call_ensures(convert, (y, u, v), a), call_ensures(convert, (y, u, v), b)]
            call_ensures(convert, (y, u, v), a) && call_ensures(convert, (y, u, v), b) ==> a == b,
        is_image(frame, convert, first),
        is_image(frame, convert, second),
    ensures
        first == second,
{
    let width = frame.width as int;
    let height = frame.height as int;
    assert forall|i: int| 0 <= i < first.len() implies first[i] == second[i] by {
        let pixel = i / 3;
        if width == 0 {
            assert(3 * width * height == 0) by (nonlinear_arith)
                requires
                    width == 0,
            ;
        }
        let row = pixel / width;
        let x = pixel % width;
        lemma_fundamental_div_mod(pixel, width);
        assert(width * row == row * width) by (nonlinear_arith);
        assert(0 <= row < height) by (nonlinear_arith)
            requires
                0 <= pixel,
                3 * pixel < 3 * width * height,
                pixel == row * width + x,
                0 <= x < width,
        ;
        let at = 3 * (row * frame.width + x);
        law_pixels_have_their_colors(frame, convert, first, row, x);
        law_pixels_have_their_colors(frame, convert, second, row, x);
        assert(at <= i < at + 3);
    }
    assert(first =~= second);
}

/// Screenshots of different seconds have different names.
pub proof fn law_names_differ(seconds: nat, other: nat)
    requires
        name_of(seconds) == name_of(other),
    ensures
        seconds == other,
{
    let name = name_of(seconds);
    let digits = decimal(seconds);
    let other_digits = decimal(other);
    assert(name.len() == other_digits.len() + "auv_"@.len() + ".png"@.len());
    assert forall|i: int| 0 <= i < digits.len() implies digits[i] == other_digits[i] by {
        assert(name[i + "auv_"@.len()] == digits[i]);
        assert(name_of(other)[i + "auv_"@.len()] == other_digits[i]);
    }
    assert(digits =~= other_digits);
    law_decimal_reads_back(seconds);
    law_decimal_reads_back(other);
}

/// Every pixel of the image has a colour of that pixel of the frame: the one that the
/// conversion gives for the byte of luma at its place and the bytes of the two chroma
/// planes, in this order, at the place that it shares with its neighbours.
pub proof fn law_pixels_have_their_colors<T, F: Fn(u8, u8, u8) -> (u8, u8, u8)>(
    frame: YuvFrame<T>,
    convert: F,
    rgb: Seq<u8>,
    row: int,
    x: int,
)
    requires
        is_image(frame, convert, rgb),
        0 <= row < frame.height,
        0 <= x < frame.width,
    ensures
        ({
            let at = 3 * (row * frame.width + x);
            let y = frame.y@[row * frame.y_stride + x];
            let u = frame.u@[(row / 2) * frame.uv_stride + x / 2];
            let v = frame.v@[(row / 2) * frame.uv_stride + x / 2];
            call_ensures(convert, (y, u, v), (rgb[at], rgb[at + 1], rgb[at + 2]))
        }),
        rgb.len() == 3 * frame.width * frame.height,
{
    assert(is_color(
        convert,
        pixel_yuv(frame, row, x),
        rgb,
        3 * (row * frame.width + x),
    ));
}

/// A frame has all its pixels only if the planes hold the bytes of each of them.
pub proof fn law_all_pixels_are_in_the_planes<T>(frame: YuvFrame<T>, row: int, x: int)
    requires
        has_all_pixels(frame),
        0 <= row < frame.height,
        0 <= x < frame.width,
    ensures
        0 <= row * frame.y_stride + x < frame.y@.len(),
        0 <= (row / 2) * frame.uv_stride + x / 2 < frame.u@.len(),
        0 <= (row / 2) * frame.uv_stride + x / 2 < frame.v@.len(),
        3 * frame.width <= 0xffff_ff00,
        3 * frame.width * frame.height <= isize::MAX,
{
    let (w, h) = (frame.width as int, frame.height as int);
    lemma_plane_offset(row, h, frame.y_stride as int, x, w, frame.y@.len() as int);
    lemma_plane_offset(
        row / 2,
        (h - 1) / 2 + 1,
        frame.uv_stride as int,
        x / 2,
        (w - 1) / 2 + 1,
        frame.u@.len() as int,
    );
    lemma_plane_offset(
        row / 2,
        (h - 1) / 2 + 1,
        frame.uv_stride as int,
        x / 2,
        (w - 1) / 2 + 1,
        frame.v@.len() as int,
    );
}

/// A frame whose planes hold the last pixel has all of them, and an empty frame lacks none.
pub proof fn law_last_pixel_is_enough<T>(frame: YuvFrame<T>)
    ensures
        frame.width == 0 || frame.height == 0 ==> has_all_pixels(frame),
        frame.width > 0 && frame.height > 0 && frame.y_stride >= 0 && frame.uv_stride >= 0 && 3
            * frame.width <= 0xffff_ff00 && 3 * frame.width * frame.height <= isize::MAX && (
        frame.height - 1) * frame.y_stride + (frame.width - 1) < frame.y@.len() && ((frame.height
            - 1) / 2) * frame.uv_stride + (frame.width - 1) / 2 < frame.u@.len() && ((frame.height
            - 1) / 2) * frame.uv_stride + (frame.width - 1) / 2 < frame.v@.len() ==> has_all_pixels(
            frame,
        ),
{
}

/// A screenshot holds the file that is made of the frame's image at the frame's own size,
/// and is named by its time.
pub proof fn law_screenshot_is_the_image<T, F: Fn(u8, u8, u8) -> (u8, u8, u8)>(
    frame: YuvFrame<T>,
    convert: F,
    seconds: nat,
    rgb: Seq<u8>,
    shot: Screenshot,
)
    requires
        is_screenshot(frame, convert, seconds, rgb, shot),
    ensures
        png_file(frame.width as u32, frame.height as u32, rgb) == Some(shot.bytes@),
        shot.name@ == name_of(seconds),
        forall|row: int, x: int|
            0 <= row < frame.height && 0 <= x < frame.width ==> {
                let y = frame.y@[row * frame.y_stride + x];
                let u = frame.u@[(row / 2) * frame.uv_stride + x / 2];
                let v = frame.v@[(row / 2) * frame.uv_stride + x / 2];
                call_ensures(
                    convert,
                    (y, u, v),
                    (
                        rgb[#[trigger] (3 * (row * frame.width + x))],
                        rgb[3 * (row * frame.width + x) + 1],
                        rgb[3 * (row * frame.width + x) + 2],
                    ),
                )
            },
{
    assert forall|row: int, x: int|
        0 <= row < frame.height && 0 <= x < frame.width implies ({
        let y = frame.y@[row * frame.y_stride + x];
        let u = frame.u@[(row / 2) * frame.uv_stride + x / 2];
        let v = frame.v@[(row / 2) * frame.uv_stride + x / 2];
        call_ensures(
            convert,
            (y, u, v),
            (
                rgb[#[trigger] (3 * (row * frame.width + x))],
                rgb[3 * (row * frame.width + x) + 1],
                rgb[3 * (row * frame.width + x) + 2],
            ),
        )
    }) by {
        law_pixels_have_their_colors(frame, convert, rgb, row, x);
    }
}

/// The name of a screenshot is `auv_`, the seconds in decimal, and `.png`.
pub proof fn law_name_tells_the_time(seconds: nat)
    ensures
        ({
            let name = name_of(seconds);
            let n = name.len() as int;
            &&& n > 8
            &&& name.take(4) == seq!['a', 'u', 'v', '_']
            &&& read_decimal(name.subrange(4, n - 4)) == seconds
            &&& name.skip(n - 4) == seq!['.', 'p', 'n', 'g']
        }),
{
    reveal_strlit("auv_");
    reveal_strlit(".png");
    let name = name_of(seconds);
    let n = name.len() as int;
    assert(name.take(4) =~= seq!['a', 'u', 'v', '_']);
    assert(name.subrange(4, n - 4) =~= decimal(seconds));
    assert(name.skip(n - 4) =~= seq!['.', 'p', 'n', 'g']);
    law_decimal_reads_back(seconds);
}

/// A frame with all its pixels is empty unless it has a row and a column, and then its
/// planes hold the pixel where they meet.
pub proof fn law_frames_with_pixels_are_not_empty<T>(frame: YuvFrame<T>)
    requires
        has_all_pixels(frame),
    ensures
        !is_empty_frame(frame) <==> frame.width >= 1 && frame.height >= 1,
        !is_empty_frame(frame) ==> frame.y@.len() >= 1 && frame.u@.len() >= 1 && frame.v@.len()
            >= 1,
{
    if !is_empty_frame(frame) {
        law_all_pixels_are_in_the_planes(frame, 0, 0);
    }
}

} // verus!
