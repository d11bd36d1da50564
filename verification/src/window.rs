//! The window: its size, its place and its title.

use crate::text::{decimal2, push_decimal2};
use vstd::prelude::*;

verus! {

/// What is left free of the screen's width.
pub const SCREEN_MARGIN_W: u32 = 40;

/// What is left free of the screen's height.
pub const SCREEN_MARGIN_H: u32 = 100;

/// How far above the middle of the screen the window stands.
pub const RAISED_BY: i32 = 20;

/// The size that is left of a screen.
pub open spec fn room_on(screen_w: int, screen_h: int) -> (int, int) {
    (screen_w - SCREEN_MARGIN_W, screen_h - SCREEN_MARGIN_H)
}

/// The largest window that a screen has room for.
pub fn largest_window(screen_w: u32, screen_h: u32) -> (largest: (u32, u32))
    requires
        screen_w >= SCREEN_MARGIN_W,
        screen_h >= SCREEN_MARGIN_H,
    ensures
        largest.0 == screen_w - SCREEN_MARGIN_W,
        largest.1 == screen_h - SCREEN_MARGIN_H,
        (largest.0 as int, largest.1 as int) == room_on(screen_w as int, screen_h as int),
{
    (screen_w - SCREEN_MARGIN_W, screen_h - SCREEN_MARGIN_H)
}

/// How a picture is fitted into the largest window.
#[derive(Clone, Copy)]
pub enum Fit {
    /// At its own size.
    Native,
    /// At the full width; the height follows from the shape of the picture.
    FullWidth,
    /// At the full height; the width follows from the shape of the picture.
    FullHeight,
}

/// Whether one size is wider in shape than another: `w / h > other_w / other_h`.
pub open spec fn is_wider(w: int, h: int, other_w: int, other_h: int) -> bool {
    w * other_h > other_w * h
}

/// How a picture is fitted.
pub open spec fn fit_of(video_w: int, video_h: int, max_w: int, max_h: int) -> Fit {
    if video_w <= max_w && video_h <= max_h {
        Fit::Native
    } else if is_wider(video_w, video_h, max_w, max_h) {
        Fit::FullWidth
    } else {
        Fit::FullHeight
    }
}

/// Decides how a picture is fitted.
pub fn calc_display_size(video_w: u32, video_h: u32, max_w: u32, max_h: u32) -> (fit: Fit)
    ensures
        fit == (if video_w <= max_w && video_h <= max_h {
            Fit::Native
        } else if is_wider(video_w as int, video_h as int, max_w as int, max_h as int) {
            Fit::FullWidth
        } else {
            Fit::FullHeight
        }),
        fit == fit_of(video_w as int, video_h as int, max_w as int, max_h as int),
{
    if video_w <= max_w && video_h <= max_h {
        return Fit::Native;
    }
    assert(video_w * max_h <= 0xffff_ffff * 0xffff_ffff) by (nonlinear_arith)
        requires
            video_w <= 0xffff_ffff,
            max_h <= 0xffff_ffff,
    ;
    assert(max_w * video_h <= 0xffff_ffff * 0xffff_ffff) by (nonlinear_arith)
        requires
            max_w <= 0xffff_ffff,
            video_h <= 0xffff_ffff,
    ;
    let across: u64 = video_w as u64 * max_h as u64;
    let down: u64 = max_w as u64 * video_h as u64;
    if across > down {
        Fit::FullWidth
    } else {
        Fit::FullHeight
    }
}

/// A fitted picture never exceeds the largest window: the side that follows from the
/// shape of the picture, before rounding, is at most as long as there is room.
pub proof fn law_fitted_picture_has_room(video_w: u32, video_h: u32, max_w: u32, max_h: u32)
    requires
        0 < video_w,
        0 < video_h,
    ensures
        is_wider(video_w as int, video_h as int, max_w as int, max_h as int) ==> max_w * video_h
            <= max_h * video_w,
        !is_wider(video_w as int, video_h as int, max_w as int, max_h as int) ==> max_h * video_w
            <= max_w * video_h,
{
    assert(video_w * max_h == max_h * video_w) by (nonlinear_arith);
}

/// Half of what is left beside the window, or nothing.
pub open spec fn centered(screen: int, window: int) -> int {
    if screen <= window {
        0
    } else {
        (screen - window) / 2
    }
}

/// Where a window stands.
pub open spec fn position_of(screen_w: int, screen_h: int, win_w: int, win_h: int) -> (int, int) {
    let middle = centered(screen_h, win_h);
    (
        centered(screen_w, win_w),
        if middle < RAISED_BY {
            0
        } else {
            middle - RAISED_BY
        },
    )
}

/// Where a window stands: in the middle of the screen, a little raised, and never
/// beyond its upper left corner.
pub fn window_position(screen_w: i32, screen_h: i32, win_w: i32, win_h: i32) -> (position: (
    i32,
    i32,
))
    requires
        i32::MIN <= screen_w - win_w <= i32::MAX,
        i32::MIN <= screen_h - win_h <= i32::MAX,
    ensures
        position.0 == centered(screen_w as int, win_w as int),
        position.1 == (if centered(screen_h as int, win_h as int) < RAISED_BY {
            0
        } else {
            centered(screen_h as int, win_h as int) - RAISED_BY
        }),
        (position.0 as int, position.1 as int) == position_of(
            screen_w as int,
            screen_h as int,
            win_w as int,
            win_h as int,
        ),
{
    let x: i32 = if screen_w <= win_w {
        0
    } else {
        (screen_w - win_w) / 2
    };
    let middle: i32 = if screen_h <= win_h {
        0
    } else {
        (screen_h - win_h) / 2
    };
    let y: i32 = if middle < RAISED_BY {
        0
    } else {
        middle - RAISED_BY
    };
    (x, y)
}

/// Minutes and seconds, each in at least two digits.
pub open spec fn clock_text(seconds: nat) -> Seq<char> {
    decimal2(seconds / 60) + ":"@ + decimal2(seconds % 60)
}

/// Writes a time as minutes and seconds.
pub fn format_time(sec: u64) -> (text: String)
    ensures
        text@ == clock_text(sec as nat),
{
    let mut text = String::new();
    push_decimal2(&mut text, sec / 60);
    text.append(":");
    push_decimal2(&mut text, sec % 60);
    assert(text@ =~= clock_text(sec as nat));
    text
}

/// The title of the window while a source plays.
pub open spec fn title_of(source: Seq<char>) -> Seq<char> {
    "AUV (A/V Sync Engine) - "@ + source
}

/// The title of the window while a source plays.
pub fn window_title(source: &str) -> (title: String)
    ensures
        title@ == "AUV (A/V Sync Engine) - "@ + source@,
        title@ == title_of(source@),
{
    let mut title = "AUV (A/V Sync Engine) - ".to_owned();
    title.append(source);
    title
}

/// A title with the position, and the duration where it is known.
pub open spec fn titled(title: Seq<char>, position: nat, duration: Option<u64>) -> Seq<char> {
    match duration {
        Some(d) => title + " ["@ + clock_text(position) + "/"@ + clock_text(d as nat) + "]"@,
        None => title + " ["@ + clock_text(position) + "]"@,
    }
}

/// The position that the title shows.
#[derive(Clone, Copy)]
pub struct TitleClock {
    /// The last second that was shown; the largest number stands for none.
    pub shown: u64,
}

impl TitleClock {
    /// Nothing was shown yet.
    pub fn new() -> (clock: TitleClock)
        ensures
            clock.shown == u64::MAX,
    {
        TitleClock { shown: u64::MAX }
    }

    /// The new title, where the second has changed.
    pub open spec fn label_for(
        self,
        title: Seq<char>,
        position: u64,
        duration: Option<u64>,
    ) -> Option<Seq<char>> {
        if position == self.shown {
            None
        } else {
            Some(titled(title, position as nat, duration))
        }
    }

    /// The new title, where the second has changed.
    pub fn update(&mut self, title: &str, position: u64, duration: Option<u64>) -> (label: Option<
        String,
    >)
        ensures
            final(self).shown == position,
            label is Some <==> position != old(self).shown,
            label matches Some(text) ==> text@ == titled(title@, position as nat, duration),
            match label {
                Some(text) => old(self).label_for(title@, position, duration) == Some(text@),
                None => old(self).label_for(title@, position, duration) is None,
            },
    {
        if position == self.shown {
            return None;
        }
        self.shown = position;
        let mut text = title.to_owned();
        text.append(" [");
        text.append(format_time(position).as_str());
        if let Some(d) = duration {
            text.append("/");
            text.append(format_time(d).as_str());
        }
        text.append("]");
        Some(text)
    }
}

/// A time reads back: what stands before and behind the colon makes up the seconds, and
/// less than a minute stands behind it.
pub proof fn law_time_reads_back(seconds: nat)
    ensures
        crate::text::read_decimal(decimal2(seconds / 60)) * 60 + crate::text::read_decimal(
            decimal2(seconds % 60),
        ) == seconds,
        crate::text::read_decimal(decimal2(seconds % 60)) < 60,
        decimal2(seconds % 60).len() == 2,
{
    crate::text::law_decimal_reads_back(seconds / 60);
    crate::text::law_decimal_reads_back(seconds % 60);
    reveal_with_fuel(crate::text::decimal, 2);
}

/// The largest window leaves a margin of the screen, more of its height than of its width.
pub proof fn law_margin_is_left(screen_w: int, screen_h: int)
    ensures
        room_on(screen_w, screen_h).0 + 40 == screen_w,
        room_on(screen_w, screen_h).1 + 100 == screen_h,
{
}

/// A picture keeps its size exactly if it fits; else it fills the width if there is then
/// room for its height, and the height if not.
pub proof fn law_picture_is_fitted(video_w: int, video_h: int, max_w: int, max_h: int)
    ensures
        fit_of(video_w, video_h, max_w, max_h) is Native <==> video_w <= max_w && video_h <= max_h,
        fit_of(video_w, video_h, max_w, max_h) is FullWidth <==> (video_w > max_w || video_h
            > max_h) && max_w * video_h < video_w * max_h,
        fit_of(video_w, video_h, max_w, max_h) is FullHeight <==> (video_w > max_w || video_h
            > max_h) && max_w * video_h >= video_w * max_h,
{
}

/// The window is in the middle of the screen to within a pixel, twenty pixels raised as far
/// as there is room, and never beyond the upper left corner.
pub proof fn law_window_is_centered(screen_w: int, screen_h: int, win_w: int, win_h: int)
    ensures
        ({
            let (x, y) = position_of(screen_w, screen_h, win_w, win_h);
            &&& x >= 0
            &&& y >= 0
            &&& win_w <= screen_w ==> 2 * x + win_w <= screen_w <= 2 * x + win_w + 1
            &&& win_w >= screen_w ==> x == 0
            &&& win_h + 40 <= screen_h ==> 2 * (y + 20) + win_h <= screen_h <= 2 * (y + 20) + win_h
                + 1
            &&& win_h + 40 >= screen_h ==> y == 0
        }),
{
}

/// A time is written as minutes, a colon and two digits of seconds; no more, and for each
/// time.
pub proof fn law_clock_text_reads_back(seconds: nat)
    ensures
        ({
            let text = clock_text(seconds);
            let colon = text.len() - 3;
            &&& colon >= 2
            &&& text[colon] == ':'
            &&& crate::text::read_decimal(text.take(colon)) * 60 + crate::text::read_decimal(
                text.skip(colon + 1),
            ) == seconds
            &&& crate::text::read_decimal(text.skip(colon + 1)) < 60
            &&& seconds < 6000 <==> colon == 2
        }),
{
    reveal_strlit(":");
    law_time_reads_back(seconds);
    crate::text::law_decimal_reads_back(seconds / 60);
    crate::text::law_numbers_are_written_in_digits(seconds / 60, 0);
    let text = clock_text(seconds);
    let colon = text.len() - 3;
    assert(text.take(colon) =~= decimal2(seconds / 60));
    assert(text.skip(colon + 1) =~= decimal2(seconds % 60));
}

/// The title of a window ends with its source, and starts the same for each.
pub proof fn law_title_names_the_source(source: Seq<char>, other: Seq<char>)
    ensures
        title_of(source).len() == title_of(other).len() - other.len() + source.len(),
        title_of(source).skip(title_of(source).len() - source.len()) == source,
        title_of(source).take(title_of(source).len() - source.len())
            == "AUV (A/V Sync Engine) - "@,
{
    let start = title_of(source).len() - source.len();
    assert(title_of(source).skip(start) =~= source);
    assert(title_of(source).take(start) =~= "AUV (A/V Sync Engine) - "@);
}

/// The title is renewed exactly when another second is reached; it goes on with the
/// position in brackets, and the duration behind a slash where it is known.
pub proof fn law_title_shows_the_position(
    clock: TitleClock,
    title: Seq<char>,
    position: u64,
    duration: Option<u64>,
)
    ensures
        clock.label_for(title, position, duration) is Some <==> position != clock.shown,
        clock.label_for(title, position, duration) matches Some(text) ==> {
            let now = clock_text(position as nat);
            let start = title.len() as int + 2;
            let end = start + now.len();
            &&& text.take(title.len() as int) == title
            &&& text[start - 2] == ' ' && text[start - 1] == '['
            &&& text.subrange(start, end) == now
            &&& text.last() == ']'
            &&& match duration {
                None => text.len() == end + 1,
                Some(d) => {
                    &&& text[end] == '/'
                    &&& text.subrange(end + 1, text.len() - 1) == clock_text(d as nat)
                },
            }
        },
{
    reveal_strlit(" [");
    reveal_strlit("/");
    reveal_strlit("]");
    let text = titled(title, position as nat, duration);
    let now = clock_text(position as nat);
    let start = title.len() as int + 2;
    let end = start + now.len();
    assert(text.take(title.len() as int) =~= title);
    assert(text.subrange(start, end) =~= now);
    if let Some(d) = duration {
        assert(text.subrange(end + 1, text.len() - 1) =~= clock_text(d as nat));
    }
}

} // verus!
