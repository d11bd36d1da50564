//! Sources: how one is opened, which threads it needs, and in what order they play.

use crate::cli::texts;
use crate::clock::{ClockModel, Elapsed, Reading};
use crate::frame::{square_pixel_width, stream_display_size, stream_size};
use crate::text::{
    find_bytes, holds_bytes, law_found_where_it_stands, law_what_is_found_stands_there, starts_with,
};
use vstd::prelude::*;

verus! {

/// How many frames may wait for the window; the video thread waits beyond that.
pub const FRAME_QUEUE: usize = 2;

/// How many packets may wait for the video thread; the demuxer waits beyond that.
pub const VIDEO_QUEUE: usize = 100;

/// How many packets may wait for the audio thread; the demuxer waits beyond that.
pub const AUDIO_QUEUE: usize = 200;

/// Whether a source is a link, which may lead to a page that has to be resolved.
pub open spec fn is_link(source: Seq<char>) -> bool {
    "http://"@.is_prefix_of(source) || "https://"@.is_prefix_of(source)
}

/// The arguments with which the resolver writes the media behind a link to its output.
pub open spec fn resolver_words(source: Seq<char>) -> Seq<Seq<char>> {
    seq![
        "-q"@,
        "--no-playlist"@,
        "--merge-output-format"@,
        "mkv"@,
        "-o"@,
        "-"@,
        source,
    ]
}

/// What comes next after the attempt to open a source directly.
pub enum OpenStep {
    /// Play it.
    Play,
    /// Run the resolver with these arguments, and read what it writes.
    Resolve(Vec<String>),
    /// Report the error of the attempt.
    Fail,
}

/// Whether the resolver is run after the attempt to open a source directly.
pub open spec fn is_resolved(source: Seq<char>, opened: bool) -> bool {
    !opened && is_link(source)
}

/// Decides what follows the attempt to open a source directly.
pub fn open_input(source: &str, opened: bool) -> (step: OpenStep)
    ensures
        step is Play <==> opened,
        step is Fail <==> !opened && !is_link(source@),
        step is Resolve <==> is_resolved(source@, opened),
        step matches OpenStep::Resolve(words) ==> texts(words@) == resolver_words(source@),
{
    if opened {
        return OpenStep::Play;
    }
    if !starts_with(source, "http://") && !starts_with(source, "https://") {
        return OpenStep::Fail;
    }
    let mut words: Vec<String> = Vec::new();
    words.push("-q".to_owned());
    words.push("--no-playlist".to_owned());
    words.push("--merge-output-format".to_owned());
    words.push("mkv".to_owned());
    words.push("-o".to_owned());
    words.push("-".to_owned());
    words.push(source.to_owned());
    assert(texts(words@) =~= resolver_words(source@));
    OpenStep::Resolve(words)
}

/// What is said when the resolver cannot be run.
pub open spec fn resolver_missing_text(direct: Seq<char>, spawning: Seq<char>) -> Seq<char> {
    "direct open failed ("@ + direct + "); spawning yt-dlp failed: "@ + spawning
        + " (install yt-dlp to play page links)"@
}

/// What is said when the resolver cannot be run.
pub fn resolver_missing_message(direct: &str, spawning: &str) -> (message: String)
    ensures
        message@ == "direct open failed ("@ + direct@ + "); spawning yt-dlp failed: "@ + spawning@
            + " (install yt-dlp to play page links)"@,
        message@ == resolver_missing_text(direct@, spawning@),
{
    let mut message = "direct open failed (".to_owned();
    message.append(direct);
    message.append("); spawning yt-dlp failed: ");
    message.append(spawning);
    message.append(" (install yt-dlp to play page links)");
    message
}

/// What is said when what the resolver writes cannot be opened either.
pub open spec fn cannot_open_text(
    source: Seq<char>,
    direct: Seq<char>,
    resolved: Seq<char>,
) -> Seq<char> {
    "Cannot open "@ + source + " (direct: "@ + direct + "; yt-dlp: "@ + resolved + ")"@
}

/// What is said when what the resolver writes cannot be opened either.
pub fn cannot_open_message(source: &str, direct: &str, resolved: &str) -> (message: String)
    ensures
        message@ == "Cannot open "@ + source@ + " (direct: "@ + direct@ + "; yt-dlp: "@ + resolved@
            + ")"@,
        message@ == cannot_open_text(source@, direct@, resolved@),
{
    let mut message = "Cannot open ".to_owned();
    message.append(source);
    message.append(" (direct: ");
    message.append(direct);
    message.append("; yt-dlp: ");
    message.append(resolved);
    message.append(")");
    message
}

/// The shape of a video stream: its size in pixels, and the shape of a pixel.
#[derive(Clone, Copy)]
pub struct VideoShape {
    pub width: u32,
    pub height: u32,
    pub sar_num: i32,
    pub sar_den: i32,
}

/// Why a source cannot be played.
#[derive(Clone, Copy, PartialEq, Eq, Structural)]
pub enum StreamError {
    /// It has no pictures.
    NoVideo,
}

/// The size at which a source is shown, if it has pictures.
pub open spec fn shown_size(video: Option<VideoShape>) -> Option<(u32, u32)> {
    match video {
        None => None,
        Some(shape) => Some(
            stream_size(
                shape.width as int,
                shape.height as int,
                shape.sar_num as int,
                shape.sar_den as int,
            ),
        ),
    }
}

/// The size at which a source is shown: a source without pictures is not played.
pub fn extract_streams(video: Option<VideoShape>) -> (size: Result<(u32, u32), StreamError>)
    ensures
        size == (match video {
            None => Err(StreamError::NoVideo),
            Some(shape) => Ok(
                (
                    square_pixel_width(
                        shape.width as int,
                        shape.sar_num as int,
                        shape.sar_den as int,
                    ) as u32,
                    shape.height,
                ),
            ),
        }),
        size == (match shown_size(video) {
            None => Err(StreamError::NoVideo),
            Some(shown) => Ok(shown),
        }),
{
    match video {
        None => Err(StreamError::NoVideo),
        Some(shape) => Ok(
            stream_display_size(shape.width, shape.height, shape.sar_num, shape.sar_den),
        ),
    }
}

/// What is said of a source without pictures.
pub fn stream_error_message(error: StreamError) -> (message: String)
    ensures
        message@ == "No video stream found"@,
{
    match error {
        StreamError::NoVideo => "No video stream found".to_owned(),
    }
}

/// Which threads a source needs.
#[derive(Clone, Copy, PartialEq, Eq, Structural)]
pub struct ThreadPlan {
    /// Whether one decodes its sound.
    pub audio_thread: bool,
    /// How many have to be ready before the demuxer moves on a seek.
    pub ready_max: usize,
    /// Whether there is no sound to wait for.
    pub audio_done: bool,
}

/// Which threads a source needs.
pub open spec fn threads_of(has_output: bool, has_stream: bool, has_parameters: bool) -> ThreadPlan {
    let audio_thread = has_output && has_stream && has_parameters;
    ThreadPlan {
        audio_thread,
        ready_max: if audio_thread {
            2
        } else {
            1
        },
        audio_done: !has_output || !has_stream,
    }
}

/// Decides which threads a source needs, by whether there is an audio output, whether
/// the source has an audio stream, and whether its parameters are known.
pub fn plan_threads(has_output: bool, has_stream: bool, has_parameters: bool) -> (plan: ThreadPlan)
    ensures
        plan.audio_thread == (has_output && has_stream && has_parameters),
        plan.ready_max == (if plan.audio_thread {
            2int
        } else {
            1
        }),
        plan.audio_done == (!has_output || !has_stream),
        plan == threads_of(has_output, has_stream, has_parameters),
{
    let audio_thread = has_output && has_stream && has_parameters;
    ThreadPlan {
        audio_thread,
        ready_max: if audio_thread {
            2
        } else {
            1
        },
        audio_done: !has_output || !has_stream,
    }
}

/// Whether the clock of a source follows the audio.
pub open spec fn is_heard(has_output: bool, has_stream: bool, has_parameters: bool) -> bool {
    has_output && has_stream && has_parameters
}

/// Decides whether the clock of a source follows the audio: only where an audio output
/// plays what the source has to hear, else time is the system's.
pub fn follow_audio(has_output: bool, has_stream: bool, has_parameters: bool) -> (follow: bool)
    ensures
        follow == (has_output && has_stream && has_parameters),
        follow == is_heard(has_output, has_stream, has_parameters),
{
    has_output && has_stream && has_parameters
}

/// A source that cannot be heard does not stand still: without an audio output, or
/// without sound, its clock shows the time that it has been playing.
pub proof fn law_unheard_source_plays_on<B>(
    clock: ClockModel<B>,
    has_output: bool,
    has_stream: bool,
    has_parameters: bool,
    now: u64,
)
    requires
        clock.has_audio == (has_output && has_stream && has_parameters),
        !has_output || !has_stream || !has_parameters,
    ensures
        clock.reading(now) == (Reading {
            base: clock.base,
            elapsed: Elapsed::Wall { nanos: clock.played_nanos(now) as u64 },
        }),
{
}

/// The duration of a source in microseconds, where it is known.
pub open spec fn duration_of(micros: i64) -> Option<i64> {
    if micros > 0 {
        Some(micros)
    } else {
        None
    }
}

/// The duration of a source in microseconds, where it is known.
pub fn known_duration(micros: i64) -> (duration: Option<i64>)
    ensures
        duration == (if micros > 0 {
            Some(micros)
        } else {
            None
        }),
        duration == duration_of(micros),
{
    if micros > 0 {
        Some(micros)
    } else {
        None
    }
}

/// What became of a source.
#[derive(Clone, Copy, PartialEq, Eq, Structural)]
pub enum SourceOutcome {
    /// It could not be played.
    Skipped,
    /// It was played to its end.
    Played,
    /// The window was closed over it.
    Closed,
}

/// The order of the sources.
#[derive(Clone, Copy, PartialEq, Eq, Structural)]
pub struct Playlist {
    /// The next one.
    pub position: usize,
    /// Whether the window was closed.
    pub closed: bool,
    /// Whether any could be played.
    pub played_any: bool,
}

impl Playlist {
    /// The next of `count` sources.
    pub open spec fn upcoming(self, count: int) -> Option<usize> {
        if self.closed || self.position >= count {
            None
        } else {
            Some(self.position)
        }
    }

    /// After the next source came to its end.
    pub open spec fn after(self, outcome: SourceOutcome) -> Playlist {
        Playlist {
            position: (self.position + 1) as usize,
            closed: outcome == SourceOutcome::Closed,
            played_any: self.played_any || outcome != SourceOutcome::Skipped,
        }
    }

    /// After the next sources came to their end, one after the other.
    pub open spec fn after_all(self, outcomes: Seq<SourceOutcome>) -> Playlist
        decreases outcomes.len(),
    {
        if outcomes.len() == 0 {
            self
        } else {
            self.after_all(outcomes.drop_last()).after(outcomes.last())
        }
    }

    /// Before the first source.
    pub fn new() -> (list: Playlist)
        ensures
            list == (Playlist { position: 0, closed: false, played_any: false }),
    {
        Playlist { position: 0, closed: false, played_any: false }
    }

    /// Which of `count` sources comes next.
    pub fn next(&self, count: usize) -> (index: Option<usize>)
        ensures
            index == self.upcoming(count as int),
    {
        if self.closed || self.position >= count {
            None
        } else {
            Some(self.position)
        }
    }

    /// Takes in what became of the next source.
    pub fn finished(&mut self, outcome: SourceOutcome)
        requires
            old(self).position < usize::MAX,
        ensures
            *final(self) == old(self).after(outcome),
    {
        self.position = self.position + 1;
        self.closed = match outcome {
            SourceOutcome::Closed => true,
            _ => false,
        };
        match outcome {
            SourceOutcome::Skipped => {},
            _ => {
                self.played_any = true;
            },
        }
    }
}

/// Sources play in the order in which they were given, each once, whether or not those
/// before could be played; and playing is reported to have failed exactly when none was.
pub proof fn law_sources_play_in_order(outcomes: Seq<SourceOutcome>, count: usize)
    requires
        outcomes.len() <= count,
        forall|i: int| 0 <= i < outcomes.len() ==> outcomes[i] != SourceOutcome::Closed,
    ensures
        ({
            let start = Playlist { position: 0, closed: false, played_any: false };
            let list = start.after_all(outcomes);
            &&& list.upcoming(count as int) == (if outcomes.len() < count {
                Some(outcomes.len() as usize)
            } else {
                None
            })
            &&& list.played_any <==> exists|i: int|
                0 <= i < outcomes.len() && outcomes[i] == SourceOutcome::Played
        }),
    decreases outcomes.len(),
{
    if outcomes.len() > 0 {
        let before = outcomes.drop_last();
        assert forall|i: int| 0 <= i < before.len() implies before[i] != SourceOutcome::Closed by {
            assert(before[i] == outcomes[i]);
        }
        law_sources_play_in_order(before, count);
        let last = outcomes.len() - 1;
        assert(outcomes[last] == outcomes.last());
        if exists|i: int| 0 <= i < before.len() && before[i] == SourceOutcome::Played {
            let i = choose|i: int| 0 <= i < before.len() && before[i] == SourceOutcome::Played;
            assert(outcomes[i] == SourceOutcome::Played);
        }
        if exists|i: int| 0 <= i < outcomes.len() && outcomes[i] == SourceOutcome::Played {
            let i = choose|i: int| 0 <= i < outcomes.len() && outcomes[i] == SourceOutcome::Played;
            if i < last {
                assert(before[i] == SourceOutcome::Played);
            }
        }
    }
}

/// Nothing plays after the window was closed.
pub proof fn law_closing_ends_the_list(list: Playlist, count: int)
    ensures
        list.after(SourceOutcome::Closed).upcoming(count) is None,
        list.after(SourceOutcome::Closed).played_any,
{
}

/// The arguments of the compositor's control program that switch a window to fullscreen
/// and back, in its newer and in its older form.
pub open spec fn fullscreen_words(newer: bool) -> Seq<Seq<char>> {
    if newer {
        seq!["dispatch"@, "hl.dsp.window.fullscreen(0)"@]
    } else {
        seq!["dispatch"@, "fullscreen"@, "0"@]
    }
}

/// Which form of the command comes next, `true` for the newer: the newer is tried first,
/// the older follows only where that failed, and nothing follows the older.
pub open spec fn next_form(lua_ok: Option<bool>, older_ran: bool) -> Option<bool> {
    if older_ran {
        None
    } else {
        match lua_ok {
            None => Some(true),
            Some(false) => Some(false),
            Some(true) => None,
        }
    }
}

/// The next command that switches to fullscreen and back, where `lua_ok` tells how the
/// newer form went, once it was tried, and `older_ran` whether the older one was run.
pub fn hyprctl_toggle_fullscreen(lua_ok: Option<bool>, older_ran: bool) -> (command: Option<
    Vec<String>,
>)
    ensures
        command is None <==> next_form(lua_ok, older_ran) is None,
        command matches Some(words) ==> next_form(lua_ok, older_ran) matches Some(newer)
            && texts(words@) == fullscreen_words(newer),
{
    if older_ran {
        return None;
    }
    let mut words: Vec<String> = Vec::new();
    words.push("dispatch".to_owned());
    match lua_ok {
        Some(true) => None,
        Some(false) => {
            words.push("fullscreen".to_owned());
            words.push("0".to_owned());
            assert(texts(words@) =~= fullscreen_words(false));
            Some(words)
        },
        None => {
            words.push("hl.dsp.window.fullscreen(0)".to_owned());
            assert(texts(words@) =~= fullscreen_words(true));
            Some(words)
        },
    }
}

/// The commands that are run in all, `true` for the newer form, where `lua_ok` tells how
/// that one goes.
pub open spec fn forms_run(lua_ok: bool) -> Seq<bool> {
    if lua_ok {
        seq![true]
    } else {
        seq![true, false]
    }
}

/// The newer form is run once, the older one once and only after the newer failed, and
/// then no more, however the older one goes.
pub proof fn law_fullscreen_commands_end(lua_ok: bool)
    ensures
        next_form(None, false) == Some(forms_run(lua_ok)[0]),
        forms_run(lua_ok).len() == 2 ==> next_form(Some(lua_ok), false) == Some(
            forms_run(lua_ok)[1],
        ),
        next_form(Some(lua_ok), forms_run(lua_ok).len() == 2) is None,
{
}

/// The bytes of `ok`.
pub open spec fn ok_bytes() -> Seq<u8> {
    seq![0x6fu8, 0x6bu8]
}

/// The bytes of `error`.
pub open spec fn error_bytes() -> Seq<u8> {
    seq![0x65u8, 0x72u8, 0x72u8, 0x6fu8, 0x72u8]
}

/// Whether a command went well that wrote `written`.
pub open spec fn went_well(written: Seq<u8>) -> bool {
    holds_bytes(written, ok_bytes()) && !holds_bytes(written, error_bytes())
}

/// Whether a command went well, by what it wrote to its two outputs: it says `ok`, and
/// no `error`.
pub fn hyprctl_ok(out: &Vec<u8>, err: &Vec<u8>) -> (ok: bool)
    ensures
        ok == (holds_bytes(out@ + err@, ok_bytes()) && !holds_bytes(out@ + err@, error_bytes())),
        ok == went_well(out@ + err@),
{
    let mut all: Vec<u8> = Vec::new();
    all.extend_from_slice(out.as_slice());
    all.extend_from_slice(err.as_slice());
    assert(all@ =~= out@ + err@);
    let good: [u8; 2] = [0x6f, 0x6b];
    let bad: [u8; 5] = [0x65, 0x72, 0x72, 0x6f, 0x72];
    assert(good@ =~= ok_bytes());
    assert(bad@ =~= error_bytes());
    find_bytes(&all, good.as_slice()) && !find_bytes(&all, bad.as_slice())
}

/// A source is a link exactly if it starts with one of the two schemes, letter for letter.
pub proof fn law_links(source: Seq<char>)
    ensures
        is_link(source) <==> {
            ||| source.len() >= 7 && source.take(7) == seq!['h', 't', 't', 'p', ':', '/', '/']
            ||| source.len() >= 8 && source.take(8) == seq!['h', 't', 't', 'p', 's', ':', '/', '/']
        },
{
    reveal_strlit("http://");
    reveal_strlit("https://");
    assert("http://"@ =~= seq!['h', 't', 't', 'p', ':', '/', '/']);
    assert("https://"@ =~= seq!['h', 't', 't', 'p', 's', ':', '/', '/']);
}

/// The resolver is run for links that could not be opened and for nothing else, and what
/// opens is not resolved.
pub proof fn law_only_links_are_resolved(source: Seq<char>, opened: bool)
    ensures
        is_resolved(source, opened) ==> !opened && is_link(source),
        is_link(source) && !opened ==> is_resolved(source, opened),
{
}

/// The resolver gets the source as its last argument, and the same arguments before it for
/// each source.
pub proof fn law_resolver_gets_the_source(source: Seq<char>)
    ensures
        resolver_words(source).last() == source,
        resolver_words(source).drop_last() == seq![
            "-q"@,
            "--no-playlist"@,
            "--merge-output-format"@,
            "mkv"@,
            "-o"@,
            "-"@,
        ],
{
    assert(resolver_words(source).drop_last() =~= seq![
        "-q"@,
        "--no-playlist"@,
        "--merge-output-format"@,
        "mkv"@,
        "-o"@,
        "-"@,
    ]);
}

/// The messages hold what they report, each part at its place, and are otherwise the same.
pub proof fn law_messages_hold_what_they_report(
    source: Seq<char>,
    direct: Seq<char>,
    other: Seq<char>,
)
    ensures
        ({
            let text = resolver_missing_text(direct, other);
            let first = "direct open failed ("@.len() as int;
            let second = first + direct.len() + "); spawning yt-dlp failed: "@.len();
            let last = second + other.len();
            &&& text.take(first) == "direct open failed ("@
            &&& text.subrange(first, first + direct.len()) == direct
            &&& text.subrange(first + direct.len(), second) == "); spawning yt-dlp failed: "@
            &&& text.subrange(second, last) == other
            &&& text.skip(last) == " (install yt-dlp to play page links)"@
        }),
        ({
            let text = cannot_open_text(source, direct, other);
            let first = "Cannot open "@.len() as int;
            let second = first + source.len() + " (direct: "@.len();
            let third = second + direct.len() + "; yt-dlp: "@.len();
            &&& text.take(first) == "Cannot open "@
            &&& text.subrange(first, first + source.len()) == source
            &&& text.subrange(first + source.len(), second) == " (direct: "@
            &&& text.subrange(second, second + direct.len()) == direct
            &&& text.subrange(second + direct.len(), third) == "; yt-dlp: "@
            &&& text.subrange(third, third + other.len()) == other
            &&& text.skip(third + other.len()) == ")"@
        }),
{
}

/// A source is shown exactly if it has pictures, at their height and with square pixels.
pub proof fn law_pictures_are_shown(shape: VideoShape)
    ensures
        shown_size(None) is None,
        shown_size(Some(shape)) is Some,
        (shown_size(Some(shape))->0).1 == shape.height,
        ({
            let width = square_pixel_width(
                shape.width as int,
                shape.sar_num as int,
                shape.sar_den as int,
            );
            0 <= width <= u32::MAX ==> (shown_size(Some(shape))->0).0 == width
        }),
{
}

/// Sound is decoded exactly where the clock follows it; each decoding thread is waited for
/// at a seek, and sound that nobody decodes although it could be heard is still awaited.
pub proof fn law_threads_follow_the_source(has_output: bool, has_stream: bool, has_parameters: bool)
    ensures
        ({
            let plan = threads_of(has_output, has_stream, has_parameters);
            &&& plan.audio_thread == is_heard(has_output, has_stream, has_parameters)
            &&& plan.audio_thread <==> has_output && has_stream && has_parameters
            &&& plan.audio_thread ==> plan.ready_max == 2 && !plan.audio_done
            &&& !plan.audio_thread ==> plan.ready_max == 1
            &&& !plan.audio_done <==> has_output && has_stream
        }),
{
}

/// Durations are known exactly if they are positive, and are then told as they are.
pub proof fn law_known_durations(micros: i64)
    ensures
        duration_of(micros) is Some <==> micros > 0,
        duration_of(micros) matches Some(known) ==> known == micros,
{
}

/// Each source that ends moves the list on by one; only closing the window closes it, and
/// that any was played is never forgotten.
pub proof fn law_list_moves_on(list: Playlist, outcome: SourceOutcome, count: int)
    requires
        list.position < usize::MAX,
    ensures
        ({
            let next = list.after(outcome);
            &&& next.position == list.position + 1
            &&& next.closed <==> outcome is Closed
            &&& next.played_any <==> list.played_any || outcome is Played || outcome is Closed
        }),
        list.upcoming(count) is Some <==> !list.closed && list.position < count,
        list.upcoming(count) matches Some(index) ==> index == list.position,
{
}

/// The commands in both forms name the dispatcher first, and differ behind it.
pub proof fn law_fullscreen_words(newer: bool)
    ensures
        fullscreen_words(newer)[0] == "dispatch"@,
        newer ==> fullscreen_words(newer).len() == 2 && fullscreen_words(newer)[1]
            == "hl.dsp.window.fullscreen(0)"@,
        !newer ==> fullscreen_words(newer).len() == 3 && fullscreen_words(newer)[1]
            == "fullscreen"@ && fullscreen_words(newer)[2] == "0"@,
{
}

/// The newer form comes first, the older after it failed, and nothing after either went
/// well or the older was run.
pub proof fn law_forms_follow_each_other(lua_ok: Option<bool>, older_ran: bool)
    ensures
        next_form(lua_ok, older_ran) == Some(true) <==> lua_ok is None && !older_ran,
        next_form(lua_ok, older_ran) == Some(false) <==> lua_ok == Some(false) && !older_ran,
        next_form(lua_ok, older_ran) is None <==> lua_ok == Some(true) || older_ran,
{
}

/// A command went well exactly if `ok` stands somewhere in what it wrote and `error`
/// nowhere, byte for byte.
pub proof fn law_ok_without_error(written: Seq<u8>)
    ensures
        went_well(written) <==> {
            &&& exists|at: int|
                0 <= at && at + 2 <= written.len() && #[trigger] written[at] as char == 'o'
                    && written[at + 1] as char == 'k'
            &&& forall|at: int|
                0 <= at && at + 5 <= written.len() ==> !(#[trigger] written[at] as char == 'e'
                    && written[at + 1] as char == 'r' && written[at + 2] as char == 'r' && written[at
                    + 3] as char == 'o' && written[at + 4] as char == 'r')
        },
{
    let (good, bad) = (ok_bytes(), error_bytes());
    if holds_bytes(written, good) {
        let at = law_what_is_found_stands_there(written, good);
        assert(written[at + 0] == good[0] && written[at + 1] == good[1]);
        assert(written[at] as char == 'o');
    }
    if holds_bytes(written, bad) {
        let at = law_what_is_found_stands_there(written, bad);
        assert(written[at + 0] == bad[0] && written[at + 1] == bad[1]);
        assert(written[at + 2] == bad[2] && written[at + 3] == bad[3] && written[at + 4] == bad[4]);
        assert(written[at] as char == 'e');
    }
    assert forall|at: int|
        0 <= at && at + 2 <= written.len() && #[trigger] written[at] as char == 'o' && written[at
            + 1] as char == 'k' implies holds_bytes(written, good) by {
        law_found_where_it_stands(written, good, at);
    }
    assert forall|at: int|
        0 <= at && at + 5 <= written.len() && #[trigger] written[at] as char == 'e' && written[at
            + 1] as char == 'r' && written[at + 2] as char == 'r' && written[at + 3] as char == 'o'
            && written[at + 4] as char == 'r' implies holds_bytes(written, bad) by {
        law_found_where_it_stands(written, bad, at);
    }
}

} // verus!
