//! The command line: arguments and playlists become a list of media sources.

use crate::text::{chars_of, lines, text_of, trim, trim_bounds};
use vstd::prelude::*;

verus! {

/// What is printed for the help option and where no source is given.
pub const USAGE: &'static str = "Usage: auv [options] <file_or_url>...
  -h, --help               show this help and exit
  -V, --version            print version and exit
  -p, --playlist <file>    load sources from a playlist file (one per line, '#' comments)
  --                       treat all following arguments as file names (e.g. files starting with '-')

Page links (bilibili, youtube, ...) require yt-dlp installed;
yt-dlp options like --cookies go into ~/.config/yt-dlp/config";

/// What the command line asks for.
pub enum CliAction {
    Play(Vec<String>),
    Help,
    Version,
}

/// How far the command line could be understood.
pub enum CliProgress {
    /// To the end.
    Finished(CliAction),
    /// Up to a playlist whose contents have to be supplied.
    NeedPlaylist(String),
    /// Up to an option that lacks its file path.
    MissingPath(String),
}

/// What a [`CliProgress`] stands for.
pub enum CliModel {
    Play(Seq<Seq<char>>),
    Help,
    Version,
    NeedPlaylist(Seq<char>),
    MissingPath(Seq<char>),
}

/// The texts of a series of strings.
pub open spec fn texts(strings: Seq<String>) -> Seq<Seq<char>> {
    Seq::new(strings.len(), |i: int| strings[i]@)
}

impl View for CliProgress {
    type V = CliModel;

    open spec fn view(&self) -> CliModel {
        match *self {
            CliProgress::Finished(CliAction::Play(sources)) => CliModel::Play(texts(sources@)),
            CliProgress::Finished(CliAction::Help) => CliModel::Help,
            CliProgress::Finished(CliAction::Version) => CliModel::Version,
            CliProgress::NeedPlaylist(path) => CliModel::NeedPlaylist(path@),
            CliProgress::MissingPath(option) => CliModel::MissingPath(option@),
        }
    }
}

/// Whether a line of a playlist names a source.
pub open spec fn names_source(line: Seq<char>) -> bool {
    line.len() > 0 && line[0] != '#'
}

/// The sources that a playlist names, in order: its lines without the white space
/// around them, but for empty ones and comments.
pub open spec fn playlist_sources(content: Seq<char>) -> Seq<Seq<char>> {
    lines(content).map_values(|line: Seq<char>| trim(line)).filter(
        |line: Seq<char>| names_source(line),
    )
}

pub open spec fn is_help(arg: Seq<char>) -> bool {
    arg == "-h"@ || arg == "--help"@
}

pub open spec fn is_version(arg: Seq<char>) -> bool {
    arg == "-V"@ || arg == "--version"@
}

pub open spec fn is_separator(arg: Seq<char>) -> bool {
    arg == "--"@
}

pub open spec fn is_playlist(arg: Seq<char>) -> bool {
    arg == "-p"@ || arg == "--playlist"@
}

/// Whether an argument is taken as an option, not as a source.
pub open spec fn is_option(arg: Seq<char>) -> bool {
    is_help(arg) || is_version(arg) || is_separator(arg) || is_playlist(arg)
}

/// What the arguments `args` ask for where `sources` were named before them and the
/// contents of the first playlists among them are `playlists`.
pub open spec fn understood(
    args: Seq<Seq<char>>,
    playlists: Seq<Seq<char>>,
    sources: Seq<Seq<char>>,
) -> CliModel
    decreases args.len(),
{
    if args.len() == 0 {
        CliModel::Play(sources)
    } else if is_help(args[0]) {
        CliModel::Help
    } else if is_version(args[0]) {
        CliModel::Version
    } else if is_separator(args[0]) {
        CliModel::Play(sources + args.skip(1))
    } else if is_playlist(args[0]) {
        if args.len() == 1 {
            CliModel::MissingPath(args[0])
        } else if playlists.len() == 0 {
            CliModel::NeedPlaylist(args[1])
        } else {
            understood(args.skip(2), playlists.skip(1), sources + playlist_sources(playlists[0]))
        }
    } else {
        understood(args.skip(1), playlists, sources.push(args[0]))
    }
}

/// Whether a separator is reached among `args`.
pub open spec fn has_separator(args: Seq<Seq<char>>) -> bool
    decreases args.len(),
{
    if args.len() == 0 || is_help(args[0]) || is_version(args[0]) {
        false
    } else if is_separator(args[0]) {
        true
    } else if is_playlist(args[0]) {
        args.len() > 1 && has_separator(args.skip(2))
    } else {
        has_separator(args.skip(1))
    }
}

/// How many playlists are named among `args`, as long as no separator is reached.
pub open spec fn playlist_count(args: Seq<Seq<char>>) -> nat
    decreases args.len(),
{
    if args.len() == 0 || is_help(args[0]) || is_version(args[0]) || is_separator(args[0]) {
        0
    } else if is_playlist(args[0]) {
        if args.len() == 1 {
            0
        } else {
            1 + playlist_count(args.skip(2))
        }
    } else {
        playlist_count(args.skip(1))
    }
}

/// What is asked for where `sources` come first.
pub open spec fn after_sources(sources: Seq<Seq<char>>, asked: CliModel) -> CliModel {
    match asked {
        CliModel::Play(more) => CliModel::Play(sources + more),
        other => other,
    }
}

fn is_word(arg: &String, word: &str) -> (same: bool)
    ensures
        same == (arg@ == word@),
{
    *arg == word.to_owned()
}

/// Appends the sources that a playlist names.
pub fn add_playlist(sources: &mut Vec<String>, content: &str)
    ensures
        texts(final(sources)@) == texts(old(sources)@) + playlist_sources(content@),
{
    let chars = chars_of(content);
    let ghost named_before = texts(sources@);
    let ghost tidy = |line: Seq<char>| trim(line);
    let ghost keep = |line: Seq<char>| names_source(line);
    let mut start: usize = 0;
    let mut i: usize = 0;
    assert(chars@.take(0) =~= Seq::<char>::empty());
    assert(lines(chars@.take(0)).drop_last() =~= Seq::<Seq<char>>::empty());
    assert(Seq::<Seq<char>>::empty().map_values(tidy) =~= Seq::<Seq<char>>::empty());
    proof {
        reveal(Seq::filter);
    }
    assert(Seq::<Seq<char>>::empty().map_values(tidy).filter(keep) =~= Seq::<Seq<char>>::empty());
    assert(texts(sources@) =~= named_before + Seq::<Seq<char>>::empty());
    let total: usize = chars.len();
    while i < total
        invariant
            total == chars@.len(),
            start <= i <= total,
            tidy == |line: Seq<char>| trim(line),
            keep == |line: Seq<char>| names_source(line),
            lines(chars@.take(i as int)).len() > 0,
            lines(chars@.take(i as int)).last() == chars@.subrange(start as int, i as int),
            texts(sources@) == named_before + lines(chars@.take(i as int)).drop_last().map_values(
                tidy,
            ).filter(keep),
        decreases total - i,
    {
        let ghost so_far = lines(chars@.take(i as int));
        assert(chars@.take(i + 1).drop_last() =~= chars@.take(i as int));
        assert(chars@.take(i + 1).last() == chars@[i as int]);
        if chars[i] == '\n' {
            add_line(sources, &chars, start, i);
            proof {
                assert(lines(chars@.take(i + 1)).drop_last() =~= so_far);
                lemma_one_more_line(so_far, tidy, keep);
            }
            start = i + 1;
            assert(chars@.subrange(start as int, i + 1) =~= Seq::<char>::empty());
        } else {
            assert(chars@.subrange(start as int, i as int).push(chars@[i as int]) =~= chars@.subrange(
                start as int,
                i + 1,
            ));
            assert(lines(chars@.take(i + 1)).drop_last() =~= so_far.drop_last());
        }
        i = i + 1;
    }
    assert(chars@.take(i as int) =~= chars@);
    add_line(sources, &chars, start, total);
    proof {
        lemma_one_more_line(lines(chars@), tidy, keep);
    }
}

/// Appends the source that one line of a playlist names, if it names one.
fn add_line(sources: &mut Vec<String>, chars: &Vec<char>, from: usize, to: usize)
    requires
        from <= to <= chars@.len(),
    ensures
        ({
            let line = trim(chars@.subrange(from as int, to as int));
            texts(final(sources)@) == if names_source(line) {
                texts(old(sources)@).push(line)
            } else {
                texts(old(sources)@)
            }
        }),
{
    let (start, end) = trim_bounds(chars, from, to);
    if start < end && chars[start] != '#' {
        sources.push(text_of(chars, start, end));
        assert(texts(sources@) =~= texts(old(sources)@).push(
            chars@.subrange(start as int, end as int),
        ));
    }
}

proof fn lemma_one_more_line(
    all: Seq<Seq<char>>,
    tidy: spec_fn(Seq<char>) -> Seq<char>,
    keep: spec_fn(Seq<char>) -> bool,
)
    requires
        all.len() > 0,
    ensures
        all.map_values(tidy).filter(keep) == if keep(tidy(all.last())) {
            all.drop_last().map_values(tidy).filter(keep).push(tidy(all.last()))
        } else {
            all.drop_last().map_values(tidy).filter(keep)
        },
{
    reveal(Seq::filter);
    assert(all.map_values(tidy).drop_last() =~= all.drop_last().map_values(tidy));
    assert(all.map_values(tidy).last() == tidy(all.last()));
}

/// Understands the arguments as far as the contents of the playlists that were read
/// so far allow. Where it needs another one, the caller reads it, adds its contents
/// and asks again; a playlist that cannot be read ends the attempt.
pub fn parse_cli(args: &[String], playlists: &[String]) -> (progress: CliProgress)
    ensures
        progress@ == understood(texts(args@), texts(playlists@), Seq::empty()),
{
    let mut sources: Vec<String> = Vec::new();
    let mut i: usize = 0;
    let mut read: usize = 0;
    let count: usize = args.len();
    let ghost all = texts(args@);
    let ghost contents = texts(playlists@);
    assert(texts(sources@) =~= Seq::<Seq<char>>::empty());
    assert(all.skip(0) =~= all);
    assert(contents.skip(0) =~= contents);
    while i < count
        invariant
            count == args@.len(),
            i <= count,
            read <= playlists@.len(),
            all == texts(args@),
            contents == texts(playlists@),
            understood(all.skip(i as int), contents.skip(read as int), texts(sources@))
                == understood(all, contents, Seq::empty()),
        decreases count - i,
    {
        let arg = &args[i];
        assert(all.skip(i as int)[0] == arg@);
        if is_word(arg, "-h") || is_word(arg, "--help") {
            return CliProgress::Finished(CliAction::Help);
        }
        if is_word(arg, "-V") || is_word(arg, "--version") {
            return CliProgress::Finished(CliAction::Version);
        }
        if is_word(arg, "--") {
            let ghost named_before = texts(sources@);
            i = i + 1;
            let ghost first = i;
            assert(all.subrange(first as int, i as int) =~= Seq::<Seq<char>>::empty());
            assert(named_before + Seq::<Seq<char>>::empty() =~= named_before);
            while i < count
                invariant
                    count == args@.len(),
                    first <= i <= count,
                    all == texts(args@),
                    texts(sources@) == named_before + all.subrange(first as int, i as int),
                decreases count - i,
            {
                let ghost before = texts(sources@);
                sources.push(args[i].clone());
                assert(texts(sources@) =~= before.push(all[i as int]));
                i = i + 1;
                assert(texts(sources@) =~= named_before + all.subrange(first as int, i as int));
            }
            assert(all.subrange(first as int, i as int) =~= all.skip(first - 1).skip(1));
            return CliProgress::Finished(CliAction::Play(sources));
        }
        if is_word(arg, "-p") || is_word(arg, "--playlist") {
            if count - i < 2 {
                return CliProgress::MissingPath(arg.clone());
            }
            assert(all.skip(i as int)[1] == args@[i + 1]@);
            if read == playlists.len() {
                return CliProgress::NeedPlaylist(args[i + 1].clone());
            }
            assert(contents.skip(read as int)[0] == playlists@[read as int]@);
            add_playlist(&mut sources, playlists[read].as_str());
            assert(all.skip(i as int).skip(2) =~= all.skip(i + 2));
            assert(contents.skip(read as int).skip(1) =~= contents.skip(read + 1));
            i = i + 2;
            read = read + 1;
        } else {
            let ghost before = texts(sources@);
            sources.push(arg.clone());
            assert(texts(sources@) =~= before.push(arg@));
            assert(all.skip(i as int).skip(1) =~= all.skip(i + 1));
            i = i + 1;
        }
    }
    CliProgress::Finished(CliAction::Play(sources))
}

/// What is said of an option that lacks its file path.
pub open spec fn missing_path_text(option: Seq<char>) -> Seq<char> {
    option + " requires a file path"@
}

/// The message for an option that lacks its file path.
pub fn missing_path_message(option: &String) -> (message: String)
    ensures
        message@ == option@ + " requires a file path"@,
        message@ == missing_path_text(option@),
{
    let mut message = option.clone();
    message.append(" requires a file path");
    message
}

/// Arguments that are no options are sources, in the order in which they are given.
pub proof fn law_plain_arguments_are_sources(
    plain: Seq<Seq<char>>,
    rest: Seq<Seq<char>>,
    playlists: Seq<Seq<char>>,
    sources: Seq<Seq<char>>,
)
    requires
        forall|i: int| 0 <= i < plain.len() ==> !is_option(#[trigger] plain[i]),
    ensures
        understood(plain + rest, playlists, sources) == understood(
            rest,
            playlists,
            sources + plain,
        ),
    decreases plain.len(),
{
    if plain.len() == 0 {
        assert(plain + rest =~= rest);
        assert(sources + plain =~= sources);
    } else {
        let tail = plain.skip(1);
        assert(!is_option(plain[0]));
        assert((plain + rest)[0] == plain[0]);
        assert((plain + rest).skip(1) =~= tail + rest);
        assert forall|i: int| 0 <= i < tail.len() implies !is_option(#[trigger] tail[i]) by {
            assert(tail[i] == plain[i + 1]);
        }
        law_plain_arguments_are_sources(tail, rest, playlists, sources.push(plain[0]));
        assert(sources.push(plain[0]) + tail =~= sources + plain);
    }
}

/// Sources that were named before come first, and change nothing else.
pub proof fn law_sources_come_first(
    args: Seq<Seq<char>>,
    playlists: Seq<Seq<char>>,
    sources: Seq<Seq<char>>,
)
    ensures
        understood(args, playlists, sources) == after_sources(
            sources,
            understood(args, playlists, Seq::empty()),
        ),
    decreases args.len(),
{
    let none = Seq::<Seq<char>>::empty();
    if args.len() == 0 {
        assert(sources + none =~= sources);
    } else if is_help(args[0]) || is_version(args[0]) {
    } else if is_separator(args[0]) {
        assert(sources + (none + args.skip(1)) =~= sources + args.skip(1));
    } else if is_playlist(args[0]) {
        if args.len() > 1 && playlists.len() > 0 {
            let named = playlist_sources(playlists[0]);
            let (rest, unread) = (args.skip(2), playlists.skip(1));
            law_sources_come_first(rest, unread, sources + named);
            law_sources_come_first(rest, unread, none + named);
            lemma_sources_join(sources, none + named, understood(rest, unread, none));
            assert(sources + (none + named) =~= sources + named);
        }
    } else {
        let rest = args.skip(1);
        law_sources_come_first(rest, playlists, sources.push(args[0]));
        law_sources_come_first(rest, playlists, none.push(args[0]));
        lemma_sources_join(sources, none.push(args[0]), understood(rest, playlists, none));
        assert(sources + none.push(args[0]) =~= sources.push(args[0]));
    }
}

proof fn lemma_sources_join(
    first: Seq<Seq<char>>,
    second: Seq<Seq<char>>,
    asked: CliModel,
)
    ensures
        after_sources(first, after_sources(second, asked)) == after_sources(first + second, asked),
{
    if let CliModel::Play(more) = asked {
        assert(first + (second + more) =~= first + second + more);
    }
}

/// Arguments add up: where the arguments `a`, without a separator, ask for the sources
/// `named`, the arguments `a` and `b` together ask for what `b` asks for, after those
/// sources. `read` holds the contents of the playlists in `a`, `more` those in `b`.
pub proof fn law_arguments_add_up(
    a: Seq<Seq<char>>,
    b: Seq<Seq<char>>,
    read: Seq<Seq<char>>,
    more: Seq<Seq<char>>,
    named: Seq<Seq<char>>,
)
    requires
        !has_separator(a),
        read.len() == playlist_count(a),
        understood(a, read, Seq::empty()) == CliModel::Play(named),
    ensures
        understood(a + b, read + more, Seq::empty()) == after_sources(
            named,
            understood(b, more, Seq::empty()),
        ),
{
    lemma_arguments_follow(a, b, read, more, Seq::empty(), named);
    law_sources_come_first(b, more, named);
}

proof fn lemma_arguments_follow(
    a: Seq<Seq<char>>,
    b: Seq<Seq<char>>,
    read: Seq<Seq<char>>,
    more: Seq<Seq<char>>,
    before: Seq<Seq<char>>,
    named: Seq<Seq<char>>,
)
    requires
        !has_separator(a),
        read.len() == playlist_count(a),
        understood(a, read, before) == CliModel::Play(named),
    ensures
        understood(a + b, read + more, before) == understood(b, more, named),
    decreases a.len(),
{
    if a.len() == 0 {
        assert(a + b =~= b);
        assert(read + more =~= more);
    } else {
        assert((a + b)[0] == a[0]);
        if is_playlist(a[0]) {
            assert((a + b).skip(2) =~= a.skip(2) + b);
            assert((read + more)[0] == read[0]);
            assert((read + more).skip(1) =~= read.skip(1) + more);
            lemma_arguments_follow(
                a.skip(2),
                b,
                read.skip(1),
                more,
                before + playlist_sources(read[0]),
                named,
            );
        } else {
            assert((a + b).skip(1) =~= a.skip(1) + b);
            lemma_arguments_follow(a.skip(1), b, read, more, before.push(a[0]), named);
        }
    }
}

/// Behind the separator every argument is a source, whatever it looks like.
pub proof fn law_separator_ends_options(
    before: Seq<Seq<char>>,
    separator: Seq<char>,
    rest: Seq<Seq<char>>,
    read: Seq<Seq<char>>,
    more: Seq<Seq<char>>,
    named: Seq<Seq<char>>,
)
    requires
        !has_separator(before),
        read.len() == playlist_count(before),
        understood(before, read, Seq::empty()) == CliModel::Play(named),
        is_separator(separator),
    ensures
        understood(before + (seq![separator] + rest), read + more, Seq::empty()) == CliModel::Play(
            named + rest,
        ),
{
    lemma_option_words_differ();
    let behind = seq![separator] + rest;
    law_arguments_add_up(before, behind, read, more, named);
    assert(behind[0] == separator);
    assert(behind.skip(1) =~= rest);
    assert(!is_help(separator) && !is_version(separator));
    assert(Seq::<Seq<char>>::empty() + rest =~= rest);
}

/// The help and version options take effect where they stand, whatever follows.
pub proof fn law_help_and_version_take_effect(
    before: Seq<Seq<char>>,
    option: Seq<char>,
    rest: Seq<Seq<char>>,
    read: Seq<Seq<char>>,
    more: Seq<Seq<char>>,
    named: Seq<Seq<char>>,
)
    requires
        !has_separator(before),
        read.len() == playlist_count(before),
        understood(before, read, Seq::empty()) == CliModel::Play(named),
        is_help(option) || is_version(option),
    ensures
        understood(before + (seq![option] + rest), read + more, Seq::empty()) == if is_help(option) {
            CliModel::Help
        } else {
            CliModel::Version
        },
{
    let behind = seq![option] + rest;
    law_arguments_add_up(before, behind, read, more, named);
    assert(behind[0] == option);
}

/// A playlist stands for the sources that it names: wherever it stands, its option and
/// path could be replaced by them.
pub proof fn law_playlist_stands_for_its_sources(
    before: Seq<Seq<char>>,
    option: Seq<char>,
    path: Seq<char>,
    rest: Seq<Seq<char>>,
    read: Seq<Seq<char>>,
    content: Seq<char>,
    more: Seq<Seq<char>>,
    named: Seq<Seq<char>>,
)
    requires
        !has_separator(before),
        read.len() == playlist_count(before),
        understood(before, read, Seq::empty()) == CliModel::Play(named),
        is_playlist(option),
    ensures
        understood(
            before + (seq![option, path] + rest),
            read + (seq![content] + more),
            Seq::empty(),
        ) == after_sources(
            named + playlist_sources(content),
            understood(rest, more, Seq::empty()),
        ),
{
    lemma_option_words_differ();
    let behind = seq![option, path] + rest;
    let contents = seq![content] + more;
    let listed = playlist_sources(content);
    law_arguments_add_up(before, behind, read, contents, named);
    assert(behind[0] == option);
    assert(behind.skip(2) =~= rest);
    assert(contents[0] == content);
    assert(contents.skip(1) =~= more);
    assert(Seq::<Seq<char>>::empty() + listed =~= listed);
    law_sources_come_first(rest, more, listed);
    lemma_sources_join(named, listed, understood(rest, more, Seq::empty()));
}

/// Contents of playlists that were not asked for change nothing.
pub proof fn law_only_missing_playlists_matter(
    args: Seq<Seq<char>>,
    playlists: Seq<Seq<char>>,
    more: Seq<Seq<char>>,
    sources: Seq<Seq<char>>,
)
    requires
        !(understood(args, playlists, sources) is NeedPlaylist),
    ensures
        understood(args, playlists + more, sources) == understood(args, playlists, sources),
    decreases args.len(),
{
    if args.len() > 0 && !is_help(args[0]) && !is_version(args[0]) && !is_separator(args[0]) {
        if is_playlist(args[0]) {
            if args.len() > 1 {
                assert((playlists + more).skip(1) =~= playlists.skip(1) + more);
                assert((playlists + more)[0] == playlists[0]);
                law_only_missing_playlists_matter(
                    args.skip(2),
                    playlists.skip(1),
                    more,
                    sources + playlist_sources(playlists[0]),
                );
            }
        } else {
            law_only_missing_playlists_matter(
                args.skip(1),
                playlists,
                more,
                sources.push(args[0]),
            );
        }
    }
}

/// What a playlist names is never empty, never a comment, and has no white space
/// around it.
pub proof fn law_playlist_sources_are_clean(content: Seq<char>, i: int)
    requires
        0 <= i < playlist_sources(content).len(),
    ensures
        ({
            let source = playlist_sources(content)[i];
            &&& source.len() > 0
            &&& source[0] != '#'
            &&& !crate::text::is_white_space(source[0])
            &&& !crate::text::is_white_space(source.last())
        }),
{
    let tidy = |line: Seq<char>| trim(line);
    let keep = |line: Seq<char>| names_source(line);
    let trimmed = lines(content).map_values(tidy);
    let source = playlist_sources(content)[i];
    trimmed.lemma_filter_pred(keep, i);
    assert(trimmed.filter(keep).contains(source));
    trimmed.lemma_filter_contains_rev(keep, source);
    let k = choose|k: int| 0 <= k < trimmed.len() && trimmed[k] == source;
    crate::text::lemma_trim_ends(lines(content)[k]);
}

/// A comment and an empty line name nothing, and a plain line names itself.
pub proof fn law_playlist_line(line: Seq<char>)
    requires
        !line.contains('\n'),
    ensures
        playlist_sources(line) == if names_source(trim(line)) {
            seq![trim(line)]
        } else {
            Seq::empty()
        },
{
    let tidy = |line: Seq<char>| trim(line);
    let keep = |line: Seq<char>| names_source(line);
    crate::text::lemma_single_line(line);
    assert(seq![line].map_values(tidy) =~= seq![trim(line)]);
    reveal(Seq::filter);
    assert(seq![trim(line)].drop_last() =~= Seq::<Seq<char>>::empty());
    assert(Seq::<Seq<char>>::empty().filter(keep) =~= Seq::<Seq<char>>::empty());
    assert(seq![trim(line)].last() == trim(line));
    if names_source(trim(line)) {
        assert(Seq::<Seq<char>>::empty().push(trim(line)) =~= seq![trim(line)]);
    }
}

proof fn lemma_option_words_differ()
    ensures
        forall|arg: Seq<char>| #[trigger] is_separator(arg) ==> !is_help(arg) && !is_version(arg),
        forall|arg: Seq<char>|
            #[trigger] is_playlist(arg) ==> !is_help(arg) && !is_version(arg) && !is_separator(arg),
{
    reveal_strlit("-h");
    reveal_strlit("--help");
    reveal_strlit("-V");
    reveal_strlit("--version");
    reveal_strlit("--");
    reveal_strlit("-p");
    reveal_strlit("--playlist");
    assert("-h"@[1] == 'h' && "-V"@[1] == 'V' && "--"@[1] == '-' && "-p"@[1] == 'p');
    assert("--help"@.len() == 6 && "--version"@.len() == 9 && "--playlist"@.len() == 10);
    assert("-h"@.len() == 2 && "-V"@.len() == 2 && "--"@.len() == 2 && "-p"@.len() == 2);
}

/// The options are these words and no others; everything else is a source.
pub proof fn law_option_words(arg: Seq<char>)
    ensures
        is_help(arg) <==> arg == seq!['-', 'h'] || arg == seq!['-', '-', 'h', 'e', 'l', 'p'],
        is_version(arg) <==> arg == seq!['-', 'V'] || arg == seq![
            '-',
            '-',
            'v',
            'e',
            'r',
            's',
            'i',
            'o',
            'n',
        ],
        is_separator(arg) <==> arg == seq!['-', '-'],
        is_playlist(arg) <==> arg == seq!['-', 'p'] || arg == seq![
            '-',
            '-',
            'p',
            'l',
            'a',
            'y',
            'l',
            'i',
            's',
            't',
        ],
        is_option(arg) <==> is_help(arg) || is_version(arg) || is_separator(arg) || is_playlist(arg),
{
    reveal_strlit("-h");
    reveal_strlit("--help");
    reveal_strlit("-V");
    reveal_strlit("--version");
    reveal_strlit("--");
    reveal_strlit("-p");
    reveal_strlit("--playlist");
    assert("-h"@ =~= seq!['-', 'h']);
    assert("--help"@ =~= seq!['-', '-', 'h', 'e', 'l', 'p']);
    assert("-V"@ =~= seq!['-', 'V']);
    assert("--version"@ =~= seq!['-', '-', 'v', 'e', 'r', 's', 'i', 'o', 'n']);
    assert("--"@ =~= seq!['-', '-']);
    assert("-p"@ =~= seq!['-', 'p']);
    assert("--playlist"@ =~= seq!['-', '-', 'p', 'l', 'a', 'y', 'l', 'i', 's', 't']);
}

/// Without arguments there is nothing to play.
pub proof fn law_no_arguments_ask_for_nothing(playlists: Seq<Seq<char>>)
    ensures
        understood(Seq::empty(), playlists, Seq::empty()) == CliModel::Play(Seq::empty()),
{
}

/// A playlist option at the end lacks its path and is named for it, whatever was read.
pub proof fn law_last_option_lacks_its_path(
    before: Seq<Seq<char>>,
    option: Seq<char>,
    read: Seq<Seq<char>>,
    more: Seq<Seq<char>>,
    named: Seq<Seq<char>>,
)
    requires
        !has_separator(before),
        read.len() == playlist_count(before),
        understood(before, read, Seq::empty()) == CliModel::Play(named),
        is_playlist(option),
    ensures
        understood(before + seq![option], read + more, Seq::empty()) == CliModel::MissingPath(
            option,
        ),
{
    lemma_option_words_differ();
    let behind = seq![option];
    law_arguments_add_up(before, behind, read, more, named);
    assert(behind[0] == option);
}

/// The first playlist whose contents were not supplied is asked for by its path, whatever
/// follows.
pub proof fn law_missing_playlist_is_asked_for(
    before: Seq<Seq<char>>,
    option: Seq<char>,
    path: Seq<char>,
    rest: Seq<Seq<char>>,
    read: Seq<Seq<char>>,
    named: Seq<Seq<char>>,
)
    requires
        !has_separator(before),
        read.len() == playlist_count(before),
        understood(before, read, Seq::empty()) == CliModel::Play(named),
        is_playlist(option),
    ensures
        understood(before + (seq![option, path] + rest), read, Seq::empty())
            == CliModel::NeedPlaylist(path),
{
    lemma_option_words_differ();
    let behind = seq![option, path] + rest;
    let none = Seq::<Seq<char>>::empty();
    law_arguments_add_up(before, behind, read, none, named);
    assert(read + none =~= read);
    assert(behind[0] == option);
    assert(behind[1] == path);
}

/// A line names a source unless it is empty or a comment.
pub proof fn law_comments_name_nothing(line: Seq<char>)
    ensures
        names_source(line) <==> !(line.len() == 0 || line.first() == '#'),
{
}

/// Playlists add up: two of them in one file, one below the other, name what both name.
pub proof fn law_playlists_add_up(first: Seq<char>, second: Seq<char>)
    ensures
        playlist_sources(first.push('\n') + second) == playlist_sources(first) + playlist_sources(
            second,
        ),
{
    let tidy = |line: Seq<char>| trim(line);
    let keep = |line: Seq<char>| names_source(line);
    crate::text::law_lines_add_up(first, second);
    let (a, b) = (lines(first), lines(second));
    assert((a + b).map_values(tidy) =~= a.map_values(tidy) + b.map_values(tidy));
    Seq::filter_distributes_over_add(a.map_values(tidy), b.map_values(tidy), keep);
}

/// The message of an option that lacks its path names the option, and says the same of
/// each.
pub proof fn law_missing_path_is_named(option: Seq<char>)
    ensures
        missing_path_text(option).take(option.len() as int) == option,
        missing_path_text(option).skip(option.len() as int) == " requires a file path"@,
{
    assert(missing_path_text(option).take(option.len() as int) =~= option);
    assert(missing_path_text(option).skip(option.len() as int) =~= " requires a file path"@);
}

} // verus!
