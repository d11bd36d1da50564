use auv::cli::{missing_path_message, parse_cli, CliAction, CliProgress, USAGE};

fn strings(words: &[&str]) -> Vec<String> {
    words.iter().map(|w| w.to_string()).collect()
}

fn played(args: &[&str], playlists: &[&str]) -> Vec<String> {
    match parse_cli(&strings(args), &strings(playlists)) {
        CliProgress::Finished(CliAction::Play(sources)) => sources,
        _ => panic!("the arguments do not ask for playing"),
    }
}

#[test]
fn plain_arguments_are_sources_in_order() {
    assert_eq!(played(&["b.mp4", "a.mkv", "-x"], &[]), strings(&["b.mp4", "a.mkv", "-x"]));
    assert_eq!(played(&[], &[]), strings(&[]));
}

#[test]
fn help_and_version_win_where_they_stand() {
    for word in ["-h", "--help"] {
        assert!(matches!(
            parse_cli(&strings(&["a", word, "-p"]), &[]),
            CliProgress::Finished(CliAction::Help)
        ));
    }
    for word in ["-V", "--version"] {
        assert!(matches!(
            parse_cli(&strings(&["a", word, "-h"]), &[]),
            CliProgress::Finished(CliAction::Version)
        ));
    }
}

#[test]
fn separator_ends_options() {
    assert_eq!(
        played(&["a", "--", "-p", "--help", "--"], &[]),
        strings(&["a", "-p", "--help", "--"])
    );
}

#[test]
fn playlist_option_needs_a_path() {
    for word in ["-p", "--playlist"] {
        match parse_cli(&strings(&["a", word]), &[]) {
            CliProgress::MissingPath(option) => {
                assert_eq!(missing_path_message(&option), format!("{} requires a file path", word));
            }
            _ => panic!("the path is not missed"),
        }
    }
}

#[test]
fn playlist_contents_are_asked_for() {
    match parse_cli(&strings(&["a", "-p", "list.txt", "b"]), &[]) {
        CliProgress::NeedPlaylist(path) => assert_eq!(path, "list.txt"),
        _ => panic!("the playlist is not asked for"),
    }
}

#[test]
fn playlist_option_swallows_the_next_argument() {
    match parse_cli(&strings(&["-p", "--help"]), &[]) {
        CliProgress::NeedPlaylist(path) => assert_eq!(path, "--help"),
        _ => panic!("the playlist is not asked for"),
    }
}

#[test]
fn playlist_lines_become_sources() {
    let content = "# morning playlist\n/home/user/videos/intro.mp4\n\n  https://example.com/live.m3u8 \r\n   # not this\n\u{3000}last\u{a0}";
    assert_eq!(
        played(&["first", "--playlist", "list.txt", "after"], &[content]),
        strings(&[
            "first",
            "/home/user/videos/intro.mp4",
            "https://example.com/live.m3u8",
            "last",
            "after",
        ])
    );
}

#[test]
fn playlists_are_taken_one_after_the_other() {
    assert_eq!(
        played(&["-p", "one", "x", "-p", "two"], &["a\nb\n", "c"]),
        strings(&["a", "b", "x", "c"])
    );
    assert_eq!(played(&["-p", "one"], &["a", "never asked for"]), strings(&["a"]));
}

#[test]
fn playlist_agrees_with_the_standard_library() {
    let contents = [
        "", "\n", "\n\n", "a", "a\n", "a\r\nb", "a\rb", "\r", " \t\n#x\n # y\nz", "\u{85}a\u{85}",
        "a\u{2028}b", "\u{feff}a", "#", "##", "a#b", "\u{1f3b5} song \n",
    ];
    for content in contents {
        let expected: Vec<String> = content
            .lines()
            .map(|line| line.trim())
            .filter(|line| !line.is_empty() && !line.starts_with('#'))
            .map(|line| line.to_string())
            .collect();
        assert_eq!(played(&["-p", "list"], &[content]), expected);
    }
}

#[test]
fn usage_names_every_option() {
    assert!(USAGE.starts_with("Usage: auv [options] <file_or_url>...\n"));
    for word in ["-h, --help", "-V, --version", "-p, --playlist <file>", "  --  ", "yt-dlp"] {
        assert!(USAGE.contains(word));
    }
}
