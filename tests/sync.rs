use yt_sync::config::{
    config_path_in, config_targets, create_default_config, make_target, parse_flag, parse_format,
    select_targets, Config, ConfigError, Item,
};
use yt_sync::fetch::{fetch_args, fetch_succeeded, item_url};
use yt_sync::index::{completion_message, index_path, index_text};
use yt_sync::listing::{listing_args, parse_listing, playlist_url, remote_item, ListingError};
use yt_sync::reconcile::{entry_path, file_name, scan_snapshot, Reconciler, RemoteItem, Step};
use yt_sync::sanitize::sanitize_filename;
use yt_sync::target::MediaFormat;
use yt_sync::text::{push_decimal, split_lines};

fn item(id: &str, title: &str) -> RemoteItem {
    RemoteItem { id: id.to_string(), title: title.to_string() }
}

fn strings(v: &[&str]) -> Vec<String> {
    v.iter().map(|s| s.to_string()).collect()
}

/// Drives a run to its end; `outcome` answers each fetch. Returns the
/// positions asked for, the index lines and the count.
fn drive(
    location: &str,
    format: MediaFormat,
    items: Vec<RemoteItem>,
    snapshot: Vec<String>,
    outcome: &dyn Fn(&str) -> bool,
) -> (Vec<usize>, Vec<String>, usize) {
    let mut run = Reconciler::new(location, format, items, snapshot);
    let mut asked = Vec::new();
    loop {
        match run.next_step() {
            Step::Fetch { position, id } => {
                asked.push(position);
                run.record_fetch(outcome(&id));
            }
            Step::Done => break,
        }
    }
    (asked, run.index_entries().clone(), run.synced_count())
}

#[test]
fn sanitize_replaces_unsafe_characters() {
    assert_eq!(sanitize_filename("a<b>c:d\"e/f\\g|h?i*j"), "a_b_c_d_e_f_g_h_i_j");
    assert_eq!(sanitize_filename("what\u{FF1F} \u{FF02}x\u{201C}y\u{201D}"), "what_ _x_y_");
    assert_eq!(sanitize_filename("plain title [x].opus"), "plain title [x].opus");
    assert_eq!(sanitize_filename(""), "");
}

#[test]
fn sanitize_is_idempotent_on_examples() {
    for s in ["a/b?c", "\u{201C}quoted\u{201D}", "no change", "***", ""] {
        let once = sanitize_filename(s);
        assert_eq!(sanitize_filename(&once), once);
    }
}

#[test]
fn file_name_per_format() {
    let it = item("abc", "My: Song");
    assert_eq!(file_name(&it, MediaFormat::Audio), "My_ Song [abc].opus");
    assert_eq!(file_name(&it, MediaFormat::Video), "My_ Song [abc].mkv");
}

#[test]
fn entry_path_joins_with_one_separator() {
    assert_eq!(entry_path("/music", "a.opus"), "/music/a.opus");
    assert_eq!(entry_path("/music/", "a.opus"), "/music/a.opus");
    assert_eq!(entry_path("", "a.opus"), "a.opus");
}

#[test]
fn scan_sanitizes_local_names() {
    let names = strings(&["a?b [x].opus", "clean [y].opus"]);
    assert_eq!(scan_snapshot(&names), strings(&["a_b [x].opus", "clean [y].opus"]));
}

#[test]
fn three_items_one_present_one_failing() {
    let items = vec![item("A", "a"), item("B", "b"), item("C", "c")];
    let snapshot = strings(&["b [B].opus"]);
    let (asked, index, count) =
        drive("/m", MediaFormat::Audio, items, snapshot, &|id| id == "A");
    assert_eq!(asked, vec![0, 2]);
    assert_eq!(index, strings(&["/m/a [A].opus", "/m/b [B].opus"]));
    assert_eq!(count, 1);
    assert_eq!(completion_message(count, "/m"), "1 new song successfully synced to /m");
}

#[test]
fn empty_playlist_attempts_nothing() {
    let (asked, index, count) = drive("/m", MediaFormat::Audio, vec![], strings(&["x"]), &|_| true);
    assert!(asked.is_empty());
    assert!(index.is_empty());
    assert_eq!(index_text(&index), "");
    assert_eq!(count, 0);
    assert_eq!(completion_message(count, "/m"), "0 new songs successfully synced to /m");
}

#[test]
fn empty_directory_attempts_every_item() {
    let items = vec![item("A", "a"), item("B", "b"), item("C", "c")];
    let (asked, index, count) = drive("/m", MediaFormat::Video, items, vec![], &|_| true);
    assert_eq!(asked, vec![0, 1, 2]);
    assert_eq!(index, strings(&["/m/a [A].mkv", "/m/b [B].mkv", "/m/c [C].mkv"]));
    assert_eq!(count, 3);
    assert_eq!(completion_message(count, "/m"), "3 new songs successfully synced to /m");
}

#[test]
fn second_run_syncs_nothing_new() {
    let items = vec![item("A", "a"), item("B", "b")];
    let (_, _, first) = drive("/m", MediaFormat::Audio, items.clone(), vec![], &|_| true);
    assert_eq!(first, 2);
    let on_disk = strings(&["a [A].opus", "b [B].opus"]);
    let (asked, index, second) =
        drive("/m", MediaFormat::Audio, items, scan_snapshot(&on_disk), &|_| true);
    assert!(asked.is_empty());
    assert_eq!(second, 0);
    assert_eq!(index.len(), 2);
}

#[test]
fn second_run_retries_only_failures() {
    let items = vec![item("A", "a"), item("B", "b"), item("C", "c")];
    let (_, _, first) = drive("/m", MediaFormat::Audio, items.clone(), vec![], &|id| id != "B");
    assert_eq!(first, 2);
    let on_disk = strings(&["a [A].opus", "c [C].opus"]);
    let (asked, _, second) = drive("/m", MediaFormat::Audio, items, on_disk, &|_| true);
    assert_eq!(asked, vec![1]);
    assert_eq!(second, 1);
}

#[test]
fn correctly_named_file_is_not_fetched() {
    let items = vec![item("id1", "Title: part?")];
    let name = file_name(&items[0], MediaFormat::Audio);
    let (asked, index, count) =
        drive("/m", MediaFormat::Audio, items, scan_snapshot(&vec![name.clone()]), &|_| true);
    assert!(asked.is_empty());
    assert_eq!(index, vec![format!("/m/{}", name)]);
    assert_eq!(count, 0);
}

#[test]
fn failure_does_not_stop_later_items() {
    let items = vec![item("A", "a"), item("B", "b"), item("C", "c"), item("D", "d")];
    let (asked, index, count) = drive("/m", MediaFormat::Audio, items, vec![], &|id| id == "D");
    assert_eq!(asked, vec![0, 1, 2, 3]);
    assert_eq!(index, strings(&["/m/d [D].opus"]));
    assert_eq!(count, 1);
}

#[test]
fn count_is_successful_fetches_only() {
    let items: Vec<RemoteItem> = (0..6).map(|i| item(&format!("i{i}"), "t")).collect();
    let snapshot = strings(&["t [i0].opus", "t [i3].opus"]);
    let ok = |id: &str| id == "i1" || id == "i4" || id == "i5";
    let (asked, index, count) = drive("/d/", MediaFormat::Audio, items, snapshot, &ok);
    assert_eq!(asked, vec![1, 2, 4, 5]);
    assert_eq!(count, 3);
    assert_eq!(
        index,
        strings(&["/d/t [i0].opus", "/d/t [i1].opus", "/d/t [i3].opus", "/d/t [i4].opus", "/d/t [i5].opus"])
    );
}

#[test]
fn index_text_terminates_every_line() {
    assert_eq!(index_text(&strings(&["/a/x", "/a/y"])), "/a/x\n/a/y\n");
}

#[test]
fn index_path_beside_directory() {
    assert_eq!(index_path("/home/u/music"), Some("/home/u/music.m3u".to_string()));
    assert_eq!(index_path("/home/u/music//"), Some("/home/u/music.m3u".to_string()));
    assert_eq!(index_path("music"), Some("music.m3u".to_string()));
    assert_eq!(index_path("/"), None);
    assert_eq!(index_path(""), None);
    assert_eq!(index_path("/a/.."), None);
    assert_eq!(index_path("/a/."), None);
}

#[test]
fn completion_message_numbers() {
    assert_eq!(completion_message(12, "x"), "12 new songs successfully synced to x");
    let mut s = String::from("n=");
    push_decimal(&mut s, 1050);
    assert_eq!(s, "n=1050");
    let mut z = String::new();
    push_decimal(&mut z, 0);
    assert_eq!(z, "0");
}

#[test]
fn split_lines_like_text_lines() {
    assert_eq!(split_lines("a\nb\n"), strings(&["a", "b"]));
    assert_eq!(split_lines("a\n\nb"), strings(&["a", "", "b"]));
    assert_eq!(split_lines(""), Vec::<String>::new());
    assert_eq!(split_lines("\n"), strings(&[""]));
}

#[test]
fn listing_reads_records_in_order() {
    let out = "{\"id\":\"x1\",\"title\":\"One/Two\",\"n\":1}\n{\"title\":\"Three\",\"id\":\"x2\"}\n";
    let items = parse_listing(true, out).unwrap();
    assert_eq!(items.len(), 2);
    assert_eq!(items[0].id, "x1");
    assert_eq!(items[0].title, "One_Two");
    assert_eq!(items[1].id, "x2");
    assert_eq!(items[1].title, "Three");
}

#[test]
fn listing_fails_on_a_malformed_line() {
    let out = "{\"id\":\"x1\",\"title\":\"a\"}\nnot json\n{\"id\":\"x2\",\"title\":\"b\"}\n";
    assert_eq!(parse_listing(true, out).unwrap_err(), ListingError::MalformedLine { line: 1 });
    let missing = "{\"id\":\"x1\"}\n";
    assert_eq!(parse_listing(true, missing).unwrap_err(), ListingError::MalformedLine { line: 0 });
    let not_string = "{\"id\":3,\"title\":\"a\"}";
    assert_eq!(parse_listing(true, not_string).unwrap_err(), ListingError::MalformedLine { line: 0 });
}

#[test]
fn listing_fails_when_tool_fails() {
    assert_eq!(parse_listing(false, "").unwrap_err(), ListingError::ToolFailed);
    assert!(parse_listing(true, "").unwrap().is_empty());
}

#[test]
fn remote_item_sanitizes_title() {
    let it = remote_item("id".to_string(), "a*b");
    assert_eq!(it.id, "id");
    assert_eq!(it.title, "a_b");
}

#[test]
fn tool_addresses_and_arguments() {
    assert_eq!(playlist_url("PL1"), "https://www.youtube.com/playlist?list=PL1");
    assert_eq!(item_url("v1"), "https://www.youtube.com/watch?v=v1");
    assert_eq!(
        listing_args("PL1"),
        strings(&["-j", "--flat-playlist", "https://www.youtube.com/playlist?list=PL1"])
    );
    assert_eq!(
        fetch_args("v1", "/m", MediaFormat::Audio),
        strings(&[
            "-P", "/m", "-q", "--embed-thumbnail", "--embed-metadata",
            "https://www.youtube.com/watch?v=v1", "-x", "--audio-format", "opus",
        ])
    );
    assert_eq!(
        fetch_args("v1", "/m", MediaFormat::Video),
        strings(&[
            "-P", "/m", "-q", "--embed-thumbnail", "--embed-metadata",
            "https://www.youtube.com/watch?v=v1", "-f", "bestvideo+bestaudio",
            "--merge-output-format", "mkv",
        ])
    );
}

#[test]
fn benign_exit_counts_as_success() {
    assert!(fetch_succeeded(Some(0)));
    assert!(fetch_succeeded(Some(100)));
    assert!(!fetch_succeeded(Some(1)));
    assert!(!fetch_succeeded(None));
}

#[test]
fn default_config_has_two_targets() {
    let c = create_default_config();
    assert_eq!(c.items.len(), 2);
    assert_eq!(c.items[0].id, "aaaaaaaaaaaaaaaaaaaaaaaaaaaaaaaaaa");
    assert_eq!(c.items[0].location, "/home/user/Downloads/file_output");
    assert_eq!(c.items[0].format, "audio");
    assert_eq!(c.items[0].save_playlist, "true");
    assert_eq!(c.items[1].id, "bbbbbbbbbbbbbbbbbbbbbbbbbbbbbbbbbb");
    assert_eq!(c.items[1].location, "/home/user/Downloads/file_output2");
    assert_eq!(c.items[1].format, "video");
    assert_eq!(c.items[1].save_playlist, "false");
    let ts = config_targets(&c).unwrap();
    assert_eq!(ts[0].media_format, MediaFormat::Audio);
    assert!(ts[0].emit_index);
    assert_eq!(ts[1].media_format, MediaFormat::Video);
    assert!(!ts[1].emit_index);
}

#[test]
fn config_values_are_validated() {
    assert_eq!(parse_format("audio"), Some(MediaFormat::Audio));
    assert_eq!(parse_format("video"), Some(MediaFormat::Video));
    assert_eq!(parse_format("Audio"), None);
    assert_eq!(parse_flag("true"), Some(true));
    assert_eq!(parse_flag("false"), Some(false));
    assert_eq!(parse_flag("yes"), None);
    assert_eq!(make_target("p", "/l", "vidoe", "true").unwrap_err(), ConfigError::UnknownFormat);
    assert_eq!(make_target("p", "/l", "audio", "1").unwrap_err(), ConfigError::UnknownIndexFlag);
    let bad = Config {
        items: vec![
            Item { id: "a".into(), location: "/a".into(), format: "audio".into(), save_playlist: "true".into() },
            Item { id: "b".into(), location: "/b".into(), format: "mp3".into(), save_playlist: "true".into() },
        ],
    };
    assert_eq!(config_targets(&bad).unwrap_err(), ConfigError::UnknownFormat);
}

#[test]
fn command_line_target_overrides_config() {
    let c = create_default_config();
    let ts = select_targets(&c, Some("PL".into()), Some("/x".into()), None, None).unwrap();
    assert_eq!(ts.len(), 1);
    assert_eq!(ts[0].remote_playlist_id, "PL");
    assert_eq!(ts[0].local_location, "/x");
    assert_eq!(ts[0].media_format, MediaFormat::Audio);
    assert!(ts[0].emit_index);
    let ts = select_targets(&c, Some("PL".into()), None, Some("video".into()), None).unwrap();
    assert_eq!(ts.len(), 2);
    let err = select_targets(&c, Some("PL".into()), Some("/x".into()), Some("flac".into()), None);
    assert_eq!(err.unwrap_err(), ConfigError::UnknownFormat);
}

#[test]
fn config_path_under_home() {
    assert_eq!(config_path_in("/home/u"), "/home/u/.config/yt-sync/config.toml");
}
