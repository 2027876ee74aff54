//! The persisted list of sync targets, and the choice of targets for a run.
use vstd::prelude::*;
use crate::target::{MediaFormat, SyncTarget};

verus! {

/// One sync target as the configuration file holds it: format and index flag
/// are text there and are checked when the targets of a run are chosen.
#[derive(Clone, Debug)]
pub struct Item {
    pub id: String,
    pub location: String,
    pub format: String,
    pub save_playlist: String,
}

/// The configuration: the targets in the order they are synced.
#[derive(Clone, Debug)]
pub struct Config {
    pub items: Vec<Item>,
}

/// Why the configuration or the command line names no valid target.
#[derive(Clone, Copy, Debug, PartialEq, Eq, Structural)]
pub enum ConfigError {
    /// The format is neither `audio` nor `video`.
    UnknownFormat,
    /// The index flag is neither `true` nor `false`.
    UnknownIndexFlag,
}

fn same_text(a: &str, b: &str) -> (r: bool)
    ensures
        r == (a@ == b@),
{
    String::from_str(a) == String::from_str(b)
}

/// The configuration written when none exists yet: two example targets.
pub fn create_default_config() -> (r: Config)
    ensures
        r.items@.len() == 2,
        r.items@[0].id@ == "aaaaaaaaaaaaaaaaaaaaaaaaaaaaaaaaaa"@,
        r.items@[0].location@ == "/home/user/Downloads/file_output"@,
        r.items@[0].format@ == "audio"@,
        r.items@[0].save_playlist@ == "true"@,
        r.items@[1].id@ == "bbbbbbbbbbbbbbbbbbbbbbbbbbbbbbbbbb"@,
        r.items@[1].location@ == "/home/user/Downloads/file_output2"@,
        r.items@[1].format@ == "video"@,
        r.items@[1].save_playlist@ == "false"@,
{
    Config {
        items: vec![
            Item {
                id: String::from_str("aaaaaaaaaaaaaaaaaaaaaaaaaaaaaaaaaa"),
                location: String::from_str("/home/user/Downloads/file_output"),
                format: String::from_str("audio"),
                save_playlist: String::from_str("true"),
            },
            Item {
                id: String::from_str("bbbbbbbbbbbbbbbbbbbbbbbbbbbbbbbbbb"),
                location: String::from_str("/home/user/Downloads/file_output2"),
                format: String::from_str("video"),
                save_playlist: String::from_str("false"),
            },
        ],
    }
}

/// The format that a configuration value names, if any.
pub open spec fn format_of(s: Seq<char>) -> Option<MediaFormat> {
    if s == "audio"@ {
        Some(MediaFormat::Audio)
    } else if s == "video"@ {
        Some(MediaFormat::Video)
    } else {
        None
    }
}

/// Reads a format value.
pub fn parse_format(s: &str) -> (r: Option<MediaFormat>)
    ensures
        r == format_of(s@),
{
    if same_text(s, "audio") {
        Some(MediaFormat::Audio)
    } else if same_text(s, "video") {
        Some(MediaFormat::Video)
    } else {
        None
    }
}

/// The truth value that a configuration flag names, if any.
pub open spec fn flag_of(s: Seq<char>) -> Option<bool> {
    if s == "true"@ {
        Some(true)
    } else if s == "false"@ {
        Some(false)
    } else {
        None
    }
}

/// Reads a flag value.
pub fn parse_flag(s: &str) -> (r: Option<bool>)
    ensures
        r == flag_of(s@),
{
    if same_text(s, "true") {
        Some(true)
    } else if same_text(s, "false") {
        Some(false)
    } else {
        None
    }
}

/// The target that the four text fields describe, or the first field that
/// is not valid.
pub open spec fn target_of(
    id: Seq<char>,
    location: Seq<char>,
    format: Seq<char>,
    save_playlist: Seq<char>,
) -> Result<(Seq<char>, Seq<char>, MediaFormat, bool), ConfigError> {
    match format_of(format) {
        None => Err(ConfigError::UnknownFormat),
        Some(f) => match flag_of(save_playlist) {
            None => Err(ConfigError::UnknownIndexFlag),
            Some(b) => Ok((id, location, f, b)),
        },
    }
}

/// The view of a target: playlist id, location, format, index flag.
pub open spec fn target_view(t: SyncTarget) -> (Seq<char>, Seq<char>, MediaFormat, bool) {
    (t.remote_playlist_id@, t.local_location@, t.media_format, t.emit_index)
}

/// The views of a sequence of targets.
pub open spec fn target_views(ts: Seq<SyncTarget>) -> Seq<(Seq<char>, Seq<char>, MediaFormat, bool)> {
    ts.map_values(|t: SyncTarget| target_view(t))
}

/// Checks four text fields and builds the target they describe.
pub fn make_target(id: &str, location: &str, format: &str, save_playlist: &str) -> (r: Result<SyncTarget, ConfigError>)
    ensures
        match target_of(id@, location@, format@, save_playlist@) {
            Ok(t) => r is Ok && target_view(r->Ok_0) == t,
            Err(e) => r == Err::<SyncTarget, ConfigError>(e),
        },
{
    let f = match parse_format(format) {
        Some(f) => f,
        None => {
            return Err(ConfigError::UnknownFormat);
        },
    };
    let b = match parse_flag(save_playlist) {
        Some(b) => b,
        None => {
            return Err(ConfigError::UnknownIndexFlag);
        },
    };
    Ok(
        SyncTarget {
            remote_playlist_id: String::from_str(id),
            local_location: String::from_str(location),
            media_format: f,
            emit_index: b,
        },
    )
}

/// The view of a configuration entry's four fields.
pub open spec fn item_fields(it: Item) -> (Seq<char>, Seq<char>, Seq<char>, Seq<char>) {
    (it.id@, it.location@, it.format@, it.save_playlist@)
}

/// The targets of all entries, in order, or the error of the first entry
/// that is not valid.
pub open spec fn targets_of(items: Seq<Item>) -> Result<
    Seq<(Seq<char>, Seq<char>, MediaFormat, bool)>,
    ConfigError,
>
    decreases items.len(),
{
    if items.len() == 0 {
        Ok(Seq::empty())
    } else {
        match targets_of(items.drop_last()) {
            Err(e) => Err(e),
            Ok(ts) => {
                let it = items.last();
                match target_of(it.id@, it.location@, it.format@, it.save_playlist@) {
                    Err(e) => Err(e),
                    Ok(t) => Ok(ts.push(t)),
                }
            },
        }
    }
}

proof fn error_persists(items: Seq<Item>, j: int, m: int, e: ConfigError)
    requires
        0 <= j <= m <= items.len(),
        targets_of(items.take(j)) == Err::<Seq<(Seq<char>, Seq<char>, MediaFormat, bool)>, ConfigError>(e),
    ensures
        targets_of(items.take(m)) == Err::<Seq<(Seq<char>, Seq<char>, MediaFormat, bool)>, ConfigError>(e),
    decreases m - j,
{
    if j < m {
        assert(items.take(j + 1).drop_last() =~= items.take(j));
        error_persists(items, j + 1, m, e);
    }
}

/// Checks every entry of the configuration and builds its targets.
pub fn config_targets(config: &Config) -> (r: Result<Vec<SyncTarget>, ConfigError>)
    ensures
        match targets_of(config.items@) {
            Ok(ts) => r is Ok && target_views(r->Ok_0@) == ts,
            Err(e) => r == Err::<Vec<SyncTarget>, ConfigError>(e),
        },
{
    let items = &config.items;
    let mut out: Vec<SyncTarget> = Vec::new();
    let mut i: usize = 0;
    assert(items@.take(0) =~= Seq::<Item>::empty());
    assert(target_views(out@) =~= Seq::<(Seq<char>, Seq<char>, MediaFormat, bool)>::empty());
    while i < items.len()
        invariant
            i <= items@.len(),
            items@ == config.items@,
            targets_of(items@.take(i as int)) == Ok::<
                Seq<(Seq<char>, Seq<char>, MediaFormat, bool)>,
                ConfigError,
            >(target_views(out@)),
        decreases items@.len() - i,
    {
        assert(items@.take(i + 1).drop_last() =~= items@.take(i as int));
        assert(items@.take(i + 1).last() == items@[i as int]);
        let it = &items[i];
        match make_target(it.id.as_str(), it.location.as_str(), it.format.as_str(), it.save_playlist.as_str()) {
            Err(e) => {
                proof {
                    assert(targets_of(items@.take(i + 1)) == Err::<
                        Seq<(Seq<char>, Seq<char>, MediaFormat, bool)>,
                        ConfigError,
                    >(e));
                    error_persists(items@, i + 1, items@.len() as int, e);
                    assert(items@.take(items@.len() as int) =~= items@);
                }
                return Err(e);
            },
            Ok(t) => {
                let ghost before = out@;
                out.push(t);
                assert(target_views(out@) =~= target_views(before).push(target_view(t)));
            },
        }
        i = i + 1;
    }
    assert(items@.take(i as int) =~= items@);
    Ok(out)
}

/// The targets of a run: the single target named on the command line when
/// both a playlist id and a location are given (format `audio` and an index
/// unless said otherwise), else every target of the configuration.
pub fn select_targets(
    config: &Config,
    playlist_id: Option<String>,
    location: Option<String>,
    format: Option<String>,
    save_playlist: Option<String>,
) -> (r: Result<Vec<SyncTarget>, ConfigError>)
    ensures
        match (playlist_id, location) {
            (Some(id), Some(loc)) => {
                let f = match format {
                    Some(f) => f@,
                    None => "audio"@,
                };
                let s = match save_playlist {
                    Some(s) => s@,
                    None => "true"@,
                };
                match target_of(id@, loc@, f, s) {
                    Ok(t) => r is Ok && target_views(r->Ok_0@) == seq![t],
                    Err(e) => r == Err::<Vec<SyncTarget>, ConfigError>(e),
                }
            },
            _ => match targets_of(config.items@) {
                Ok(ts) => r is Ok && target_views(r->Ok_0@) == ts,
                Err(e) => r == Err::<Vec<SyncTarget>, ConfigError>(e),
            },
        },
{
    match (playlist_id, location) {
        (Some(id), Some(loc)) => {
            let f = match format {
                Some(f) => f,
                None => String::from_str("audio"),
            };
            let s = match save_playlist {
                Some(s) => s,
                None => String::from_str("true"),
            };
            match make_target(id.as_str(), loc.as_str(), f.as_str(), s.as_str()) {
                Ok(t) => {
                    let v = vec![t];
                    assert(target_views(v@) =~= seq![target_view(t)]);
                    Ok(v)
                },
                Err(e) => Err(e),
            }
        },
        _ => config_targets(config),
    }
}

/// Where the configuration lives under a home directory.
pub open spec fn config_path_of(home: Seq<char>) -> Seq<char> {
    home + "/.config/yt-sync/config.toml"@
}

/// Builds the configuration path under the home directory `home`.
pub fn config_path_in(home: &str) -> (r: String)
    ensures
        r@ == config_path_of(home@),
{
    let mut r = String::from_str(home);
    r.append("/.config/yt-sync/config.toml");
    r
}

} // verus!
