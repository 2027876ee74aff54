//! Fetching one item: the acquisition tool's arguments and the reading of its
//! exit status.
use vstd::prelude::*;
use crate::target::MediaFormat;
use crate::text::views;

verus! {

/// The exit status with which the tool says that the item already satisfies
/// the request and nothing was done.
pub const ALREADY_SATISFIED_EXIT: i32 = 100;

/// The address of one item.
pub open spec fn item_url_of(item_id: Seq<char>) -> Seq<char> {
    "https://www.youtube.com/watch?v="@ + item_id
}

/// Builds the address of one item from its id.
pub fn item_url(item_id: &str) -> (r: String)
    ensures
        r@ == item_url_of(item_id@),
{
    let mut r = String::from_str("https://www.youtube.com/watch?v=");
    r.append(item_id);
    r
}

/// The arguments that choose how an item is stored in a format.
pub open spec fn format_args_of(format: MediaFormat) -> Seq<Seq<char>> {
    match format {
        MediaFormat::Audio => seq!["-x"@, "--audio-format"@, "opus"@],
        MediaFormat::Video => seq!["-f"@, "bestvideo+bestaudio"@, "--merge-output-format"@, "mkv"@],
    }
}

/// The tool's arguments to fetch one item into `destination`, quietly, with
/// thumbnail and metadata embedded.
pub open spec fn fetch_args_of(item_id: Seq<char>, destination: Seq<char>, format: MediaFormat) -> Seq<Seq<char>> {
    seq![
        "-P"@,
        destination,
        "-q"@,
        "--embed-thumbnail"@,
        "--embed-metadata"@,
        item_url_of(item_id),
    ] + format_args_of(format)
}

/// Builds the tool's arguments to fetch one item.
pub fn fetch_args(item_id: &str, destination: &str, format: MediaFormat) -> (r: Vec<String>)
    ensures
        views(r@) == fetch_args_of(item_id@, destination@, format),
{
    let mut r = vec![
        String::from_str("-P"),
        String::from_str(destination),
        String::from_str("-q"),
        String::from_str("--embed-thumbnail"),
        String::from_str("--embed-metadata"),
        item_url(item_id),
    ];
    match format {
        MediaFormat::Audio => {
            r.push(String::from_str("-x"));
            r.push(String::from_str("--audio-format"));
            r.push(String::from_str("opus"));
        },
        MediaFormat::Video => {
            r.push(String::from_str("-f"));
            r.push(String::from_str("bestvideo+bestaudio"));
            r.push(String::from_str("--merge-output-format"));
            r.push(String::from_str("mkv"));
        },
    }
    assert(views(r@) =~= fetch_args_of(item_id@, destination@, format));
    r
}

/// Whether a fetch left the item present: the tool exited with success, or
/// with the status that says the item was already satisfied. A tool that was
/// ended by a signal has no exit code and failed.
pub open spec fn fetch_succeeded_spec(exit_code: Option<i32>) -> bool {
    exit_code == Some(0i32) || exit_code == Some(ALREADY_SATISFIED_EXIT)
}

/// Reads the exit code of one fetch.
pub fn fetch_succeeded(exit_code: Option<i32>) -> (r: bool)
    ensures
        r == fetch_succeeded_spec(exit_code),
{
    match exit_code {
        Some(code) => code == 0 || code == ALREADY_SATISFIED_EXIT,
        None => false,
    }
}

} // verus!
