//! Reading the acquisition tool's flat, metadata-only listing of a playlist:
//! one JSON object per line, each with at least an `id` and a `title`.
use vstd::prelude::*;
use crate::reconcile::{RemoteItem, item_views};
use crate::sanitize::{sanitized, sanitize_filename};
use crate::text::{lines_of, split_lines, views};

verus! {

/// The `id` and `title` string members of `line` read as one JSON object, or
/// nothing where the line is not such an object.
pub uninterp spec fn json_record(line: Seq<char>) -> Option<(Seq<char>, Seq<char>)>;

/// Relies on `serde_json::from_str` to read the line as a `serde_json::Value`,
/// and on `Value::get` and `Value::as_str` to take its `id` and `title`
/// members where both are strings.
#[verifier::external_body]
fn read_record(line: &str) -> (r: Option<(String, String)>)
    ensures
        match r {
            Some((id, title)) => json_record(line@) == Some((id@, title@)),
            None => json_record(line@) is None,
        },
{
    let v: serde_json::Value = serde_json::from_str(line).ok()?;
    let id = v.get("id")?.as_str()?;
    let title = v.get("title")?.as_str()?;
    Some((id.to_string(), title.to_string()))
}

/// Why a playlist could not be listed.
#[derive(Clone, Copy, Debug, PartialEq, Eq, Structural)]
pub enum ListingError {
    /// The tool could not be started or exited with a failure status.
    ToolFailed,
    /// The tool's output was not UTF-8 text.
    NotText,
    /// The line at this position (counted from zero) is not a JSON object
    /// with string members `id` and `title`.
    MalformedLine { line: usize },
}

/// The item for an (id, raw title) record: the title is sanitised.
pub open spec fn item_of_record(rec: (Seq<char>, Seq<char>)) -> (Seq<char>, Seq<char>) {
    (rec.0, sanitized(rec.1))
}

/// The items listed by `lines`, in order, or the position of the first line
/// that is no record.
pub open spec fn listing_of(lines: Seq<Seq<char>>) -> Result<Seq<(Seq<char>, Seq<char>)>, nat>
    decreases lines.len(),
{
    if lines.len() == 0 {
        Ok(Seq::empty())
    } else {
        match listing_of(lines.drop_last()) {
            Err(k) => Err(k),
            Ok(items) => match json_record(lines.last()) {
                None => Err((lines.len() - 1) as nat),
                Some(rec) => Ok(items.push(item_of_record(rec))),
            },
        }
    }
}

proof fn failure_persists(lines: Seq<Seq<char>>, j: int, m: int, k: nat)
    requires
        0 <= j <= m <= lines.len(),
        listing_of(lines.take(j)) == Err::<Seq<(Seq<char>, Seq<char>)>, nat>(k),
    ensures
        listing_of(lines.take(m)) == Err::<Seq<(Seq<char>, Seq<char>)>, nat>(k),
    decreases m - j,
{
    if j < m {
        assert(lines.take(j + 1).drop_last() =~= lines.take(j));
        failure_persists(lines, j + 1, m, k);
    }
}

/// The remote item for a record read from the listing.
pub fn remote_item(id: String, raw_title: &str) -> (r: RemoteItem)
    ensures
        r.id@ == id@,
        r.title@ == sanitized(raw_title@),
{
    RemoteItem { id, title: sanitize_filename(raw_title) }
}

/// Reads every line as a record; fails on the first that is none, so that a
/// listing is either complete or absent.
pub fn parse_listing_lines(lines: &Vec<String>) -> (r: Result<Vec<RemoteItem>, ListingError>)
    ensures
        match listing_of(views(lines@)) {
            Ok(items) => r is Ok && item_views(r->Ok_0@) == items,
            Err(k) => r == Err::<Vec<RemoteItem>, ListingError>(
                ListingError::MalformedLine { line: k as usize },
            ),
        },
{
    let mut items: Vec<RemoteItem> = Vec::new();
    let mut i: usize = 0;
    assert(views(lines@).take(0) =~= Seq::<Seq<char>>::empty());
    assert(item_views(items@) =~= Seq::<(Seq<char>, Seq<char>)>::empty());
    while i < lines.len()
        invariant
            i <= lines@.len(),
            listing_of(views(lines@).take(i as int)) == Ok::<
                Seq<(Seq<char>, Seq<char>)>,
                nat,
            >(item_views(items@)),
        decreases lines@.len() - i,
    {
        let ghost pre = views(lines@).take(i as int);
        let ghost next = views(lines@).take(i + 1);
        assert(next.drop_last() =~= pre);
        assert(next.last() == lines@[i as int]@);
        match read_record(lines[i].as_str()) {
            None => {
                proof {
                    failure_persists(views(lines@), i + 1, views(lines@).len() as int, i as nat);
                    assert(views(lines@).take(views(lines@).len() as int) =~= views(lines@));
                }
                return Err(ListingError::MalformedLine { line: i });
            },
            Some((id, title)) => {
                let item = remote_item(id, title.as_str());
                let ghost before = items@;
                items.push(item);
                assert(item_views(items@) =~= item_views(before).push(item_of_record((id@, title@))));
            },
        }
        i = i + 1;
    }
    assert(views(lines@).take(i as int) =~= views(lines@));
    Ok(items)
}

/// Interprets one run of the listing: a failed run is an error; otherwise the
/// output is read line by line.
pub fn parse_listing(tool_succeeded: bool, stdout: &str) -> (r: Result<Vec<RemoteItem>, ListingError>)
    ensures
        !tool_succeeded ==> r == Err::<Vec<RemoteItem>, ListingError>(ListingError::ToolFailed),
        tool_succeeded ==> match listing_of(lines_of(stdout@)) {
            Ok(items) => r is Ok && item_views(r->Ok_0@) == items,
            Err(k) => r == Err::<Vec<RemoteItem>, ListingError>(
                ListingError::MalformedLine { line: k as usize },
            ),
        },
{
    if !tool_succeeded {
        return Err(ListingError::ToolFailed);
    }
    let lines = split_lines(stdout);
    parse_listing_lines(&lines)
}

/// The canonical address of a playlist.
pub open spec fn playlist_url_of(playlist_id: Seq<char>) -> Seq<char> {
    "https://www.youtube.com/playlist?list="@ + playlist_id
}

/// Builds the address of a playlist from its id.
pub fn playlist_url(playlist_id: &str) -> (r: String)
    ensures
        r@ == playlist_url_of(playlist_id@),
{
    let mut r = String::from_str("https://www.youtube.com/playlist?list=");
    r.append(playlist_id);
    r
}

/// The tool's arguments for a flat, metadata-only listing of a playlist.
pub fn listing_args(playlist_id: &str) -> (r: Vec<String>)
    ensures
        views(r@) == seq!["-j"@, "--flat-playlist"@, playlist_url_of(playlist_id@)],
{
    let r = vec![String::from_str("-j"), String::from_str("--flat-playlist"), playlist_url(playlist_id)];
    assert(views(r@) =~= seq!["-j"@, "--flat-playlist"@, playlist_url_of(playlist_id@)]);
    r
}

} // verus!
