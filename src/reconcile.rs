//! Reconciling a remote playlist against a snapshot of the local directory.
//!
//! A [`Reconciler`] walks the remote items in playlist order. Items whose file
//! name is already in the snapshot are recorded in the index at once; for each
//! other item it asks its driver to fetch it and waits for the outcome. The
//! driver performs the fetch; the decisions, the index and the count stay here.
use vstd::prelude::*;
use crate::sanitize::{sanitized, sanitize_filename};
use crate::target::{MediaFormat, extension_of};
use crate::text::views;

verus! {

/// One item of a remote playlist. The title is sanitised when the item is
/// read from the listing.
#[derive(Clone, Debug)]
pub struct RemoteItem {
    pub id: String,
    pub title: String,
}

/// The (id, title) views of a sequence of items.
pub open spec fn item_views(items: Seq<RemoteItem>) -> Seq<(Seq<char>, Seq<char>)> {
    items.map_values(|it: RemoteItem| (it.id@, it.title@))
}

/// The local file name that an item with this title and id is stored under:
/// `"<sanitised title> [<id>].<extension>"`. It is the key that matches
/// remote items against local files.
pub open spec fn file_name_of(title: Seq<char>, id: Seq<char>, format: MediaFormat) -> Seq<char> {
    sanitized(title) + " ["@ + id + "]."@ + extension_of(format)
}

/// The file name of an (id, title) pair.
pub open spec fn key_of(item: (Seq<char>, Seq<char>), format: MediaFormat) -> Seq<char> {
    file_name_of(item.1, item.0, format)
}

/// A file name joined to the directory it stands in, with exactly the one
/// separator that the directory does not already end with.
pub open spec fn entry_path_of(location: Seq<char>, name: Seq<char>) -> Seq<char> {
    if location.len() == 0 {
        name
    } else if location.last() == '/' {
        location + name
    } else {
        location + "/"@ + name
    }
}

/// Computes the local file name of `item` in `format`.
pub fn file_name(item: &RemoteItem, format: MediaFormat) -> (r: String)
    ensures
        r@ == file_name_of(item.title@, item.id@, format),
{
    let mut r = sanitize_filename(item.title.as_str());
    r.append(" [");
    r.append(item.id.as_str());
    r.append("].");
    r.append(format.extension());
    r
}

/// Joins a directory and a file name for the index.
pub fn entry_path(location: &str, name: &str) -> (r: String)
    ensures
        r@ == entry_path_of(location@, name@),
{
    let n = location.unicode_len();
    if n == 0 {
        String::from_str(name)
    } else {
        let mut r = String::from_str(location);
        if location.get_char(n - 1) != '/' {
            r.append("/");
        }
        r.append(name);
        r
    }
}

/// The local directory as seen when comparing: each name sanitised as remote
/// titles are.
pub open spec fn scanned(names: Seq<Seq<char>>) -> Seq<Seq<char>> {
    names.map_values(|n: Seq<char>| sanitized(n))
}

/// Builds the snapshot of a local directory from the names of its entries.
pub fn scan_snapshot(names: &Vec<String>) -> (r: Vec<String>)
    ensures
        views(r@) == scanned(views(names@)),
{
    let mut r: Vec<String> = Vec::new();
    let mut i: usize = 0;
    while i < names.len()
        invariant
            i <= names@.len(),
            views(r@) == scanned(views(names@)).take(i as int),
        decreases names@.len() - i,
    {
        let s = sanitize_filename(names[i].as_str());
        let ghost before = r@;
        r.push(s);
        proof {
            assert(r@ == before.push(s));
            assert(views(r@) =~= views(before).push(s@));
            assert(scanned(views(names@))[i as int] == sanitized(names@[i as int]@));
            assert(scanned(views(names@)).take(i + 1) =~= scanned(views(names@)).take(i as int).push(s@));
        }
        i = i + 1;
        assert(views(r@) =~= scanned(views(names@)).take(i as int));
    }
    assert(scanned(views(names@)).take(i as int) =~= scanned(views(names@)));
    r
}

/// Whether `key` is one of `names`.
fn contains_name(names: &Vec<String>, key: &String) -> (r: bool)
    ensures
        r == views(names@).contains(key@),
{
    let mut i: usize = 0;
    while i < names.len()
        invariant
            i <= names@.len(),
            forall|j: int| 0 <= j < i ==> names@[j]@ != key@,
        decreases names@.len() - i,
    {
        if names[i] == *key {
            assert(views(names@)[i as int] == key@);
            return true;
        }
        i = i + 1;
    }
    proof {
        if views(names@).contains(key@) {
            let j = choose|j: int| 0 <= j < views(names@).len() && views(names@)[j] == key@;
            assert(names@[j]@ == key@);
        }
    }
    false
}

/// What a reconciliation run works on: fixed for the whole run.
pub struct Plan {
    pub location: Seq<char>,
    pub format: MediaFormat,
    /// (id, title) of each remote item, in playlist order.
    pub items: Seq<(Seq<char>, Seq<char>)>,
    /// The sanitised names in the local directory when the run started.
    pub snapshot: Seq<Seq<char>>,
}

/// Whether item `i` is already present in the local snapshot.
pub open spec fn is_present(p: Plan, i: int) -> bool {
    p.snapshot.contains(key_of(p.items[i], p.format))
}

/// Whether item `i` is present locally at the end of the run: it was there
/// already, or its fetch succeeded.
pub open spec fn is_satisfied(p: Plan, outcomes: Seq<bool>, i: int) -> bool {
    is_present(p, i) || outcomes[i]
}

/// The index path of item `i`.
pub open spec fn entry_of(p: Plan, i: int) -> Seq<char> {
    entry_path_of(p.location, key_of(p.items[i], p.format))
}

/// The index lines for the first `n` items: the path of each satisfied one,
/// in playlist order.
pub open spec fn index_upto(p: Plan, outcomes: Seq<bool>, n: nat) -> Seq<Seq<char>>
    decreases n,
{
    if n == 0 {
        Seq::empty()
    } else {
        let prev = index_upto(p, outcomes, (n - 1) as nat);
        if is_satisfied(p, outcomes, n - 1) {
            prev.push(entry_of(p, n - 1))
        } else {
            prev
        }
    }
}

/// How many of the first `n` items were fetched with success.
pub open spec fn synced_upto(p: Plan, outcomes: Seq<bool>, n: nat) -> nat
    decreases n,
{
    if n == 0 {
        0
    } else {
        synced_upto(p, outcomes, (n - 1) as nat) + if !is_present(p, n - 1) && outcomes[n
            - 1] {
            1nat
        } else {
            0nat
        }
    }
}

/// How many of the first `n` items were fetched and failed.
pub open spec fn failed_upto(p: Plan, outcomes: Seq<bool>, n: nat) -> nat
    decreases n,
{
    if n == 0 {
        0
    } else {
        failed_upto(p, outcomes, (n - 1) as nat) + if !is_present(p, n - 1) && !outcomes[n
            - 1] {
            1nat
        } else {
            0nat
        }
    }
}

/// How many of the first `n` items were already present.
pub open spec fn present_upto(p: Plan, n: nat) -> nat
    decreases n,
{
    if n == 0 {
        0
    } else {
        present_upto(p, (n - 1) as nat) + if is_present(p, n - 1) {
            1nat
        } else {
            0nat
        }
    }
}

/// The state of a run: its plan, how far it has come, whether it waits for a
/// fetch of the item at `cursor`, the outcome of each item before `cursor`
/// (`false` for items that were present and not fetched), and what it has
/// recorded.
pub struct RunModel {
    pub plan: Plan,
    pub cursor: nat,
    pub awaiting: bool,
    pub outcomes: Seq<bool>,
    pub index: Seq<Seq<char>>,
    pub synced: nat,
}

/// What the driver of a run is to do next.
#[derive(Debug)]
pub enum Step {
    /// Fetch the item at `position`, with this id, and report the outcome.
    Fetch { position: usize, id: String },
    /// Every item has been handled.
    Done,
}

/// A reconciliation run over one target.
pub struct Reconciler {
    location: String,
    format: MediaFormat,
    items: Vec<RemoteItem>,
    snapshot: Vec<String>,
    cursor: usize,
    awaiting: bool,
    index: Vec<String>,
    synced: usize,
    outcomes: Ghost<Seq<bool>>,
}

impl View for Reconciler {
    type V = RunModel;

    closed spec fn view(&self) -> RunModel {
        RunModel {
            plan: Plan {
                location: self.location@,
                format: self.format,
                items: item_views(self.items@),
                snapshot: views(self.snapshot@),
            },
            cursor: self.cursor as nat,
            awaiting: self.awaiting,
            outcomes: self.outcomes@,
            index: views(self.index@),
            synced: self.synced as nat,
        }
    }
}

/// The bookkeeping of a run agrees with its outcomes so far.
pub open spec fn run_consistent(m: RunModel) -> bool {
    &&& m.cursor <= m.plan.items.len()
    &&& m.outcomes.len() == m.cursor
    &&& m.index == index_upto(m.plan, m.outcomes, m.cursor)
    &&& m.synced == synced_upto(m.plan, m.outcomes, m.cursor)
    &&& m.awaiting ==> m.cursor < m.plan.items.len() && !is_present(m.plan, m.cursor as int)
}

proof fn synced_bounded(p: Plan, outcomes: Seq<bool>, n: nat)
    ensures
        synced_upto(p, outcomes, n) <= n,
    decreases n,
{
    if n > 0 {
        synced_bounded(p, outcomes, (n - 1) as nat);
    }
}

proof fn upto_prefix(p: Plan, o: Seq<bool>, o2: Seq<bool>, n: nat)
    requires
        n <= o.len(),
        n <= o2.len(),
        o.take(n as int) == o2.take(n as int),
    ensures
        index_upto(p, o, n) == index_upto(p, o2, n),
        synced_upto(p, o, n) == synced_upto(p, o2, n),
        failed_upto(p, o, n) == failed_upto(p, o2, n),
    decreases n,
{
    if n > 0 {
        assert(o.take(n - 1) =~= o.take(n as int).take(n - 1));
        assert(o2.take(n - 1) =~= o2.take(n as int).take(n - 1));
        assert(o[n - 1] == o.take(n as int)[n - 1]);
        assert(o2[n - 1] == o2.take(n as int)[n - 1]);
        upto_prefix(p, o, o2, (n - 1) as nat);
    }
}

impl Reconciler {
    /// The invariant of every run.
    pub closed spec fn wf(&self) -> bool {
        &&& run_consistent(self@)
        &&& self.items@.len() < usize::MAX
    }

    /// Starts a run over `items`, in playlist order, against a snapshot of
    /// sanitised local names.
    pub fn new(location: &str, format: MediaFormat, items: Vec<RemoteItem>, snapshot: Vec<String>) -> (r: Reconciler)
        requires
            items@.len() < usize::MAX,
        ensures
            r.wf(),
            run_consistent(r@),
            r@.plan == (Plan {
                location: location@,
                format,
                items: item_views(items@),
                snapshot: views(snapshot@),
            }),
            r@.cursor == 0,
            !r@.awaiting,
    {
        let r = Reconciler {
            location: String::from_str(location),
            format,
            items,
            snapshot,
            cursor: 0,
            awaiting: false,
            index: Vec::new(),
            synced: 0,
            outcomes: Ghost(Seq::empty()),
        };
        assert(views(r.index@) =~= Seq::empty());
        r
    }

    /// Records the items that are already present, from the cursor on, until
    /// it reaches one that must be fetched or the end of the playlist.
    pub fn next_step(&mut self) -> (r: Step)
        requires
            old(self).wf(),
            !old(self)@.awaiting,
        ensures
            final(self).wf(),
            run_consistent(final(self)@),
            final(self)@.plan == old(self)@.plan,
            old(self)@.cursor <= final(self)@.cursor,
            final(self)@.outcomes.take(old(self)@.cursor as int) == old(self)@.outcomes,
            forall|j: int|
                old(self)@.cursor <= j < final(self)@.cursor ==> is_present(final(self)@.plan, j),
            match r {
                Step::Fetch { position, id } => {
                    &&& position == final(self)@.cursor
                    &&& !is_present(final(self)@.plan, position as int)
                    &&& final(self)@.awaiting
                    &&& id@ == final(self)@.plan.items[position as int].0
                },
                Step::Done => {
                    &&& final(self)@.cursor == final(self)@.plan.items.len()
                    &&& !final(self)@.awaiting
                },
            },
    {
        let ghost start = self.outcomes@;
        let ghost p = self@.plan;
        while self.cursor < self.items.len()
            invariant
                self.wf(),
                self@.plan == p,
                p == old(self)@.plan,
                !self@.awaiting,
                old(self)@.cursor <= self@.cursor,
                self@.outcomes.take(old(self)@.cursor as int) == start,
                start == old(self)@.outcomes,
                forall|j: int| old(self)@.cursor <= j < self@.cursor ==> is_present(p, j),
            decreases self.items@.len() - self.cursor,
        {
            let name = file_name(&self.items[self.cursor], self.format);
            assert(name@ == key_of(p.items[self.cursor as int], p.format));
            if !contains_name(&self.snapshot, &name) {
                self.awaiting = true;
                let id = self.items[self.cursor].id.clone();
                return Step::Fetch { position: self.cursor, id };
            }
            let line = entry_path(self.location.as_str(), name.as_str());
            let ghost o = self.outcomes@;
            let ghost c = self.cursor as nat;
            self.index.push(line);
            self.outcomes = Ghost(self.outcomes@.push(false));
            self.cursor = self.cursor + 1;
            proof {
                assert(self.outcomes@.take(c as int) =~= o);
                assert(o.take(c as int) =~= o);
                upto_prefix(p, o, self.outcomes@, c);
                assert(views(self.index@) =~= index_upto(p, self.outcomes@, self.cursor as nat));
                assert(self.outcomes@.take(old(self)@.cursor as int) =~= start);
            }
        }
        Step::Done
    }

    /// Records the outcome of the fetch that the last step asked for, and
    /// moves past that item whatever the outcome.
    pub fn record_fetch(&mut self, fetched: bool)
        requires
            old(self).wf(),
            old(self)@.awaiting,
        ensures
            final(self).wf(),
            run_consistent(final(self)@),
            final(self)@.plan == old(self)@.plan,
            !final(self)@.awaiting,
            final(self)@.cursor == old(self)@.cursor + 1,
            final(self)@.outcomes == old(self)@.outcomes.push(fetched),
    {
        let ghost p = self@.plan;
        let ghost o = self.outcomes@;
        let ghost c = self.cursor as nat;
        proof {
            synced_bounded(p, o, c);
        }
        if fetched {
            let name = file_name(&self.items[self.cursor], self.format);
            let line = entry_path(self.location.as_str(), name.as_str());
            self.index.push(line);
            self.synced = self.synced + 1;
        }
        self.outcomes = Ghost(self.outcomes@.push(fetched));
        self.cursor = self.cursor + 1;
        self.awaiting = false;
        proof {
            assert(self.outcomes@.take(c as int) =~= o);
            assert(o.take(c as int) =~= o);
            upto_prefix(p, o, self.outcomes@, c);
            assert(views(self.index@) =~= index_upto(p, self.outcomes@, self.cursor as nat));
        }
    }

    /// The index lines recorded so far: the path of every satisfied item
    /// before the cursor, in playlist order.
    pub fn index_entries(&self) -> (r: &Vec<String>)
        requires
            self.wf(),
        ensures
            views(r@) == index_upto(self@.plan, self@.outcomes, self@.cursor),
    {
        &self.index
    }

    /// How many items this run has fetched with success.
    pub fn synced_count(&self) -> (r: usize)
        requires
            self.wf(),
        ensures
            r == synced_upto(self@.plan, self@.outcomes, self@.cursor),
    {
        self.synced
    }
}

/// The positions of the satisfied items among the first `n`, in order.
pub open spec fn satisfied_positions(p: Plan, outcomes: Seq<bool>, n: nat) -> Seq<int>
    decreases n,
{
    if n == 0 {
        Seq::empty()
    } else {
        let prev = satisfied_positions(p, outcomes, (n - 1) as nat);
        if is_satisfied(p, outcomes, n - 1) {
            prev.push(n - 1)
        } else {
            prev
        }
    }
}

/// The index lists exactly the items that are satisfied, each once, in
/// playlist order: line `k` is the path of the `k`-th satisfied item, and the
/// positions of those items increase.
pub proof fn index_follows_playlist_order(p: Plan, outcomes: Seq<bool>, n: nat)
    ensures
        ({
            let idx = index_upto(p, outcomes, n);
            let pos = satisfied_positions(p, outcomes, n);
            &&& idx.len() == pos.len()
            &&& forall|k: int| 0 <= k < pos.len() ==> 0 <= #[trigger] pos[k] < n
            &&& forall|k: int| 0 <= k < pos.len() ==> idx[k] == entry_of(p, #[trigger] pos[k])
            &&& forall|k1: int, k2: int|
                0 <= k1 < k2 < pos.len() ==> #[trigger] pos[k1] < #[trigger] pos[k2]
            &&& forall|i: int| 0 <= i < n ==> (is_satisfied(p, outcomes, i) <==> pos.contains(i))
        }),
    decreases n,
{
    if n > 0 {
        let m = (n - 1) as nat;
        index_follows_playlist_order(p, outcomes, m);
        let pos0 = satisfied_positions(p, outcomes, m);
        let pos = satisfied_positions(p, outcomes, n);
        assert forall|i: int| 0 <= i < n implies (is_satisfied(p, outcomes, i) <==> pos.contains(i)) by {
            if is_satisfied(p, outcomes, m as int) {
                assert(pos == pos0.push(m as int));
                if i < m {
                    if pos0.contains(i) {
                        let k = choose|k: int| 0 <= k < pos0.len() && pos0[k] == i;
                        assert(pos[k] == i);
                    }
                    if pos.contains(i) {
                        let k = choose|k: int| 0 <= k < pos.len() && pos[k] == i;
                        assert(k < pos0.len());
                        assert(pos0[k] == i);
                    }
                } else {
                    assert(pos[pos.len() - 1] == i);
                }
            } else {
                if i == m {
                    if pos.contains(i) {
                        let k = choose|k: int| 0 <= k < pos.len() && pos[k] == i;
                        assert(pos0[k] < m);
                    }
                }
            }
        }
    }
}

/// Every item falls under exactly one of: already present, fetched with
/// success, fetch failed. So with `M` present and `F` successful fetches
/// among `N` items, the run reports exactly `F`, which is `N - M` less the
/// failures.
pub proof fn every_item_counted_once(p: Plan, outcomes: Seq<bool>, n: nat)
    ensures
        synced_upto(p, outcomes, n) + failed_upto(p, outcomes, n) + present_upto(p, n) == n,
    decreases n,
{
    if n > 0 {
        every_item_counted_once(p, outcomes, (n - 1) as nat);
    }
}

/// A second run over the same playlist, against a directory that holds every
/// item the first run left satisfied, fetches only what the first run failed
/// to fetch. So after a run without failures, a second run syncs nothing new,
/// whatever its fetches would return.
pub proof fn second_run_fetches_only_failures(p1: Plan, o1: Seq<bool>, p2: Plan, o2: Seq<bool>)
    requires
        p2.items == p1.items,
        p2.format == p1.format,
        o1.len() == p1.items.len(),
        forall|i: int|
            0 <= i < p1.items.len() && is_satisfied(p1, o1, i) ==> p2.snapshot.contains(
                key_of(p1.items[i], p1.format),
            ),
    ensures
        forall|i: int|
            0 <= i < p1.items.len() && !is_present(p2, i) ==> !is_present(p1, i) && !o1[i],
        synced_upto(p2, o2, p1.items.len()) <= failed_upto(p1, o1, p1.items.len()),
        failed_upto(p1, o1, p1.items.len()) == 0 ==> synced_upto(p2, o2, p1.items.len()) == 0,
{
    assert forall|i: int|
        0 <= i < p1.items.len() && !is_present(p2, i) implies !is_present(p1, i) && !o1[i] by {
        if is_satisfied(p1, o1, i) {
            assert(p2.snapshot.contains(key_of(p1.items[i], p1.format)));
        }
    }
    second_run_bound(p1, o1, p2, o2, p1.items.len());
}

proof fn second_run_bound(p1: Plan, o1: Seq<bool>, p2: Plan, o2: Seq<bool>, n: nat)
    requires
        n <= p1.items.len(),
        p2.items == p1.items,
        p2.format == p1.format,
        forall|i: int|
            0 <= i < p1.items.len() && is_satisfied(p1, o1, i) ==> p2.snapshot.contains(
                key_of(p1.items[i], p1.format),
            ),
    ensures
        synced_upto(p2, o2, n) <= failed_upto(p1, o1, n),
    decreases n,
{
    if n > 0 {
        let i = n - 1;
        second_run_bound(p1, o1, p2, o2, (n - 1) as nat);
        if is_satisfied(p1, o1, i) {
            assert(p2.snapshot.contains(key_of(p1.items[i], p1.format)));
            assert(is_present(p2, i));
        }
    }
}

/// A local file that carries an item's file name verbatim is found in the
/// snapshot under that same name, so the run records the item as present and
/// never asks to fetch it. The id must be one that sanitising leaves alone, as
/// a name that a file system holds is.
pub proof fn correctly_named_file_is_matched(
    id: Seq<char>,
    title: Seq<char>,
    format: MediaFormat,
    names: Seq<Seq<char>>,
)
    requires
        names.contains(file_name_of(title, id, format)),
        sanitized(id) == id,
    ensures
        scanned(names).contains(file_name_of(title, id, format)),
{
    let key = file_name_of(title, id, format);
    reveal_strlit(" [");
    reveal_strlit("].");
    reveal_strlit("opus");
    reveal_strlit("mkv");
    let ext = extension_of(format);
    assert(sanitized(" ["@) =~= " ["@);
    assert(sanitized("]."@) =~= "]."@);
    assert(sanitized(ext) =~= ext);
    crate::sanitize::sanitize_idempotent(title);
    crate::sanitize::sanitize_concat(sanitized(title), " ["@);
    crate::sanitize::sanitize_concat(sanitized(title) + " ["@, id);
    crate::sanitize::sanitize_concat(sanitized(title) + " ["@ + id, "]."@);
    crate::sanitize::sanitize_concat(sanitized(title) + " ["@ + id + "]."@, ext);
    assert(sanitized(key) == key);
    let k = choose|k: int| 0 <= k < names.len() && names[k] == key;
    assert(scanned(names)[k] == key);
}

} // verus!
