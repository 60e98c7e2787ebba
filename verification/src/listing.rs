//! Entries of the remote file browser: directory listings, sorted with
//! directories first and then by name, and the list of places to start
//! browsing from.

use vstd::prelude::*;
use vstd::string::*;

use crate::paths::{forward_slashes, with_forward_slashes};
use crate::text::{decimal, decimal_digits, lemma_text_le_total_order, text_le, text_precedes_or_equals};

verus! {

broadcast use vstd::seq_lib::group_to_multiset_ensures;

/// One entry shown by the file browser.
#[derive(Clone, Debug)]
pub struct FsEntry {
    pub name: String,
    pub path: String,
    pub is_dir: bool,
    pub size: u64,
    /// When the entry last changed, as text; empty when unknown.
    pub modified: String,
}

/// The text content of an `FsEntry`.
pub struct FsEntryView {
    pub name: Seq<char>,
    pub path: Seq<char>,
    pub is_dir: bool,
    pub size: u64,
    pub modified: Seq<char>,
}

impl View for FsEntry {
    type V = FsEntryView;

    open spec fn view(&self) -> FsEntryView {
        FsEntryView {
            name: self.name@,
            path: self.path@,
            is_dir: self.is_dir,
            size: self.size,
            modified: self.modified@,
        }
    }
}

/// A directory entry as read from the file system.
#[derive(Clone, Debug)]
pub struct RawDirEntry {
    pub name: String,
    pub path: String,
    pub is_dir: bool,
    pub size: u64,
    /// Last modification, in whole seconds since the Unix epoch, when known.
    pub modified_secs: Option<u64>,
}

pub open spec fn views(s: Seq<FsEntry>) -> Seq<FsEntryView> {
    s.map_values(|e: FsEntry| e@)
}

/// `a` is listed before `b`, or may stand with it: directories come before
/// files, and within each kind names go in code point order.
pub open spec fn listed_no_later(a: FsEntryView, b: FsEntryView) -> bool {
    if a.is_dir != b.is_dir {
        a.is_dir
    } else {
        text_le(a.name, b.name)
    }
}

/// The listing order is total and transitive.
pub proof fn lemma_listing_order(a: FsEntryView, b: FsEntryView, c: FsEntryView)
    ensures
        listed_no_later(a, a),
        listed_no_later(a, b) || listed_no_later(b, a),
        listed_no_later(a, b) && listed_no_later(b, c) ==> listed_no_later(a, c),
{
    lemma_text_le_total_order(a.name, b.name, c.name);
}

/// `x` placed into `s` after the last element that may come before it.
pub open spec fn insert_in_order(s: Seq<FsEntryView>, x: FsEntryView) -> Seq<FsEntryView>
    decreases s.len(),
{
    if s.len() == 0 {
        seq![x]
    } else if listed_no_later(s.last(), x) {
        s.push(x)
    } else {
        insert_in_order(s.drop_last(), x).push(s.last())
    }
}

/// `s` in listing order; entries that may stand together keep their order.
pub open spec fn listing_order(s: Seq<FsEntryView>) -> Seq<FsEntryView>
    decreases s.len(),
{
    if s.len() == 0 {
        s
    } else {
        insert_in_order(listing_order(s.drop_last()), s.last())
    }
}

pub open spec fn in_listing_order(s: Seq<FsEntryView>) -> bool {
    forall|i: int, j: int| 0 <= i < j < s.len() ==> listed_no_later(s[i], s[j])
}

proof fn lemma_insert_bounded(s: Seq<FsEntryView>, x: FsEntryView, b: FsEntryView)
    requires
        forall|i: int| 0 <= i < s.len() ==> listed_no_later(#[trigger] s[i], b),
        listed_no_later(x, b),
    ensures
        forall|k: int|
            0 <= k < insert_in_order(s, x).len() ==> listed_no_later(
                #[trigger] insert_in_order(s, x)[k],
                b,
            ),
        insert_in_order(s, x).len() == s.len() + 1,
    decreases s.len(),
{
    if s.len() > 0 && !listed_no_later(s.last(), x) {
        lemma_insert_bounded(s.drop_last(), x, b);
    }
}

proof fn lemma_insert_sorted(s: Seq<FsEntryView>, x: FsEntryView)
    requires
        in_listing_order(s),
    ensures
        in_listing_order(insert_in_order(s, x)),
        insert_in_order(s, x).to_multiset() =~= s.to_multiset().insert(x),
    decreases s.len(),
{
    if s.len() == 0 {
        assert(seq![x] =~= Seq::<FsEntryView>::empty().push(x));
    } else if listed_no_later(s.last(), x) {
        assert forall|i: int, j: int|
            0 <= i < j < s.len() + 1 implies listed_no_later(s.push(x)[i], s.push(x)[j]) by {
            if j == s.len() {
                lemma_listing_order(s[i], s.last(), x);
            }
        }
    } else {
        let rest = s.drop_last();
        let l = s.last();
        assert(in_listing_order(rest));
        lemma_insert_sorted(rest, x);
        lemma_listing_order(l, x, x);
        assert forall|i: int| 0 <= i < rest.len() implies listed_no_later(#[trigger] rest[i], l) by {
            assert(rest[i] == s[i]);
        }
        lemma_insert_bounded(rest, x, l);
        let r = insert_in_order(rest, x);
        assert forall|i: int, j: int|
            0 <= i < j < r.len() + 1 implies listed_no_later(r.push(l)[i], r.push(l)[j]) by {
            if j == r.len() {
                assert(listed_no_later(r[i], l));
            }
        }
        assert(s =~= rest.push(l));
    }
}

/// Putting entries in listing order yields them sorted, and yields each of
/// them exactly as often as it was given.
pub proof fn lemma_listing_order_sorts(s: Seq<FsEntryView>)
    ensures
        in_listing_order(listing_order(s)),
        listing_order(s).to_multiset() =~= s.to_multiset(),
        listing_order(s).len() == s.len(),
    decreases s.len(),
{
    if s.len() > 0 {
        lemma_listing_order_sorts(s.drop_last());
        lemma_insert_sorted(listing_order(s.drop_last()), s.last());
        assert(s =~= s.drop_last().push(s.last()));
        assert(listing_order(s).to_multiset().len() == s.to_multiset().len());
    }
}

/// Whether `a` may be listed before `b`.
pub fn listed_no_later_than(a: &FsEntry, b: &FsEntry) -> (r: bool)
    ensures
        r == listed_no_later(a@, b@),
{
    if a.is_dir != b.is_dir {
        a.is_dir
    } else {
        text_precedes_or_equals(a.name.as_str(), b.name.as_str())
    }
}

proof fn lemma_insert_split(v: Seq<FsEntryView>, j: int, x: FsEntryView)
    requires
        0 < j <= v.len(),
        !listed_no_later(v[j - 1], x),
    ensures
        insert_in_order(v.take(j), x) + v.skip(j) == insert_in_order(v.take(j - 1), x) + v.skip(
            j - 1,
        ),
{
    assert(v.take(j).drop_last() =~= v.take(j - 1));
    assert(v.take(j).last() == v[j - 1]);
    assert(insert_in_order(v.take(j - 1), x).push(v[j - 1]) + v.skip(j) =~= insert_in_order(
        v.take(j - 1),
        x,
    ) + v.skip(j - 1));
}

/// Entries put in listing order: directories first, then by name; entries
/// that may stand together keep the order they came in.
pub fn sort_entries(entries: Vec<FsEntry>) -> (sorted: Vec<FsEntry>)
    ensures
        views(sorted@) == listing_order(views(entries@)),
{
    let ghost input = views(entries@);
    let mut rest = entries;
    let mut out: Vec<FsEntry> = Vec::new();
    let ghost mut k: int = 0;
    proof {
        assert(input.take(0) =~= Seq::<FsEntryView>::empty());
        assert(views(rest@) =~= input.skip(0));
        assert(views(out@) =~= listing_order(input.take(0)));
    }
    while rest.len() > 0
        invariant
            0 <= k <= input.len(),
            views(rest@) == input.skip(k),
            views(out@) == listing_order(input.take(k)),
        decreases rest.len(),
    {
        let ghost before = rest@;
        proof {
            assert(views(before).len() == before.len());
            assert(views(before)[0] == before[0]@);
            assert(input.skip(k)[0] == input[k]);
        }
        let e = rest.remove(0);
        proof {
            assert(views(rest@) =~= views(before).drop_first());
            assert(views(rest@) =~= input.skip(k + 1));
            assert(e@ == input[k]);
            assert(input.take(k + 1).drop_last() =~= input.take(k));
            assert(input.take(k + 1).last() == input[k]);
        }
        let ghost v = views(out@);
        let mut j = out.len();
        proof {
            assert(v.take(v.len() as int) =~= v);
            assert(v.skip(v.len() as int) =~= Seq::<FsEntryView>::empty());
        }
        while j > 0 && !listed_no_later_than(&out[j - 1], &e)
            invariant
                v == views(out@),
                j <= out@.len(),
                insert_in_order(v, e@) == insert_in_order(v.take(j as int), e@) + v.skip(j as int),
            decreases j,
        {
            proof {
                lemma_insert_split(v, j as int, e@);
            }
            j = j - 1;
        }
        proof {
            if j > 0 {
                assert(v.take(j as int).last() == v[j - 1]);
            }
            assert(insert_in_order(v.take(j as int), e@) == v.take(j as int).push(e@));
        }
        out.insert(j, e);
        proof {
            assert(views(out@) =~= v.take(j as int).push(e@) + v.skip(j as int));
            k = k + 1;
        }
    }
    proof {
        assert(input.take(k) =~= input);
    }
    out
}

/// RFC 3339 text (such as `2024-05-01T12:00:00+00:00`) of the UTC instant
/// `secs` seconds after the Unix epoch, or `None` when the calendar range
/// holds no such instant.
pub uninterp spec fn rfc3339_utc(secs: i64) -> Option<Seq<char>>;

/// The UTC instant `secs` seconds after the Unix epoch, in RFC 3339 form.
///
/// Calls `chrono::DateTime::from_timestamp(secs, 0)` and, when it gives an
/// instant, its `to_rfc3339`. Claimed: the result is `rfc3339_utc(secs)`, a
/// function of `secs` alone (both calls are pure computations on it). The
/// text itself is not stated.
#[verifier::external_body]
fn rfc3339_of_secs(secs: i64) -> (text: Option<String>)
    ensures
        text is Some == rfc3339_utc(secs) is Some,
        text matches Some(t) ==> t@ == rfc3339_utc(secs)->0,
{
    match chrono::DateTime::from_timestamp(secs, 0) {
        Some(dt) => Some(dt.to_rfc3339()),
        None => None,
    }
}

/// The entry is hidden: its name starts with a dot.
pub open spec fn is_hidden(name: Seq<char>) -> bool {
    name.len() > 0 && name[0] == '.'
}

/// Text shown for a modification time in a directory listing: the RFC 3339
/// form of the second (read as an `i64`, as Rust casts a `u64`), or nothing
/// when the time is unknown or out of the calendar range.
pub open spec fn listing_time_text(modified_secs: Option<u64>) -> Seq<char> {
    match modified_secs {
        Some(s) => match rfc3339_utc(s as i64) {
            Some(t) => t,
            None => Seq::empty(),
        },
        None => Seq::empty(),
    }
}

/// The entry that a directory listing shows for `raw`, with `modified` as
/// its time text: the path with `/` separators only.
pub open spec fn listing_view(raw: RawDirEntry, modified: Seq<char>) -> FsEntryView {
    FsEntryView {
        name: raw.name@,
        path: with_forward_slashes(raw.path@),
        is_dir: raw.is_dir,
        size: raw.size,
        modified,
    }
}

/// The entries that a listing of `raws` shows, in the order read: those
/// that are not hidden.
pub open spec fn visible_entries(raws: Seq<RawDirEntry>) -> Seq<FsEntryView>
    decreases raws.len(),
{
    if raws.len() == 0 {
        Seq::empty()
    } else {
        let rest = visible_entries(raws.drop_last());
        let r = raws.last();
        if is_hidden(r.name@) {
            rest
        } else {
            rest.push(listing_view(r, listing_time_text(r.modified_secs)))
        }
    }
}

/// The entry that a directory listing shows for `raw`, given the text of
/// its modification time.
pub fn listing_entry(raw: &RawDirEntry, modified: String) -> (e: FsEntry)
    ensures
        e@ == listing_view(*raw, modified@),
{
    FsEntry {
        name: raw.name.clone(),
        path: forward_slashes(raw.path.as_str()),
        is_dir: raw.is_dir,
        size: raw.size,
        modified,
    }
}

fn listing_time(modified_secs: Option<u64>) -> (text: String)
    ensures
        text@ == listing_time_text(modified_secs),
{
    match modified_secs {
        Some(s) => match rfc3339_of_secs(s as i64) {
            Some(t) => t,
            None => String::new(),
        },
        None => String::new(),
    }
}

/// A directory listing: the entries read, without hidden ones, with `/`
/// separators in their paths, directories first and then by name.
pub fn list_dir_entries(raws: Vec<RawDirEntry>) -> (entries: Vec<FsEntry>)
    ensures
        views(entries@) == listing_order(visible_entries(raws@)),
{
    let mut shown: Vec<FsEntry> = Vec::new();
    let n = raws.len();
    let mut i: usize = 0;
    while i < n
        invariant
            n == raws@.len(),
            i <= n,
            views(shown@) == visible_entries(raws@.take(i as int)),
        decreases n - i,
    {
        let raw = &raws[i];
        proof {
            assert(raws@.take(i + 1).drop_last() =~= raws@.take(i as int));
            assert(raws@.take(i + 1).last() == raws@[i as int]);
        }
        let hidden = raw.name.unicode_len() > 0 && raw.name.as_str().get_char(0) == '.';
        if !hidden {
            let modified = listing_time(raw.modified_secs);
            let e = listing_entry(raw, modified);
            shown.push(e);
            proof {
                assert(views(shown@) =~= visible_entries(raws@.take(i as int)).push(e@));
            }
        }
        i = i + 1;
    }
    proof {
        assert(raws@.take(n as int) =~= raws@);
    }
    sort_entries(shown)
}

/// Text shown for a modification time among the starting places: the
/// decimal count of seconds, or nothing when unknown.
pub open spec fn root_time_text(modified_secs: Option<u64>) -> Seq<char> {
    match modified_secs {
        Some(s) => decimal_digits(s as nat),
        None => Seq::empty(),
    }
}

/// The mounted directories among `raws`, as starting places, in the order read.
pub open spec fn mount_entries(raws: Seq<RawDirEntry>) -> Seq<FsEntryView>
    decreases raws.len(),
{
    if raws.len() == 0 {
        Seq::empty()
    } else {
        let rest = mount_entries(raws.drop_last());
        let r = raws.last();
        if r.is_dir {
            rest.push(
                FsEntryView {
                    name: r.name@,
                    path: with_forward_slashes(r.path@),
                    is_dir: true,
                    size: 0,
                    modified: root_time_text(r.modified_secs),
                },
            )
        } else {
            rest
        }
    }
}

/// The file system root as a starting place.
pub open spec fn root_dir_entry() -> FsEntryView {
    FsEntryView {
        name: "/ (根目录)"@,
        path: "/"@,
        is_dir: true,
        size: 0,
        modified: Seq::empty(),
    }
}

/// The home directory `home` as a starting place.
pub open spec fn home_dir_entry(home: Seq<char>) -> FsEntryView {
    FsEntryView {
        name: "~ ("@ + home + ")"@,
        path: with_forward_slashes(home),
        is_dir: true,
        size: 0,
        modified: Seq::empty(),
    }
}

/// The starting places: the mounted directories, then the root, then the
/// home directory when there is one.
pub open spec fn start_places(raws: Seq<RawDirEntry>, home: Option<Seq<char>>) -> Seq<FsEntryView> {
    let fixed = mount_entries(raws).push(root_dir_entry());
    match home {
        Some(h) => fixed.push(home_dir_entry(h)),
        None => fixed,
    }
}

/// The starting places of the file browser, from the entries found under
/// the mount points and the home directory `home`.
pub fn root_entries(mounts: Vec<RawDirEntry>, home: Option<String>) -> (entries: Vec<FsEntry>)
    ensures
        views(entries@) == start_places(
            mounts@,
            match home {
                Some(h) => Some(h@),
                None => None,
            },
        ),
{
    let mut out: Vec<FsEntry> = Vec::new();
    let n = mounts.len();
    let mut i: usize = 0;
    while i < n
        invariant
            n == mounts@.len(),
            i <= n,
            views(out@) == mount_entries(mounts@.take(i as int)),
        decreases n - i,
    {
        let raw = &mounts[i];
        proof {
            assert(mounts@.take(i + 1).drop_last() =~= mounts@.take(i as int));
            assert(mounts@.take(i + 1).last() == mounts@[i as int]);
        }
        if raw.is_dir {
            let modified = match raw.modified_secs {
                Some(s) => decimal(s),
                None => String::new(),
            };
            let e = FsEntry {
                name: raw.name.clone(),
                path: forward_slashes(raw.path.as_str()),
                is_dir: true,
                size: 0,
                modified,
            };
            out.push(e);
            proof {
                assert(views(out@) =~= mount_entries(mounts@.take(i as int)).push(e@));
            }
        }
        i = i + 1;
    }
    proof {
        assert(mounts@.take(n as int) =~= mounts@);
    }
    let root = FsEntry {
        name: String::from_str("/ (根目录)"),
        path: String::from_str("/"),
        is_dir: true,
        size: 0,
        modified: String::new(),
    };
    out.push(root);
    proof {
        assert(views(out@) =~= mount_entries(mounts@).push(root_dir_entry()));
    }
    match home {
        Some(h) => {
            let mut name = String::from_str("~ (");
            name.append(h.as_str());
            name.append(")");
            let e = FsEntry {
                name,
                path: forward_slashes(h.as_str()),
                is_dir: true,
                size: 0,
                modified: String::new(),
            };
            out.push(e);
            proof {
                assert(views(out@) =~= mount_entries(mounts@).push(root_dir_entry()).push(
                    home_dir_entry(h@),
                ));
            }
        },
        None => {},
    }
    out
}

/// The current user's home directory.
///
/// Calls `dirs::home_dir` (on Linux `$HOME`, else the password database)
/// and turns the path into text, replacing what is not UTF-8. It depends on
/// the environment, so nothing is claimed of it.
#[verifier::external_body]
fn home_directory() -> (home: Option<String>) {
    match dirs::home_dir() {
        Some(p) => Some(p.to_string_lossy().into_owned()),
        None => None,
    }
}

/// The starting places of the file browser, with the current user's home
/// directory if one is known.
pub fn fs_roots(mounts: Vec<RawDirEntry>) -> (entries: Vec<FsEntry>)
    ensures
        exists|home: Option<Seq<char>>| views(entries@) == start_places(mounts@, home),
{
    let home = home_directory();
    root_entries(mounts, home)
}

/// A listing holds no hidden entry, shows every visible one exactly once,
/// and puts directories before files and names in order within each kind.
pub proof fn lemma_listing(raws: Seq<RawDirEntry>)
    ensures
        forall|k: int|
            0 <= k < listing_order(visible_entries(raws)).len() ==> !is_hidden(
                #[trigger] listing_order(visible_entries(raws))[k].name,
            ),
        in_listing_order(listing_order(visible_entries(raws))),
        listing_order(visible_entries(raws)).to_multiset() =~= visible_entries(raws).to_multiset(),
{
    lemma_visible_not_hidden(raws);
    lemma_listing_order_sorts(visible_entries(raws));
    let v = visible_entries(raws);
    let l = listing_order(v);
    assert forall|k: int| 0 <= k < l.len() implies !is_hidden(#[trigger] l[k].name) by {
        assert(l.to_multiset().count(l[k]) > 0);
        assert(v.contains(l[k]));
    }
}

proof fn lemma_visible_not_hidden(raws: Seq<RawDirEntry>)
    ensures
        forall|k: int|
            0 <= k < visible_entries(raws).len() ==> !is_hidden(#[trigger] visible_entries(raws)[k].name),
    decreases raws.len(),
{
    if raws.len() > 0 {
        lemma_visible_not_hidden(raws.drop_last());
        let rest = visible_entries(raws.drop_last());
        let r = raws.last();
        if !is_hidden(r.name@) {
            let e = listing_view(r, listing_time_text(r.modified_secs));
            assert forall|k: int| 0 <= k < rest.push(e).len() implies !is_hidden(
                #[trigger] rest.push(e)[k].name,
            ) by {
                if k < rest.len() {
                    assert(rest.push(e)[k] == rest[k]);
                }
            }
        }
    }
}

/// The raw entries a listing shows: those whose names do not start with a dot.
pub open spec fn shown_raw() -> spec_fn(RawDirEntry) -> bool {
    |r: RawDirEntry| !is_hidden(r.name@)
}

/// `e` shows the raw entry `r` as read: same name, kind and size, its path
/// with `/` separators, and the text of its modification time.
pub open spec fn shows_as_read(e: FsEntryView, r: RawDirEntry) -> bool {
    &&& e.name == r.name@
    &&& e.is_dir == r.is_dir
    &&& e.size == r.size
    &&& e.path == with_forward_slashes(r.path@)
    &&& e.modified == listing_time_text(r.modified_secs)
}

proof fn lemma_visible_shows_raws(raws: Seq<RawDirEntry>)
    ensures
        visible_entries(raws).len() == raws.filter(shown_raw()).len(),
        forall|k: int|
            0 <= k < visible_entries(raws).len() ==> shows_as_read(
                #[trigger] visible_entries(raws)[k],
                raws.filter(shown_raw())[k],
            ),
    decreases raws.len(),
{
    reveal(Seq::filter);
    if raws.len() > 0 {
        lemma_visible_shows_raws(raws.drop_last());
        let rest = visible_entries(raws.drop_last());
        let frest = raws.drop_last().filter(shown_raw());
        let r = raws.last();
        if !is_hidden(r.name@) {
            let e = listing_view(r, listing_time_text(r.modified_secs));
            assert forall|k: int| 0 <= k < rest.push(e).len() implies shows_as_read(
                #[trigger] rest.push(e)[k],
                frest.push(r)[k],
            ) by {
                if k < rest.len() {
                    assert(rest.push(e)[k] == rest[k]);
                    assert(frest.push(r)[k] == frest[k]);
                }
            }
        }
    }
}

/// A directory listing shows every entry read whose name does not start with
/// a dot, and nothing else: it has exactly as many entries as there are such
/// raw entries, and each listed entry is one of them as read, with its name,
/// kind and size unchanged, its path with `/` separators and its
/// modification time as text.
pub proof fn lemma_listing_shows_entries_as_read(raws: Seq<RawDirEntry>)
    ensures
        listing_order(visible_entries(raws)).len() == raws.filter(shown_raw()).len(),
        forall|k: int|
            0 <= k < listing_order(visible_entries(raws)).len() ==> exists|i: int|
                0 <= i < raws.len() && !is_hidden(raws[i].name@) && shows_as_read(
                    #[trigger] listing_order(visible_entries(raws))[k],
                    raws[i],
                ),
{
    broadcast use vstd::seq_lib::group_filter_ensures;

    lemma_visible_shows_raws(raws);
    lemma_listing_order_sorts(visible_entries(raws));
    let v = visible_entries(raws);
    let l = listing_order(v);
    let f = raws.filter(shown_raw());
    assert forall|k: int| 0 <= k < l.len() implies exists|i: int|
        0 <= i < raws.len() && !is_hidden(raws[i].name@) && shows_as_read(
            #[trigger] l[k],
            raws[i],
        ) by {
        assert(l.to_multiset().count(l[k]) > 0);
        assert(v.contains(l[k]));
        let kv = choose|kv: int| 0 <= kv < v.len() && v[kv] == l[k];
        assert(shows_as_read(v[kv], f[kv]));
        assert(f.contains(f[kv]));
        raws.lemma_filter_contains_rev(shown_raw(), f[kv]);
        let i = choose|i: int| 0 <= i < raws.len() && raws[i] == f[kv];
        assert(shown_raw()(f[kv]));
    }
}

} // verus!
