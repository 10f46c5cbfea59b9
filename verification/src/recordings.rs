//! The recordings library: what a saved recording is listed as, and the
//! order the list comes in (newest first).

use vstd::prelude::*;

use crate::session::{is_session_id, output_file_name_of};
use crate::text::{replace_all, replace_str, str_equal};

verus! {

/// A saved recording as the library lists it.
#[derive(Debug, PartialEq, Eq)]
pub struct RecordingInfo {
    pub id: String,
    pub filename: String,
    pub path: String,
    pub thumbnail: Option<String>,
    pub created_at: String,
    pub size_bytes: u64,
}

/// The video extension, with its dot.
pub open spec fn video_suffix() -> Seq<char> {
    seq!['.', 'm', 'p', '4']
}

/// The thumbnail suffix that replaces the video extension.
pub open spec fn thumbnail_suffix() -> Seq<char> {
    seq!['_', 't', 'h', 'u', 'm', 'b', '.', 'j', 'p', 'g']
}

/// The thumbnail of a video: every `.mp4` in its path replaced by
/// `_thumb.jpg`.
pub open spec fn thumbnail_path_of(video: Seq<char>) -> Seq<char> {
    replace_all(video, video_suffix(), thumbnail_suffix())
}

/// The path of the thumbnail that belongs to the video at `video`.
pub fn thumbnail_path(video: &str) -> (r: String)
    ensures
        r@ == thumbnail_path_of(video@),
{
    proof {
        reveal_strlit(".mp4");
        reveal_strlit("_thumb.jpg");
        assert(".mp4"@ =~= video_suffix());
        assert("_thumb.jpg"@ =~= thumbnail_suffix());
    }
    replace_str(video, ".mp4", "_thumb.jpg")
}

/// The id a recording is listed under: its file name with every `.mp4`
/// removed.
pub open spec fn recording_id_of(file_name: Seq<char>) -> Seq<char> {
    replace_all(file_name, video_suffix(), Seq::empty())
}

/// The id of the recording stored in `file_name`.
pub fn recording_id(file_name: &str) -> (r: String)
    ensures
        r@ == recording_id_of(file_name@),
{
    proof {
        reveal_strlit(".mp4");
        reveal_strlit("");
        assert(".mp4"@ =~= video_suffix());
        assert(""@ =~= Seq::<char>::empty());
    }
    replace_str(file_name, ".mp4", "")
}

/// Only files with the extension `mp4` are listed.
pub fn is_recording_extension(extension: Option<&str>) -> (r: bool)
    ensures
        r == match extension {
            Some(e) => e@ == "mp4"@,
            None => false,
        },
{
    match extension {
        Some(e) => str_equal(e, "mp4"),
        None => false,
    }
}

/// What the library lists for the video `file_name` at `path`: its id, its
/// thumbnail when that file exists, when it was made and its size.
pub fn recording_info(
    path: &str,
    file_name: &str,
    thumbnail_exists: bool,
    created_at: String,
    size_bytes: u64,
) -> (r: RecordingInfo)
    ensures
        r.id@ == recording_id_of(file_name@),
        r.filename@ == file_name@,
        r.path@ == path@,
        match r.thumbnail {
            Some(t) => thumbnail_exists && t@ == thumbnail_path_of(path@),
            None => !thumbnail_exists,
        },
        r.created_at == created_at,
        r.size_bytes == size_bytes,
{
    let thumbnail = if thumbnail_exists {
        Some(thumbnail_path(path))
    } else {
        None
    };
    RecordingInfo {
        id: recording_id(file_name),
        filename: String::from_str(file_name),
        path: String::from_str(path),
        thumbnail,
        created_at,
        size_bytes,
    }
}

impl RecordingInfo {
    /// A field-by-field copy.
    pub fn duplicate(&self) -> (r: Self)
        ensures
            r == *self,
    {
        let thumbnail = match &self.thumbnail {
            Some(t) => Some(t.clone()),
            None => None,
        };
        RecordingInfo {
            id: self.id.clone(),
            filename: self.filename.clone(),
            path: self.path.clone(),
            thumbnail,
            created_at: self.created_at.clone(),
            size_bytes: self.size_bytes,
        }
    }
}

/// Entry `a` comes before entry `b` in the list: it is newer, or as new and
/// was found first.
pub open spec fn listed_before(keys: Seq<i128>, a: int, b: int) -> bool {
    keys[a] > keys[b] || (keys[a] == keys[b] && a < b)
}

/// Entry `i` has a place in `order`.
pub open spec fn has_place(order: Seq<usize>, i: int) -> bool {
    exists|k: int| 0 <= k < order.len() && order[k] == i
}

/// `order` lists every entry of `keys` exactly once, newest first, entries
/// of equal age in the order they were found.
pub open spec fn is_newest_first(keys: Seq<i128>, order: Seq<usize>) -> bool {
    &&& order.len() == keys.len()
    &&& forall|k: int| 0 <= k < order.len() ==> #[trigger] order[k] < keys.len()
    &&& forall|a: int, b: int|
        0 <= a < b < order.len() ==> listed_before(keys, #[trigger] order[a] as int, #[trigger] order[b] as int)
    &&& forall|i: int| 0 <= i < keys.len() ==> #[trigger] has_place(order, i)
}

/// The order to list entries modified at `keys` in: newest first, and among
/// entries of equal age, in the order they were found.
pub fn newest_first_order(keys: &Vec<i128>) -> (r: Vec<usize>)
    ensures
        is_newest_first(keys@, r@),
{
    let n = keys.len();
    let mut order: Vec<usize> = Vec::new();
    let mut i: usize = 0;
    while i < n
        invariant
            n == keys@.len(),
            i <= n,
            order@.len() == i,
            forall|k: int| 0 <= k < order@.len() ==> #[trigger] order@[k] < i,
            forall|a: int, b: int|
                0 <= a < b < order@.len() ==> listed_before(keys@, #[trigger] order@[a] as int, #[trigger] order@[b] as int),
            forall|j: int| 0 <= j < i ==> #[trigger] has_place(order@, j),
        decreases n - i,
    {
        let ki = keys[i];
        let mut p: usize = 0;
        while p < order.len() && keys[order[p]] >= ki
            invariant
                n == keys@.len(),
                i < n,
                p <= order@.len(),
                forall|k: int| 0 <= k < order@.len() ==> #[trigger] order@[k] < i,
                forall|k: int| 0 <= k < p ==> keys@[#[trigger] order@[k] as int] >= ki,
            decreases order@.len() - p,
        {
            p = p + 1;
        }
        let ghost old_order = order@;
        order.insert(p, i);
        proof {
            old_order.insert_ensures(p as int, i);
            assert forall|k: int| 0 <= k < order@.len() implies #[trigger] order@[k] < i + 1 by {
                if k < p {
                    assert(order@[k] == old_order[k]);
                } else if k > p {
                    assert(order@[k] == old_order[k - 1]);
                }
            }
            assert forall|a: int, b: int|
                0 <= a < b < order@.len() implies listed_before(keys@, #[trigger] order@[a] as int, #[trigger] order@[b] as int) by {
                if b < p {
                    assert(order@[a] == old_order[a]);
                    assert(order@[b] == old_order[b]);
                } else if b == p {
                    assert(order@[a] == old_order[a]);
                } else if a < p {
                    assert(order@[a] == old_order[a]);
                    assert(order@[b] == old_order[b - 1]);
                } else if a == p {
                    assert(order@[b] == old_order[b - 1]);
                    assert(keys@[old_order[p as int] as int] < ki);
                    if b - 1 > p {
                        assert(listed_before(keys@, old_order[p as int] as int, old_order[b - 1] as int));
                    }
                } else {
                    assert(order@[a] == old_order[a - 1]);
                    assert(order@[b] == old_order[b - 1]);
                }
            }
            assert forall|j: int| 0 <= j < i + 1 implies #[trigger] has_place(order@, j) by {
                if j == i {
                    assert(order@[p as int] == j);
                } else {
                    assert(has_place(old_order, j));
                    let k0 = choose|k: int| 0 <= k < old_order.len() && old_order[k] == j;
                    if k0 < p {
                        assert(order@[k0] == j);
                    } else {
                        assert(order@[k0 + 1] == j);
                    }
                }
            }
        }
        i = i + 1;
    }
    order
}

/// The keys of the entries.
pub open spec fn entry_keys(entries: Seq<(i128, RecordingInfo)>) -> Seq<i128> {
    entries.map_values(|e: (i128, RecordingInfo)| e.0)
}

/// `listed` holds the recordings of `entries` in the order `order`.
pub open spec fn listed_in_order(
    entries: Seq<(i128, RecordingInfo)>,
    order: Seq<usize>,
    listed: Seq<RecordingInfo>,
) -> bool {
    &&& listed.len() == order.len()
    &&& forall|k: int| 0 <= k < order.len() ==> #[trigger] listed[k] == entries[order[k] as int].1
}

/// `listed` holds the recordings of `entries` newest first, those of equal
/// age in the order they were found.
pub open spec fn lists_newest_first(entries: Seq<(i128, RecordingInfo)>, listed: Seq<RecordingInfo>) -> bool {
    exists|order: Seq<usize>|
        is_newest_first(entry_keys(entries), order) && listed_in_order(entries, order, listed)
}

/// The first `k` places of two newest-first orders of the same entries
/// agree.
proof fn lemma_orders_agree_up_to(keys: Seq<i128>, o1: Seq<usize>, o2: Seq<usize>, k: int)
    requires
        is_newest_first(keys, o1),
        is_newest_first(keys, o2),
        0 <= k <= o1.len(),
    ensures
        forall|j: int| 0 <= j < k ==> o1[j] == o2[j],
    decreases k,
{
    if k > 0 {
        lemma_orders_agree_up_to(keys, o1, o2, k - 1);
        let p = k - 1;
        let x = o1[p];
        let y = o2[p];
        if x != y {
            assert(has_place(o1, y as int));
            let m = choose|m: int| 0 <= m < o1.len() && o1[m] == y;
            assert(has_place(o2, x as int));
            let m2 = choose|m: int| 0 <= m < o2.len() && o2[m] == x;
            if m < p {
                assert(o2[m] == y);
                assert(listed_before(keys, o2[m] as int, o2[p] as int));
            } else if m2 < p {
                assert(o1[m2] == x);
                assert(listed_before(keys, o1[m2] as int, o1[p] as int));
            } else {
                assert(m != p);
                assert(m2 != p);
                assert(listed_before(keys, o1[p] as int, o1[m] as int));
                assert(listed_before(keys, o2[p] as int, o2[m2] as int));
            }
        }
    }
}

/// There is only one newest-first order of a set of entries: every entry
/// has its one place, fixed by its age and the order it was found in.
pub proof fn lemma_newest_first_unique(keys: Seq<i128>, o1: Seq<usize>, o2: Seq<usize>)
    requires
        is_newest_first(keys, o1),
        is_newest_first(keys, o2),
    ensures
        o1 == o2,
{
    lemma_orders_agree_up_to(keys, o1, o2, o1.len() as int);
    assert(o1 =~= o2);
}

/// Listing the same entries twice gives the same list: the newest-first
/// list of a set of entries is unique.
pub proof fn lemma_listing_is_determined(
    entries: Seq<(i128, RecordingInfo)>,
    first: Seq<RecordingInfo>,
    second: Seq<RecordingInfo>,
)
    requires
        lists_newest_first(entries, first),
        lists_newest_first(entries, second),
    ensures
        first == second,
{
    let o1 = choose|order: Seq<usize>|
        is_newest_first(entry_keys(entries), order) && listed_in_order(entries, order, first);
    let o2 = choose|order: Seq<usize>|
        is_newest_first(entry_keys(entries), order) && listed_in_order(entries, order, second);
    lemma_newest_first_unique(entry_keys(entries), o1, o2);
    assert(first =~= second);
}

/// The recordings modified at the given times, newest first; recordings of
/// equal age keep the order they were found in.
pub fn newest_first(entries: &Vec<(i128, RecordingInfo)>) -> (r: Vec<RecordingInfo>)
    ensures
        lists_newest_first(entries@, r@),
{
    let mut keys: Vec<i128> = Vec::new();
    let mut i: usize = 0;
    while i < entries.len()
        invariant
            i <= entries@.len(),
            keys@ == entry_keys(entries@).take(i as int),
        decreases entries@.len() - i,
    {
        keys.push(entries[i].0);
        proof {
            assert(entry_keys(entries@).take(i + 1) =~= entry_keys(entries@).take(i as int).push(entries@[i as int].0));
        }
        i = i + 1;
    }
    assert(entry_keys(entries@).take(entries@.len() as int) =~= entry_keys(entries@));
    let order = newest_first_order(&keys);
    let ghost order_seq = order@;
    let mut out: Vec<RecordingInfo> = Vec::new();
    let mut k: usize = 0;
    while k < order.len()
        invariant
            is_newest_first(entry_keys(entries@), order@),
            entry_keys(entries@).len() == entries@.len(),
            k <= order@.len(),
            out@.len() == k,
            forall|m: int| 0 <= m < k ==> #[trigger] out@[m] == entries@[order@[m] as int].1,
        decreases order@.len() - k,
    {
        let idx = order[k];
        out.push(entries[idx].1.duplicate());
        k = k + 1;
    }
    assert(listed_in_order(entries@, order_seq, out@));
    out
}

/// `.mp4` at the end of a string is always replaced, whatever precedes it:
/// no occurrence of `.mp4` can overlap it.
proof fn lemma_replace_trailing_suffix(t: Seq<char>, rep: Seq<char>)
    ensures
        replace_all(t + video_suffix(), video_suffix(), rep) == replace_all(t, video_suffix(), rep)
            + rep,
    decreases t.len(),
{
    let pat = video_suffix();
    let u = t + pat;
    if t.len() == 0 {
        assert(u =~= pat);
        assert(u.take(4) =~= pat);
        assert(u.skip(4) =~= Seq::<char>::empty());
        assert(replace_all(Seq::<char>::empty(), pat, rep) =~= Seq::<char>::empty());
        assert(replace_all(u, pat, rep) == rep + replace_all(u.skip(4), pat, rep));
        assert(replace_all(u, pat, rep) =~= rep + Seq::<char>::empty());
        assert(replace_all(t, pat, rep) =~= Seq::<char>::empty());
        assert(Seq::<char>::empty() + rep =~= rep);
    } else if u.take(4) == pat {
        if t.len() < 4 {
            assert(u[t.len() as int] == '.');
            assert(u.take(4)[t.len() as int] == pat[t.len() as int]);
            assert(false);
        } else {
            assert(t.take(4) =~= u.take(4));
            assert(u.skip(4) =~= t.skip(4) + pat);
            lemma_replace_trailing_suffix(t.skip(4), rep);
            assert(replace_all(u, pat, rep) == rep + replace_all(t.skip(4) + pat, pat, rep));
            assert(replace_all(t, pat, rep) == rep + replace_all(t.skip(4), pat, rep));
            assert(rep + (replace_all(t.skip(4), pat, rep) + rep) =~= (rep + replace_all(
                t.skip(4),
                pat,
                rep,
            )) + rep);
        }
    } else {
        if t.len() >= 4 {
            assert(t.take(4) =~= u.take(4));
        }
        assert(u[0] == t[0]);
        assert(u.skip(1) =~= t.skip(1) + pat);
        lemma_replace_trailing_suffix(t.skip(1), rep);
        assert(replace_all(u, pat, rep) == seq![t[0]] + replace_all(t.skip(1) + pat, pat, rep));
        assert(replace_all(t, pat, rep) == seq![t[0]] + replace_all(t.skip(1), pat, rep));
        assert(seq![t[0]] + (replace_all(t.skip(1), pat, rep) + rep) =~= (seq![t[0]] + replace_all(
            t.skip(1),
            pat,
            rep,
        )) + rep);
    }
}

/// The thumbnail of a video whose path ends in `.mp4` sits at the same path
/// with that `.mp4` turned into `_thumb.jpg` (any earlier `.mp4` in the path
/// is turned as well); the listed id of such a file is what precedes the
/// extension, with any earlier `.mp4` removed.
pub proof fn lemma_video_file_names(t: Seq<char>)
    ensures
        thumbnail_path_of(t + video_suffix()) == thumbnail_path_of(t) + thumbnail_suffix(),
        recording_id_of(t + video_suffix()) == recording_id_of(t),
{
    lemma_replace_trailing_suffix(t, thumbnail_suffix());
    lemma_replace_trailing_suffix(t, Seq::empty());
    assert(recording_id_of(t) + Seq::<char>::empty() =~= recording_id_of(t));
}

/// Whether `.mp4` occurs anywhere in `t`.
pub open spec fn mentions_video_suffix(t: Seq<char>) -> bool {
    exists|i: int| 0 <= i && i + 4 <= t.len() && #[trigger] t.subrange(i, i + 4) == video_suffix()
}

/// Replacing `.mp4` in a string that holds none changes nothing.
proof fn lemma_replace_absent(t: Seq<char>, rep: Seq<char>)
    requires
        !mentions_video_suffix(t),
    ensures
        replace_all(t, video_suffix(), rep) == t,
    decreases t.len(),
{
    if t.len() > 0 {
        if t.len() >= 4 {
            assert(t.take(4) =~= t.subrange(0, 4));
            if t.subrange(0, 4) == video_suffix() {
                assert(0int + 4 <= t.len() && t.subrange(0int, 0int + 4) == video_suffix());
                assert(mentions_video_suffix(t));
            }
        }
        assert forall|i: int| 0 <= i && i + 4 <= t.skip(1).len() implies #[trigger] t.skip(
            1,
        ).subrange(i, i + 4) != video_suffix() by {
            assert(t.skip(1).subrange(i, i + 4) =~= t.subrange(i + 1, i + 5));
            if t.subrange(i + 1, i + 5) == video_suffix() {
                assert(i + 1 + 4 <= t.len() && t.subrange(i + 1, (i + 1) + 4) == video_suffix());
                assert(mentions_video_suffix(t));
            }
        }
        lemma_replace_absent(t.skip(1), rep);
        assert(seq![t[0]] + t.skip(1) =~= t);
    }
}

/// A video file named `<name>.mp4`, where `name` holds no `.mp4` (dots and
/// all), is listed under the id `name` and has its thumbnail at
/// `<name>_thumb.jpg`: only the extension changes.
pub proof fn lemma_listed_name(name: Seq<char>)
    requires
        !mentions_video_suffix(name),
    ensures
        recording_id_of(name + video_suffix()) == name,
        thumbnail_path_of(name + video_suffix()) == name + thumbnail_suffix(),
{
    lemma_replace_trailing_suffix(name, thumbnail_suffix());
    lemma_replace_trailing_suffix(name, Seq::empty());
    lemma_replace_absent(name, thumbnail_suffix());
    lemma_replace_absent(name, Seq::empty());
    assert(name + Seq::<char>::empty() =~= name);
}

/// A name without dots followed by `.mp4` loses exactly its `.mp4`.
proof fn lemma_strip_video_suffix(s: Seq<char>)
    requires
        forall|i: int| 0 <= i < s.len() ==> s[i] != '.',
    ensures
        recording_id_of(s + video_suffix()) == s,
    decreases s.len(),
{
    let t = s + video_suffix();
    if s.len() == 0 {
        assert(t =~= video_suffix());
        assert(t.take(4) =~= video_suffix());
        assert(t.skip(4) =~= Seq::<char>::empty());
        assert(recording_id_of(t) =~= Seq::<char>::empty() + recording_id_of(Seq::<char>::empty()));
    } else {
        assert(t[0] == s[0]);
        assert(t.take(4)[0] != video_suffix()[0]);
        assert(t.skip(1) =~= s.skip(1) + video_suffix());
        lemma_strip_video_suffix(s.skip(1));
        assert(seq![s[0]] + s.skip(1) =~= s);
    }
}

/// The library lists a saved recording under the id of the session that
/// recorded it: the video of session `id` is named `<id>.mp4`, and listing
/// it strips `.mp4` again.
pub proof fn lemma_listed_under_session_id(id: Seq<char>)
    requires
        is_session_id(id),
    ensures
        recording_id_of(output_file_name_of(id)) == id,
{
    assert forall|i: int| 0 <= i < id.len() implies id[i] != '.' by {
        if i == 8 || i == 13 || i == 18 || i == 23 {
        } else {
            assert(crate::session::is_lower_hex(id[i]));
        }
    }
    assert(output_file_name_of(id) == id + video_suffix());
    lemma_strip_video_suffix(id);
}

} // verus!
