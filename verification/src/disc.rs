//! Optical discs: what a probe found on them, and the cache of probes.

use crate::convert::MultiTrackEntry;
use crate::text::same;
use std::sync::Arc;
use crate::laws::seqs::lemma_filter_member;
use vstd::prelude::*;

verus! {

/// The two areas of a Super Audio CD.
#[derive(Clone, Copy, Debug, PartialEq, Eq, Structural)]
pub enum SacdAreaId {
    Stereo,
    MultiChannel,
}

/// Names one audio stream of a disc.
#[derive(Clone, Copy, Debug, PartialEq, Eq, Structural)]
pub enum PresentationId {
    DvdAudioGroup(u8),
    DvdVideo { title: u32, audio: u8, angle: u8 },
    SacdArea(SacdAreaId),
    BluRayTitle { title: u32, pid: u16, clip: u32, chapter: u32 },
}

/// Album data of a disc.
#[derive(Debug)]
pub struct DiscMetadata {
    pub title: Option<String>,
    pub artist: Option<String>,
    pub album: Option<String>,
    pub genre: Option<String>,
    pub year: Option<String>,
}

/// One audio stream of a disc.
#[derive(Debug)]
pub struct DiscPresentation {
    pub id: PresentationId,
    pub label: String,
    /// The stream's tracks.
    pub tracks: Vec<MultiTrackEntry>,
    /// Why the stream cannot be loaded, where it cannot.
    pub load_error: Option<String>,
    /// More about the stream, a row each.
    pub details: Vec<String>,
}

/// What a probe found on a disc.
#[derive(Debug)]
pub struct DiscContents {
    pub label: String,
    pub source_path: String,
    pub presentations: Vec<DiscPresentation>,
    pub metadata: DiscMetadata,
    pub copy_protection: String,
    /// The contents in words.
    pub summary_lines: Vec<String>,
    /// The streams in words, one line each.
    pub stream_lines: Vec<String>,
}

/// How a probe ended.
#[derive(Debug)]
pub enum DiscProbeOutcome {
    Contents(Arc<DiscContents>),
    Error(String),
}

/// A finished probe of the source at `path`.
#[derive(Debug)]
pub struct DiscProbeCacheEntry {
    pub path: String,
    /// The source has not changed since it was probed.
    pub current: bool,
    pub outcome: DiscProbeOutcome,
}

/// `Arc::clone`: another handle on the same value.
#[verifier::external_body]
pub(crate) fn share(contents: &Arc<DiscContents>) -> (r: Arc<DiscContents>)
    ensures
        r == *contents,
{
    Arc::clone(contents)
}

/// The place of the first probe of `path`, at `from` or later; the length where
/// there is none.
pub open spec fn probe_index(cache: Seq<DiscProbeCacheEntry>, path: Seq<char>, from: int) -> int
    decreases cache.len() - from,
{
    if 0 <= from < cache.len() && cache[from].path@ != path {
        probe_index(cache, path, from + 1)
    } else {
        from
    }
}

/// Looking from `from` on ends at `from` or later, and not past the cache.
proof fn lemma_probe_index(cache: Seq<DiscProbeCacheEntry>, path: Seq<char>, from: int)
    requires
        0 <= from <= cache.len(),
    ensures
        from <= probe_index(cache, path, from) <= cache.len(),
        forall|i: int|
            from <= i < probe_index(cache, path, from) ==> (#[trigger] cache[i]).path@ != path,
        probe_index(cache, path, from) < cache.len() ==> cache[probe_index(
            cache,
            path,
            from,
        )].path@ == path,
    decreases cache.len() - from,
{
    if from < cache.len() && cache[from].path@ != path {
        lemma_probe_index(cache, path, from + 1);
    }
}

/// What the cache knows of `path`, as long as it is current.
pub open spec fn known_contents(cache: Seq<DiscProbeCacheEntry>, path: Seq<char>) -> Option<
    Arc<DiscContents>,
> {
    let i = probe_index(cache, path, 0);
    if i < cache.len() && cache[i].current {
        match cache[i].outcome {
            DiscProbeOutcome::Contents(contents) => Some(contents),
            DiscProbeOutcome::Error(_) => None,
        }
    } else {
        None
    }
}

/// The error of the last probe of `path`, as long as it is current.
pub open spec fn known_error(cache: Seq<DiscProbeCacheEntry>, path: Seq<char>) -> Option<
    Seq<char>,
> {
    let i = probe_index(cache, path, 0);
    if i < cache.len() && cache[i].current {
        match cache[i].outcome {
            DiscProbeOutcome::Contents(_) => None,
            DiscProbeOutcome::Error(error) => Some(error@),
        }
    } else {
        None
    }
}

fn find_probe(cache: &Vec<DiscProbeCacheEntry>, path: &str) -> (r: usize)
    ensures
        r == probe_index(cache@, path@, 0),
        r <= cache@.len(),
{
    let mut i: usize = 0;
    while i < cache.len() && !same(cache[i].path.as_str(), path)
        invariant
            i <= cache@.len(),
            probe_index(cache@, path@, i as int) == probe_index(cache@, path@, 0),
        decreases cache@.len() - i,
    {
        i += 1;
    }
    i
}

/// The current contents of the disc at `path`.
pub fn contents_if_current<'a>(cache: &'a Vec<DiscProbeCacheEntry>, path: &str) -> (r: Option<
    &'a Arc<DiscContents>,
>)
    ensures
        match r {
            Some(contents) => known_contents(cache@, path@) == Some(*contents),
            None => known_contents(cache@, path@) is None,
        },
{
    let i: usize = find_probe(cache, path);
    if i < cache.len() && cache[i].current {
        match &cache[i].outcome {
            DiscProbeOutcome::Contents(contents) => Some(contents),
            DiscProbeOutcome::Error(_) => None,
        }
    } else {
        None
    }
}

/// The current error of the disc at `path`.
pub fn error_if_current<'a>(cache: &'a Vec<DiscProbeCacheEntry>, path: &str) -> (r: Option<&'a str>)
    ensures
        match r {
            Some(error) => known_error(cache@, path@) == Some(error@),
            None => known_error(cache@, path@) is None,
        },
{
    let i: usize = find_probe(cache, path);
    if i < cache.len() && cache[i].current {
        match &cache[i].outcome {
            DiscProbeOutcome::Contents(_) => None,
            DiscProbeOutcome::Error(error) => Some(error.as_str()),
        }
    } else {
        None
    }
}

/// The cache without its probes of `path`.
pub open spec fn without_probe(cache: Seq<DiscProbeCacheEntry>, path: Seq<char>) -> Seq<
    DiscProbeCacheEntry,
> {
    cache.filter(|entry: DiscProbeCacheEntry| entry.path@ != path)
}

/// Forgets every probe of `path`.
pub fn forget_probe(cache: &mut Vec<DiscProbeCacheEntry>, path: &str)
    ensures
        final(cache)@ == without_probe(old(cache)@, path@),
{
    let ghost before = cache@;
    let ghost keep = |entry: DiscProbeCacheEntry| entry.path@ != path@;
    let mut i: usize = 0;
    proof {
        assert(before.take(0) =~= Seq::empty());
        reveal(Seq::filter);
        assert(cache@ =~= before.take(0).filter(keep) + before.skip(0));
    }
    let ghost mut seen: int = 0;
    while i < cache.len()
        invariant
            0 <= seen <= before.len(),
            keep == (|entry: DiscProbeCacheEntry| entry.path@ != path@),
            i == before.take(seen).filter(keep).len(),
            cache@ == before.take(seen).filter(keep) + before.skip(seen),
        decreases before.len() - seen,
    {
        proof {
            assert(cache@[i as int] == before[seen]);
            assert(before.take(seen + 1).drop_last() =~= before.take(seen));
            assert(before.take(seen + 1).last() == before[seen]);
            reveal(Seq::filter);
        }
        if same(cache[i].path.as_str(), path) {
            cache.remove(i);
            proof {
                assert(cache@ =~= before.take(seen + 1).filter(keep) + before.skip(seen + 1));
            }
        } else {
            i += 1;
            proof {
                assert(cache@ =~= before.take(seen + 1).filter(keep) + before.skip(seen + 1));
            }
        }
        proof {
            seen = seen + 1;
        }
    }
    proof {
        assert(before.skip(seen).len() == 0);
        assert(seen == before.len());
        assert(before.take(seen) =~= before);
        assert(cache@ =~= before.filter(keep));
    }
}

/// After a path is forgotten, the cache knows neither contents nor an error of it.
pub proof fn forgotten_probe_is_unknown(cache: Seq<DiscProbeCacheEntry>, path: Seq<char>)
    ensures
        known_contents(without_probe(cache, path), path) is None,
        known_error(without_probe(cache, path), path) is None,
{
    let keep = |entry: DiscProbeCacheEntry| entry.path@ != path;
    let rest = without_probe(cache, path);
    broadcast use vstd::seq_lib::group_filter_ensures;

    lemma_probe_index(rest, path, 0);
    let i = probe_index(rest, path, 0);
    if i < rest.len() {
        assert(keep(rest[i]));
    }
}

/// Forgetting a path leaves what is known of every other path.
pub proof fn other_probes_stay_known(cache: Seq<DiscProbeCacheEntry>, path: Seq<char>, other: Seq<char>)
    requires
        other != path,
    ensures
        known_contents(without_probe(cache, path), other) == known_contents(cache, other),
        known_error(without_probe(cache, path), other) == known_error(cache, other),
    decreases cache.len(),
{
    let rest = without_probe(cache, path);
    if cache.len() > 0 {
        let front = cache.drop_last();
        let last = cache.last();
        other_probes_stay_known(front, path, other);
        lemma_probe_appended(front, last, other);
        assert(cache =~= front.push(last));
        reveal(Seq::filter);
        if last.path@ != path {
            assert(rest =~= without_probe(front, path).push(last));
            lemma_probe_appended(without_probe(front, path), last, other);
            lemma_probe_index(front, other, 0);
            lemma_probe_index(without_probe(front, path), other, 0);
            lemma_known_place(front, path, other);
        } else {
            assert(rest =~= without_probe(front, path));
            lemma_probe_index(front, other, 0);
        }
    } else {
        reveal(Seq::filter);
        assert(rest =~= cache);
    }
}

proof fn lemma_probe_appended(cache: Seq<DiscProbeCacheEntry>, entry: DiscProbeCacheEntry, path: Seq<char>)
    ensures
        probe_index(cache, path, 0) < cache.len() ==> probe_index(cache.push(entry), path, 0)
            == probe_index(cache, path, 0),
        probe_index(cache, path, 0) == cache.len() && entry.path@ == path ==> probe_index(
            cache.push(entry),
            path,
            0,
        ) == cache.len(),
        probe_index(cache, path, 0) == cache.len() && entry.path@ != path ==> probe_index(
            cache.push(entry),
            path,
            0,
        ) == cache.len() + 1,
{
    lemma_probe_index(cache, path, 0);
    lemma_probe_index(cache.push(entry), path, 0);
    let all = cache.push(entry);
    let i = probe_index(cache, path, 0);
    let j = probe_index(all, path, 0);
    if i < cache.len() {
        assert(all[i].path@ == path);
        if j < i {
            assert(cache[j].path@ != path);
        }
    } else if j < cache.len() {
        assert(cache[j].path@ != path);
    } else if entry.path@ == path {
        assert(all[cache.len() as int].path@ == path);
    } else if j == cache.len() {
        assert(all[j].path@ == path);
    }
}

proof fn lemma_kept_probe(cache: Seq<DiscProbeCacheEntry>, path: Seq<char>, j: int)
    requires
        0 <= j < without_probe(cache, path).len(),
    ensures
        cache.contains(without_probe(cache, path)[j]),
    decreases cache.len(),
{
    reveal(Seq::filter);
    let entry = without_probe(cache, path)[j];
    let front = cache.drop_last();
    if j < without_probe(front, path).len() {
        lemma_kept_probe(front, path, j);
        let k = choose|k: int| 0 <= k < front.len() && front[k] == entry;
        assert(cache[k] == entry);
    } else {
        assert(cache[cache.len() - 1] == entry);
    }
}

/// A path that is not forgotten has a probe before exactly if it has one after.
proof fn lemma_known_place(cache: Seq<DiscProbeCacheEntry>, path: Seq<char>, other: Seq<char>)
    requires
        other != path,
    ensures
        probe_index(cache, other, 0) < cache.len() <==> probe_index(
            without_probe(cache, path),
            other,
            0,
        ) < without_probe(cache, path).len(),
{
    broadcast use vstd::seq_lib::group_filter_ensures;

    let keep = |entry: DiscProbeCacheEntry| entry.path@ != path;
    let rest = without_probe(cache, path);
    lemma_probe_index(cache, other, 0);
    lemma_probe_index(rest, other, 0);
    let i = probe_index(cache, other, 0);
    let j = probe_index(rest, other, 0);
    if i < cache.len() {
        assert(keep(cache[i]));
        assert(cache.contains(cache[i]));
        assert(rest.contains(cache[i]));
        let k = choose|k: int| 0 <= k < rest.len() && rest[k] == cache[i];
        assert(rest[k].path@ == other);
    }
    if j < rest.len() {
        lemma_kept_probe(cache, path, j);
        let k = choose|k: int| 0 <= k < cache.len() && cache[k] == rest[j];
        assert(cache[k].path@ == other);
    }
}

/// Forgetting a disc keeps what is known of the others, in its order.
pub proof fn forgetting_keeps_the_others(cache: Seq<DiscProbeCacheEntry>, path: Seq<char>, i: int)
    requires
        0 <= i < cache.len(),
    ensures
        cache[i].path@ != path ==> without_probe(cache, path).contains(cache[i]),
        forall|j: int|
            0 <= j < without_probe(cache, path).len() ==> (#[trigger] without_probe(
                cache,
                path,
            )[j]).path@ != path && cache.contains(without_probe(cache, path)[j]),
{
    broadcast use lemma_filter_member;

    let rest = without_probe(cache, path);
    assert(cache.contains(cache[i]));
    assert(rest.contains(cache[i]) <==> cache[i].path@ != path);
    assert forall|j: int| 0 <= j < rest.len() implies (#[trigger] rest[j]).path@ != path
        && cache.contains(rest[j]) by {
        assert(rest.contains(rest[j]));
    }
}

} // verus!
