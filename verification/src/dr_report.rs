//! Dynamic range reports, one for each directory of analysed files.

use crate::path::{extension, extension_of, file_name, file_stem_or_empty, name_of, name_or_empty, parent, parent_of, stem_of};
use crate::path_order::{before, compare_paths, components, components_of, order_is_total, order_is_transitive, ComponentV, Place};
use crate::reports::AnalysisResult;
use crate::text::{
    align_left, align_right, cat2, cat3, cat6, dec, dec_i32, dec_len, decimal, integer, joined,
    left_aligned, owned, repeat_char, repeated, right_aligned, same, zero_fill, zero_filled,
    Texts,
};
use vstd::prelude::*;

verus! {

/// What the directory and the tags of an analysed file say.
#[derive(Debug)]
pub struct DrFile {
    pub artist: Option<String>,
    pub album: Option<String>,
    /// The average bit rate of the analysed files in the same directory.
    pub folder_kbps: u64,
}

/// The analysed files of one directory.
#[derive(Debug)]
pub struct DrGroup {
    pub dir: String,
    /// Places in the list of results, in its order.
    pub members: Vec<usize>,
}

/// The report on one directory.
#[derive(Debug)]
pub struct DrReport {
    pub dir: String,
    pub text: String,
}

/// The directory of a file.
pub open spec fn dir_of(path: Seq<char>) -> Seq<char> {
    match parent_of(path) {
        Some(dir) => dir,
        None => "."@,
    }
}

fn directory(path: &str) -> (r: String)
    ensures
        r@ == dir_of(path@),
{
    match parent(path) {
        Some(dir) => dir,
        None => owned("."),
    }
}

/// What decides to which directory a result belongs.
pub open spec fn dir_key(found: AnalysisResult) -> Seq<ComponentV> {
    components(dir_of(found.path@))
}

/// The places of the results among the first `n` whose directory has the components
/// `key`.
pub open spec fn members_of(results: Seq<AnalysisResult>, key: Seq<ComponentV>, n: nat) -> Seq<usize>
    decreases n,
{
    if n == 0 || n > results.len() {
        Seq::empty()
    } else {
        let front = members_of(results, key, (n - 1) as nat);
        if dir_key(results[n - 1]) == key {
            front.push((n - 1) as usize)
        } else {
            front
        }
    }
}

/// The components of a group's directory.
pub open spec fn group_key(group: DrGroup) -> Seq<ComponentV> {
    components(group.dir@)
}

/// A group holds all of the first `n` results of its directory, and is named as the
/// first of them names it.
pub open spec fn group_holds(results: Seq<AnalysisResult>, group: DrGroup, n: nat) -> bool {
    &&& group.members@ == members_of(results, group_key(group), n)
    &&& group.members@.len() > 0
    &&& group.members@[0] < results.len()
    &&& group.dir@ == dir_of(results[group.members@[0] as int].path@)
}

/// The groups hold the first `n` results, one group for each directory, in the order
/// of the directories.
pub open spec fn grouped(results: Seq<AnalysisResult>, groups: Seq<DrGroup>, n: nat) -> bool {
    &&& forall|g: int, h: int|
        0 <= g < h < groups.len() ==> before(
            group_key(#[trigger] groups[g]),
            group_key(#[trigger] groups[h]),
        )
    &&& forall|g: int| 0 <= g < groups.len() ==> group_holds(results, #[trigger] groups[g], n)
    &&& forall|i: int|
        0 <= i < n ==> exists|g: int|
            0 <= g < groups.len() && group_key(#[trigger] groups[g]) == dir_key(
                #[trigger] results[i],
            )
}

proof fn lemma_no_members(results: Seq<AnalysisResult>, key: Seq<ComponentV>, n: nat)
    requires
        n <= results.len(),
        forall|i: int| 0 <= i < n ==> dir_key(#[trigger] results[i]) != key,
    ensures
        members_of(results, key, n).len() == 0,
    decreases n,
{
    if n > 0 {
        lemma_no_members(results, key, (n - 1) as nat);
    }
}

pub(crate) proof fn lemma_members(results: Seq<AnalysisResult>, key: Seq<ComponentV>, n: nat)
    requires
        n <= results.len() <= usize::MAX,
    ensures
        forall|m: int|
            0 <= m < members_of(results, key, n).len() ==> (#[trigger] members_of(
                results,
                key,
                n,
            )[m]) < n && dir_key(results[members_of(results, key, n)[m] as int]) == key,
        forall|i: int|
            0 <= i < n && dir_key(#[trigger] results[i]) == key ==> members_of(
                results,
                key,
                n,
            ).contains(i as usize),
    decreases n,
{
    if n > 0 {
        let front = members_of(results, key, (n - 1) as nat);
        lemma_members(results, key, (n - 1) as nat);
        let all = members_of(results, key, n);
        assert forall|i: int| 0 <= i < n && dir_key(#[trigger] results[i]) == key implies all.contains(
            i as usize,
        ) by {
            if i == n - 1 {
                assert(all[all.len() - 1] == i as usize);
            } else {
                assert(front.contains(i as usize));
                let m = choose|m: int| 0 <= m < front.len() && front[m] == i as usize;
                assert(all[m] == i as usize);
            }
        }
    }
}

/// Every result stands in exactly one group: that of its directory.
pub proof fn every_result_has_one_group(
    results: Seq<AnalysisResult>,
    groups: Seq<DrGroup>,
    i: int,
) -> (g: int)
    requires
        grouped(results, groups, results.len()),
        results.len() <= usize::MAX,
        0 <= i < results.len(),
    ensures
        0 <= g < groups.len(),
        groups[g].members@.contains(i as usize),
        forall|h: int|
            0 <= h < groups.len() && (#[trigger] groups[h]).members@.contains(i as usize) ==> h == g,
{
    let key = dir_key(results[i]);
    let g = choose|g: int| 0 <= g < groups.len() && group_key(#[trigger] groups[g]) == key;
    assert(group_holds(results, groups[g], results.len()));
    lemma_members(results, key, results.len());
    assert forall|h: int|
        0 <= h < groups.len() && (#[trigger] groups[h]).members@.contains(i as usize) implies h == g by {
        assert(group_holds(results, groups[h], results.len()));
        lemma_members(results, group_key(groups[h]), results.len());
        let m = choose|m: int|
            0 <= m < groups[h].members@.len() && groups[h].members@[m] == i as usize;
        assert(members_of(results, group_key(groups[h]), results.len())[m] == i as usize);
        assert(group_key(groups[h]) == key);
        order_is_total(key, key);
        if h < g {
            assert(before(group_key(groups[h]), group_key(groups[g])));
        } else if g < h {
            assert(before(group_key(groups[g]), group_key(groups[h])));
        }
    }
    g
}

fn add_result(groups: Vec<DrGroup>, results: &Vec<AnalysisResult>, i: usize) -> (r: Vec<DrGroup>)
    requires
        i < results@.len(),
        grouped(results@, groups@, i as nat),
    ensures
        grouped(results@, r@, (i + 1) as nat),
{
    let mut groups = groups;
    let ghost before_all = groups@;
    let total: usize = results.len();
    assert(results@.len() == total);
    let dir = directory(results[i].path.as_str());
    let parts = components_of(dir.as_str());
    let ghost key = parts@;
    let mut j: usize = 0;
    while j < groups.len()
        invariant
            groups@ == before_all,
            j <= groups@.len(),
            key == parts@,
            forall|g: int| 0 <= g < j ==> before(group_key(#[trigger] before_all[g]), key),
        ensures
            groups@ == before_all,
            j <= groups@.len(),
            forall|g: int| 0 <= g < j ==> before(group_key(#[trigger] before_all[g]), key),
            j < groups@.len() ==> !before(group_key(before_all[j as int]), key),
        decreases groups@.len() - j,
    {
        let other = components_of(groups[j].dir.as_str());
        let place = compare_paths(&other, &parts);
        if place != Place::Before {
            break;
        }
        j += 1;
    }
    if j < groups.len() {
        let other = components_of(groups[j].dir.as_str());
        if compare_paths(&other, &parts) == Place::Same {
            let mut group = groups.remove(j);
            group.members.push(i);
            groups.insert(j, group);
            proof {
                lemma_grown(results@, before_all, groups@, j as int, i as int);
            }
            return groups;
        }
    }
    let mut members: Vec<usize> = Vec::new();
    members.push(i);
    groups.insert(j, DrGroup { dir, members });
    proof {
        lemma_inserted(results@, before_all, groups@, j as int, i as int);
    }
    groups
}

proof fn lemma_grown(
    results: Seq<AnalysisResult>,
    old_groups: Seq<DrGroup>,
    groups: Seq<DrGroup>,
    j: int,
    i: int,
)
    requires
        0 <= i < results.len() <= usize::MAX,
        0 <= j < old_groups.len(),
        grouped(results, old_groups, i as nat),
        group_key(old_groups[j]) == dir_key(results[i]),
        groups.len() == old_groups.len(),
        forall|g: int| 0 <= g < groups.len() && g != j ==> groups[g] == old_groups[g],
        groups[j].dir == old_groups[j].dir,
        groups[j].members@ == old_groups[j].members@.push(i as usize),
    ensures
        grouped(results, groups, (i + 1) as nat),
{
    let key = dir_key(results[i]);
    assert forall|g: int| 0 <= g < groups.len() implies group_key(#[trigger] groups[g]) == group_key(
        old_groups[g],
    ) by {}
    assert forall|g: int, h: int| 0 <= g < h < groups.len() implies before(
        group_key(#[trigger] groups[g]),
        group_key(#[trigger] groups[h]),
    ) by {
        assert(before(group_key(old_groups[g]), group_key(old_groups[h])));
    }
    assert forall|g: int| 0 <= g < groups.len() implies group_holds(
        results,
        #[trigger] groups[g],
        (i + 1) as nat,
    ) by {
        assert(group_holds(results, old_groups[g], i as nat));
        order_is_total(key, key);
        if g != j {
            if g < j {
                assert(before(group_key(old_groups[g]), group_key(old_groups[j])));
            } else {
                assert(before(group_key(old_groups[j]), group_key(old_groups[g])));
            }
        }
    }
    assert forall|k: int| 0 <= k < i + 1 implies exists|g: int|
        0 <= g < groups.len() && group_key(#[trigger] groups[g]) == dir_key(#[trigger] results[k]) by {
        if k == i {
            assert(group_key(groups[j]) == dir_key(results[k]));
        } else {
            let g = choose|g: int|
                0 <= g < old_groups.len() && group_key(#[trigger] old_groups[g]) == dir_key(results[k]);
            assert(group_key(groups[g]) == dir_key(results[k]));
        }
    }
}

proof fn lemma_inserted(
    results: Seq<AnalysisResult>,
    old_groups: Seq<DrGroup>,
    groups: Seq<DrGroup>,
    j: int,
    i: int,
)
    requires
        0 <= i < results.len() <= usize::MAX,
        0 <= j <= old_groups.len(),
        grouped(results, old_groups, i as nat),
        groups == old_groups.insert(j, groups[j]),
        groups[j].dir@ == dir_of(results[i].path@),
        groups[j].members@ == seq![i as usize],
        forall|g: int|
            0 <= g < j ==> before(group_key(#[trigger] old_groups[g]), dir_key(results[i])),
        j < old_groups.len() ==> !before(group_key(old_groups[j]), dir_key(results[i]))
            && group_key(old_groups[j]) != dir_key(results[i]),
    ensures
        grouped(results, groups, (i + 1) as nat),
{
    let key = dir_key(results[i]);
    order_is_total(key, key);
    assert forall|g: int| j <= g < old_groups.len() implies before(
        key,
        group_key(#[trigger] old_groups[g]),
    ) by {
        order_is_total(key, group_key(old_groups[j]));
        if g > j {
            order_is_transitive(key, group_key(old_groups[j]), group_key(old_groups[g]));
        }
    }
    assert forall|g: int, h: int| 0 <= g < h < groups.len() implies before(
        group_key(#[trigger] groups[g]),
        group_key(#[trigger] groups[h]),
    ) by {
        let a = if g < j {
            g
        } else {
            g - 1
        };
        let b = if h < j {
            h
        } else {
            h - 1
        };
        if g != j {
            assert(groups[g] == old_groups[a]);
        }
        if h != j {
            assert(groups[h] == old_groups[b]);
        }
        if g != j && h != j {
            assert(before(group_key(old_groups[a]), group_key(old_groups[b])));
        }
    }
    assert forall|k: int| 0 <= k < i implies dir_key(#[trigger] results[k]) != key by {
        let g = choose|g: int|
            0 <= g < old_groups.len() && group_key(#[trigger] old_groups[g]) == dir_key(results[k]);
        if g < j {
            assert(before(group_key(old_groups[g]), key));
        } else {
            assert(before(key, group_key(old_groups[g])));
        }
    }
    lemma_no_members(results, key, i as nat);
    assert forall|g: int| 0 <= g < groups.len() implies group_holds(
        results,
        #[trigger] groups[g],
        (i + 1) as nat,
    ) by {
        if g == j {
            assert(groups[j].members@ =~= members_of(results, key, (i + 1) as nat));
        } else {
            let a = if g < j {
                g
            } else {
                g - 1
            };
            assert(groups[g] == old_groups[a]);
            assert(group_holds(results, old_groups[a], i as nat));
            assert(group_key(old_groups[a]) != key);
        }
    }
    assert forall|k: int| 0 <= k < i + 1 implies exists|g: int|
        0 <= g < groups.len() && group_key(#[trigger] groups[g]) == dir_key(#[trigger] results[k]) by {
        if k == i {
            assert(group_key(groups[j]) == dir_key(results[k]));
        } else {
            let g = choose|g: int|
                0 <= g < old_groups.len() && group_key(#[trigger] old_groups[g]) == dir_key(results[k]);
            let h = if g < j {
                g
            } else {
                g + 1
            };
            assert(groups[h] == old_groups[g]);
            assert(group_key(groups[h]) == dir_key(results[k]));
        }
    }
}

/// The analysed files by directory, in the order of the directories.
pub fn dr_groups(results: &Vec<AnalysisResult>) -> (r: Vec<DrGroup>)
    ensures
        grouped(results@, r@, results@.len()),
{
    let mut groups: Vec<DrGroup> = Vec::new();
    for i in 0..results.len()
        invariant
            grouped(results@, groups@, i as nat),
            i <= results@.len(),
    {
        groups = add_result(groups, results, i);
    }
    groups
}

/// What `str::to_lowercase` makes of a text.
pub uninterp spec fn lowercased(s: Seq<char>) -> Seq<char>;

/// `str::to_lowercase`: the lower-case equivalent of a text, as Unicode has it.
#[verifier::external_body]
fn lowercase(s: &str) -> (r: String)
    ensures
        r@ == lowercased(s@),
{
    s.to_lowercase()
}

/// What `str::to_uppercase` makes of a text.
pub uninterp spec fn uppercased(s: Seq<char>) -> Seq<char>;

/// `str::to_uppercase`: the upper-case equivalent of a text, as Unicode has it.
#[verifier::external_body]
fn uppercase(s: &str) -> (r: String)
    ensures
        r@ == uppercased(s@),
{
    s.to_uppercase()
}

/// The name of the codec for an extension in lower case; `upper` where the extension
/// is not known.
pub open spec fn codec_for(ext: Seq<char>, upper: Seq<char>) -> Seq<char> {
    if ext == "flac"@ {
        "FLAC"@
    } else if ext == "wav"@ {
        "WAV"@
    } else if ext == "aiff"@ || ext == "aif"@ {
        "AIFF"@
    } else if ext == "wv"@ {
        "WavPack"@
    } else if ext == "mp3"@ {
        "MP3"@
    } else if ext == "m4a"@ || ext == "aac"@ {
        "AAC"@
    } else if ext == "opus"@ {
        "Opus"@
    } else if ext == "ogg"@ {
        "Ogg Vorbis"@
    } else if ext == "dsf"@ {
        "DSF"@
    } else if ext == "dff"@ {
        "DFF"@
    } else {
        upper
    }
}

/// The name of the codec for an extension in lower case; `upper` where the extension
/// is not known.
pub fn codec_name(ext: &str, upper: &str) -> (r: String)
    ensures
        r@ == codec_for(ext@, upper@),
{
    if same(ext, "flac") {
        owned("FLAC")
    } else if same(ext, "wav") {
        owned("WAV")
    } else if same(ext, "aiff") || same(ext, "aif") {
        owned("AIFF")
    } else if same(ext, "wv") {
        owned("WavPack")
    } else if same(ext, "mp3") {
        owned("MP3")
    } else if same(ext, "m4a") || same(ext, "aac") {
        owned("AAC")
    } else if same(ext, "opus") {
        owned("Opus")
    } else if same(ext, "ogg") {
        owned("Ogg Vorbis")
    } else if same(ext, "dsf") {
        owned("DSF")
    } else if same(ext, "dff") {
        owned("DFF")
    } else {
        owned(upper)
    }
}

/// The name of the codec of a file, by its extension.
pub open spec fn codec_of(path: Seq<char>) -> Seq<char> {
    let ext = match extension_of(name_or_empty(path)) {
        Some(ext) => lowercased(ext),
        None => Seq::empty(),
    };
    codec_for(ext, uppercased(ext))
}

/// Detect codec name from file extension.
pub fn detect_codec(path: &str) -> (r: String)
    ensures
        r@ == codec_of(path@),
{
    let ext = match extension(path) {
        Some(ext) => lowercase(ext.as_str()),
        None => String::new(),
    };
    let upper = uppercase(ext.as_str());
    codec_name(ext.as_str(), upper.as_str())
}

/// What was analysed: artist and album, as far as the tags name them, else the name of
/// the directory.
pub open spec fn analyzed_label(file: DrFile, path: Seq<char>) -> Seq<char> {
    match (file.artist, file.album) {
        (Some(artist), Some(album)) => artist@ + " / "@ + album@,
        (Some(artist), None) => artist@,
        (None, Some(album)) => album@,
        (None, None) => match parent_of(path) {
            Some(dir) => match name_of(dir) {
                Some(name) => name,
                None => "Unknown"@,
            },
            None => "Unknown"@,
        },
    }
}

fn analyzed_text(file: &DrFile, path: &str) -> (r: String)
    ensures
        r@ == analyzed_label(*file, path@),
{
    match (&file.artist, &file.album) {
        (Some(artist), Some(album)) => cat3(artist.as_str(), " / ", album.as_str()),
        (Some(artist), None) => owned(artist.as_str()),
        (None, Some(album)) => owned(album.as_str()),
        (None, None) => match parent(path) {
            Some(dir) => match file_name(dir.as_str()) {
                Some(name) => name,
                None => owned("Unknown"),
            },
            None => owned("Unknown"),
        },
    }
}

/// The places are places of results.
pub open spec fn places(results: Seq<AnalysisResult>, members: Seq<usize>) -> bool {
    forall|m: int| 0 <= m < members.len() ==> (#[trigger] members[m]) < results.len()
}

/// The sum of the dynamic ranges of the first `n` members.
pub open spec fn dr_sum(results: Seq<AnalysisResult>, members: Seq<usize>, n: nat) -> int
    decreases n,
{
    if n == 0 || n > members.len() {
        0
    } else {
        dr_sum(results, members, (n - 1) as nat) + results[members[n - 1] as int].dr_value
    }
}

/// `sum / n` rounded to the nearest integer, halves away from zero.
pub open spec fn rounded(sum: int, n: int) -> int {
    if sum >= 0 {
        (2 * sum + n) / (2 * n)
    } else {
        -((2 * (-sum) + n) / (2 * n))
    }
}

/// A rounded quotient is at most half away from the quotient.
pub proof fn rounded_is_near(sum: int, n: int)
    requires
        n > 0,
    ensures
        -n <= 2 * (rounded(sum, n) * n - sum) <= n,
{
    let s = if sum >= 0 {
        sum
    } else {
        -sum
    };
    let q = (2 * s + n) / (2 * n);
    vstd::arithmetic::div_mod::lemma_fundamental_div_mod(2 * s + n, 2 * n);
    vstd::arithmetic::div_mod::lemma_mod_bound(2 * s + n, 2 * n);
    assert(2 * n * q == 2 * (q * n)) by (nonlinear_arith);
    if sum < 0 {
        assert((-q) * n == -(q * n)) by (nonlinear_arith);
    }
}

/// The dynamic range of a directory: the rounded mean of its files.
pub open spec fn official_dr(results: Seq<AnalysisResult>, members: Seq<usize>) -> int {
    rounded(dr_sum(results, members, members.len()), members.len() as int)
}

fn official_value(results: &Vec<AnalysisResult>, members: &Vec<usize>) -> (r: i32)
    requires
        members@.len() > 0,
        places(results@, members@),
    ensures
        r == official_dr(results@, members@),
{
    let n: i128 = members.len() as i128;
    let mut sum: i128 = 0;
    for m in 0..members.len()
        invariant
            places(results@, members@),
            sum == dr_sum(results@, members@, m as nat),
            -2147483648 * m <= sum <= 2147483647 * m,
            m <= members@.len() <= usize::MAX,
    {
        sum = sum + results[members[m]].dr_value as i128;
    }
    if sum >= 0 {
        let q: i128 = (2 * sum + n) / (2 * n);
        proof {
            assert(0 <= q <= 2147483647) by (nonlinear_arith)
                requires
                    q == (2 * sum + n) / (2 * n),
                    n > 0,
                    0 <= sum <= 2147483647 * n,
            ;
        }
        q as i32
    } else {
        let size: i128 = -sum;
        let q: i128 = (2 * size + n) / (2 * n);
        proof {
            assert(0 <= q <= 2147483648) by (nonlinear_arith)
                requires
                    q == (2 * size + n) / (2 * n),
                    n > 0,
                    0 <= size <= 2147483648 * n,
            ;
        }
        (-q) as i32
    }
}

/// The row of one file.
pub open spec fn dr_row(found: AnalysisResult) -> Seq<char> {
    "DR"@ + left_aligned(integer(found.dr_value as int), 3) + "  "@ + right_aligned(
        found.peak_db_fine@,
        8,
    ) + " dB  "@ + right_aligned(found.rms_db_fine@, 8) + " dB  "@ + right_aligned(
        decimal(found.duration_secs as nat / 60),
        4,
    ) + ":"@ + zero_filled(found.duration_secs as nat % 60, 2) + " "@ + stem_of(
        name_or_empty(found.path@),
    )
}

fn dr_row_text(found: &AnalysisResult) -> (r: String)
    ensures
        r@ == dr_row(*found),
{
    let value = align_left(dec_i32(found.dr_value).as_str(), 3);
    let peak = align_right(found.peak_db_fine.as_str(), 8);
    let rms = align_right(found.rms_db_fine.as_str(), 8);
    let levels = cat6("DR", value.as_str(), "  ", peak.as_str(), " dB  ", rms.as_str());
    let minutes = align_right(dec(found.duration_secs / 60).as_str(), 4);
    let seconds = zero_fill(found.duration_secs % 60, 2);
    let times = cat6(
        levels.as_str(),
        " dB  ",
        minutes.as_str(),
        ":",
        seconds.as_str(),
        " ",
    );
    cat2(times.as_str(), file_stem_or_empty(found.path.as_str()).as_str())
}

/// The rows of the first `n` members.
pub open spec fn dr_rows(results: Seq<AnalysisResult>, members: Seq<usize>, n: nat) -> Seq<Seq<char>>
    decreases n,
{
    if n == 0 || n > members.len() {
        Seq::empty()
    } else {
        dr_rows(results, members, (n - 1) as nat).push(dr_row(results[members[n - 1] as int]))
    }
}

/// The lines above the rows.
pub open spec fn report_head(label: Seq<char>, now: Seq<char>) -> Seq<Seq<char>> {
    let separator = repeated('-', 80);
    seq![
        "tonepoet / Dynamic Range Meter"@,
        "log date: "@ + now,
        ""@,
        separator,
        "Analyzed: "@ + label,
        separator,
        ""@,
        "DR         Peak         RMS     Duration Track"@,
        separator,
    ]
}

fn report_head_lines(label: &str, now: &str) -> (r: Texts)
    ensures
        r@ == report_head(label@, now@),
{
    let mut lines = Texts::new();
    lines.push(owned("tonepoet / Dynamic Range Meter"));
    lines.push(cat2("log date: ", now));
    lines.push(owned(""));
    lines.push(repeat_char('-', 80));
    lines.push(cat2("Analyzed: ", label));
    lines.push(repeat_char('-', 80));
    lines.push(owned(""));
    lines.push(owned("DR         Peak         RMS     Duration Track"));
    lines.push(repeat_char('-', 80));
    lines
}

/// The lines below the rows: how many files there are, their dynamic range, and the
/// audio format of the first.
pub open spec fn report_foot(first: AnalysisResult, kbps: nat, tracks: nat, official: int) -> Seq<
    Seq<char>,
> {
    seq![
        repeated('-', 80),
        ""@,
        "Number of tracks:  "@ + decimal(tracks),
        "Official DR value: DR"@ + integer(official),
        ""@,
        "Samplerate:        "@ + decimal(first.sample_rate as nat) + " Hz"@,
        "Channels:          "@ + decimal(first.channels as nat),
        "Bits per sample:   "@ + decimal(first.actual_bit_depth as nat),
        "Bitrate:           "@ + decimal(kbps) + " kbps"@,
        "Codec:             "@ + codec_of(first.path@),
        repeated('=', 80),
    ]
}

fn report_foot_lines(first: &AnalysisResult, kbps: u64, tracks: usize, official: i32) -> (r: Texts)
    ensures
        r@ == report_foot(*first, kbps as nat, tracks as nat, official as int),
{
    let mut lines = Texts::new();
    lines.push(repeat_char('-', 80));
    lines.push(owned(""));
    lines.push(cat2("Number of tracks:  ", dec_len(tracks).as_str()));
    lines.push(cat2("Official DR value: DR", dec_i32(official).as_str()));
    lines.push(owned(""));
    lines.push(cat3("Samplerate:        ", dec(first.sample_rate as u64).as_str(), " Hz"));
    lines.push(cat2("Channels:          ", dec(first.channels as u64).as_str()));
    lines.push(cat2("Bits per sample:   ", dec(first.actual_bit_depth as u64).as_str()));
    lines.push(cat3("Bitrate:           ", dec(kbps).as_str(), " kbps"));
    lines.push(cat2("Codec:             ", detect_codec(first.path.as_str()).as_str()));
    lines.push(repeat_char('=', 80));
    lines
}

/// The lines of the report on the members of a group.
pub open spec fn report_lines(
    results: Seq<AnalysisResult>,
    files: Seq<DrFile>,
    members: Seq<usize>,
    now: Seq<char>,
) -> Seq<Seq<char>> {
    let first = results[members[0] as int];
    let file = files[members[0] as int];
    report_head(analyzed_label(file, first.path@), now) + dr_rows(results, members, members.len())
        + report_foot(
        first,
        file.folder_kbps as nat,
        members.len(),
        official_dr(results, members),
    )
}

/// The report on the members of a group.
pub open spec fn report_text(
    results: Seq<AnalysisResult>,
    files: Seq<DrFile>,
    members: Seq<usize>,
    now: Seq<char>,
) -> Seq<char> {
    joined(report_lines(results, files, members, now), "\n"@) + "\n"@
}

/// The report on some of the results.
pub fn format_one_report(
    results: &Vec<AnalysisResult>,
    files: &Vec<DrFile>,
    members: &Vec<usize>,
    now: &str,
) -> (r: String)
    requires
        members@.len() > 0,
        places(results@, members@),
        files@.len() == results@.len(),
    ensures
        r@ == report_text(results@, files@, members@, now@),
{
    assert(members@[0] < results@.len());
    let first = &results[members[0]];
    let file = &files[members[0]];
    let label = analyzed_text(file, first.path.as_str());
    let mut lines = report_head_lines(label.as_str(), now);
    let ghost head = lines@;
    for m in 0..members.len()
        invariant
            places(results@, members@),
            lines@ =~= head + dr_rows(results@, members@, m as nat),
    {
        lines.push(dr_row_text(&results[members[m]]));
    }
    let official: i32 = official_value(results, members);
    let foot = report_foot_lines(first, file.folder_kbps, members.len(), official);
    let ghost rows = lines@;
    for k in 0..foot.items.len()
        invariant
            lines@ =~= rows + foot@.take(k as int),
    {
        lines.push(owned(foot.items[k].as_str()));
    }
    proof {
        assert(foot@.take(foot@.len() as int) =~= foot@);
        assert(lines@ =~= report_lines(results@, files@, members@, now@));
    }
    cat2(lines.join("\n").as_str(), "\n")
}

/// `reports` are the reports on `groups`.
pub open spec fn reported(
    results: Seq<AnalysisResult>,
    files: Seq<DrFile>,
    groups: Seq<DrGroup>,
    now: Seq<char>,
    reports: Seq<DrReport>,
) -> bool {
    &&& reports.len() == groups.len()
    &&& forall|g: int|
        0 <= g < groups.len() ==> (#[trigger] reports[g]).dir@ == groups[g].dir@
            && reports[g].text@ == report_text(results, files, groups[g].members@, now)
}

/// Generate DR reports grouped by parent directory.
pub fn format_dr_reports(results: &Vec<AnalysisResult>, files: &Vec<DrFile>, now: &str) -> (r: Vec<
    DrReport,
>)
    requires
        files@.len() == results@.len(),
    ensures
        exists|groups: Seq<DrGroup>| #[trigger]
            grouped(results@, groups, results@.len()) && reported(
                results@,
                files@,
                groups,
                now@,
                r@,
            ),
{
    let total: usize = results.len();
    let groups = dr_groups(results);
    let mut reports: Vec<DrReport> = Vec::new();
    for g in 0..groups.len()
        invariant
            files@.len() == results@.len() == total,
            grouped(results@, groups@, results@.len()),
            reported(results@, files@, groups@.take(g as int), now@, reports@),
    {
        let group = &groups[g];
        proof {
            assert(group_holds(results@, groups@[g as int], results@.len()));
            lemma_members(results@, group_key(*group), results@.len());
            assert forall|m: int| 0 <= m < group.members@.len() implies (
            #[trigger] group.members@[m]) < results@.len() by {
                assert(members_of(results@, group_key(*group), results@.len())[m]
                    == group.members@[m]);
            }
        }
        let text = format_one_report(results, files, &group.members, now);
        reports.push(DrReport { dir: owned(group.dir.as_str()), text });
    }
    proof {
        assert(groups@.take(groups@.len() as int) =~= groups@);
    }
    reports
}

/// There is no report where nothing was analysed.
pub proof fn no_results_no_reports(groups: Seq<DrGroup>)
    requires
        grouped(Seq::empty(), groups, 0),
    ensures
        groups.len() == 0,
{
    if groups.len() > 0 {
        assert(group_holds(Seq::empty(), groups[0], 0));
    }
}

proof fn lemma_group_found(results: Seq<AnalysisResult>, a: Seq<DrGroup>, b: Seq<DrGroup>, g: int) -> (h:
    int)
    requires
        grouped(results, a, results.len()),
        grouped(results, b, results.len()),
        results.len() <= usize::MAX,
        0 <= g < a.len(),
    ensures
        0 <= h < b.len(),
        group_key(b[h]) == group_key(a[g]),
        b[h].dir@ == a[g].dir@,
        b[h].members@ == a[g].members@,
{
    assert(group_holds(results, a[g], results.len()));
    lemma_members(results, group_key(a[g]), results.len());
    let i = members_of(results, group_key(a[g]), results.len())[0] as int;
    assert(dir_key(results[i]) == group_key(a[g]));
    let h = choose|h: int| 0 <= h < b.len() && group_key(#[trigger] b[h]) == dir_key(results[i]);
    assert(group_holds(results, b[h], results.len()));
    h
}

/// The results have only one grouping: two of them agree in every group.
pub proof fn grouping_is_unique(results: Seq<AnalysisResult>, a: Seq<DrGroup>, b: Seq<DrGroup>)
    requires
        grouped(results, a, results.len()),
        grouped(results, b, results.len()),
        results.len() <= usize::MAX,
    ensures
        a.len() == b.len(),
        forall|g: int|
            0 <= g < a.len() ==> (#[trigger] a[g]).dir@ == b[g].dir@ && a[g].members@ == b[g].members@,
{
    lemma_no_more_groups(results, a, b, a.len() as int);
    lemma_no_more_groups(results, b, a, b.len() as int);
    assert forall|g: int| 0 <= g < a.len() implies (#[trigger] a[g]).dir@ == b[g].dir@
        && a[g].members@ == b[g].members@ by {
        lemma_no_more_groups(results, a, b, g + 1);
        lemma_no_more_groups(results, b, a, g + 1);
        lemma_same_place(results, a, b, g);
    }
}

proof fn lemma_same_place(results: Seq<AnalysisResult>, a: Seq<DrGroup>, b: Seq<DrGroup>, g: int)
    requires
        grouped(results, a, results.len()),
        grouped(results, b, results.len()),
        results.len() <= usize::MAX,
        0 <= g < a.len(),
        g < b.len(),
    ensures
        group_key(a[g]) == group_key(b[g]),
        a[g].dir@ == b[g].dir@,
        a[g].members@ == b[g].members@,
    decreases g,
{
    let h = lemma_group_found(results, a, b, g);
    let k = lemma_group_found(results, b, a, g);
    order_is_total(group_key(a[g]), group_key(b[g]));
    if h < g {
        lemma_same_place(results, a, b, h);
        assert(before(group_key(a[h]), group_key(a[g])));
        order_is_total(group_key(a[g]), group_key(a[g]));
    } else if h > g {
        assert(before(group_key(b[g]), group_key(b[h])));
        if k < g {
            lemma_same_place(results, a, b, k);
            assert(before(group_key(b[k]), group_key(b[g])));
            order_is_total(group_key(b[g]), group_key(b[g]));
        } else if k > g {
            assert(before(group_key(a[g]), group_key(a[k])));
        }
    }
}

proof fn lemma_no_more_groups(results: Seq<AnalysisResult>, a: Seq<DrGroup>, b: Seq<DrGroup>, n: int)
    requires
        grouped(results, a, results.len()),
        grouped(results, b, results.len()),
        results.len() <= usize::MAX,
        0 <= n <= a.len(),
    ensures
        n <= b.len(),
    decreases n,
{
    if n > 0 {
        lemma_no_more_groups(results, a, b, n - 1);
        if b.len() == n - 1 {
            let h = lemma_group_found(results, a, b, n - 1);
            lemma_same_place(results, a, b, h);
            assert(before(group_key(a[h]), group_key(a[n - 1])));
            order_is_total(group_key(a[h]), group_key(a[h]));
        }
    }
}

} // verus!
