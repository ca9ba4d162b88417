//! Dynamic range reports.

use crate::dr_report::{
    analyzed_label, codec_of, dir_key, dr_row, dr_rows, dr_sum, group_holds, group_key, grouped,
    lemma_members, members_of, official_dr, report_lines, report_text, reported, rounded,
    rounded_is_near, DrFile, DrGroup, DrReport,
};
use crate::laws::texts::{joined_texts_keep_their_order, part_at};
use crate::path::{name_or_empty, stem_of};
use crate::reports::AnalysisResult;
use crate::text::{decimal, integer, left_aligned, right_aligned, zero_filled};
use vstd::prelude::*;

verus! {

/// The dynamic ranges of some of the results.
pub open spec fn ranges(results: Seq<AnalysisResult>, members: Seq<usize>) -> Seq<int> {
    Seq::new(members.len(), |m: int| results[members[m] as int].dr_value as int)
}

/// All numbers added up.
pub open spec fn total(numbers: Seq<int>) -> int {
    numbers.fold_left(0int, |sum: int, number: int| sum + number)
}

proof fn lemma_sum(results: Seq<AnalysisResult>, members: Seq<usize>, n: nat)
    requires
        n <= members.len(),
    ensures
        dr_sum(results, members, n) == total(ranges(results, members).take(n as int)),
    decreases n,
{
    let all = ranges(results, members).take(n as int);
    if n > 0 {
        lemma_sum(results, members, (n - 1) as nat);
        assert(all.drop_last() =~= ranges(results, members).take(n - 1));
        assert(all.last() == results[members[n - 1] as int].dr_value as int);
    } else {
        assert(all =~= Seq::empty());
    }
}

/// The official value is the mean of all files of the directory, rounded to the nearest whole
/// number, halves away from zero.
pub proof fn official_value_is_the_rounded_mean(results: Seq<AnalysisResult>, members: Seq<usize>)
    requires
        members.len() > 0,
    ensures
        ({
            let n = members.len() as int;
            let sum = total(ranges(results, members));
            let v = official_dr(results, members);
            &&& -n <= 2 * (v * n - sum) <= n
            &&& (2 * (v * n - sum) == n ==> sum > 0)
            &&& (2 * (v * n - sum) == -n ==> sum < 0)
        }),
{
    let n = members.len() as int;
    lemma_sum(results, members, members.len());
    assert(ranges(results, members).take(n) =~= ranges(results, members));
    let sum = dr_sum(results, members, members.len());
    rounded_is_near(sum, n);
    let s = if sum >= 0 {
        sum
    } else {
        -sum
    };
    let q = (2 * s + n) / (2 * n);
    vstd::arithmetic::div_mod::lemma_fundamental_div_mod(2 * s + n, 2 * n);
    vstd::arithmetic::div_mod::lemma_mod_bound(2 * s + n, 2 * n);
    assert(2 * n * q == 2 * (q * n)) by (nonlinear_arith);
    let v = official_dr(results, members);
    let rest = (2 * s + n) % (2 * n);
    assert(2 * s + n == 2 * (q * n) + rest);
    if sum < 0 {
        assert((-q) * n == -(q * n)) by (nonlinear_arith);
        assert(v == -q);
        assert(2 * (v * n - sum) == rest - n);
    } else {
        assert(v == q);
        assert(2 * (v * n - sum) == n - rest);
        if sum == 0 && rest == 0 {
            assert(q >= 1 ==> q * n >= n) by (nonlinear_arith)
                requires
                    n > 0,
            ;
            assert(q <= 0 ==> q * n <= 0) by (nonlinear_arith)
                requires
                    n > 0,
            ;
        }
    }
}

/// The order of the files does not matter to the official value.
pub proof fn official_value_has_no_order(
    results: Seq<AnalysisResult>,
    a: Seq<usize>,
    b: Seq<usize>,
)
    requires
        a.len() == b.len(),
        ranges(results, a).to_multiset() == ranges(results, b).to_multiset(),
    ensures
        official_dr(results, a) == official_dr(results, b),
{
    let f = |sum: int, number: int| sum + number;
    lemma_sum(results, a, a.len());
    lemma_sum(results, b, b.len());
    assert(ranges(results, a).take(a.len() as int) =~= ranges(results, a));
    assert(ranges(results, b).take(b.len() as int) =~= ranges(results, b));
    assert(vstd::seq_lib::commutative_foldl(f));
    vstd::seq_lib::lemma_fold_left_permutation(ranges(results, a), ranges(results, b), f, 0int);
}

proof fn lemma_total_update(numbers: Seq<int>, k: int, value: int)
    requires
        0 <= k < numbers.len(),
    ensures
        total(numbers.update(k, value)) == total(numbers) - numbers[k] + value,
    decreases numbers.len(),
{
    let changed = numbers.update(k, value);
    if k == numbers.len() - 1 {
        assert(changed.drop_last() =~= numbers.drop_last());
    } else {
        lemma_total_update(numbers.drop_last(), k, value);
        assert(changed.drop_last() =~= numbers.drop_last().update(k, value));
        assert(changed.last() == numbers.last());
    }
}

/// Every file counts: the official value grows where the range of any one of `n` files grows by
/// `2 * n` and the others stay.
pub proof fn every_file_counts(
    before: Seq<AnalysisResult>,
    after: Seq<AnalysisResult>,
    members: Seq<usize>,
    k: int,
)
    requires
        0 <= k < members.len(),
        ranges(after, members) == ranges(before, members).update(
            k,
            ranges(before, members)[k] + 2 * members.len(),
        ),
    ensures
        official_dr(after, members) > official_dr(before, members),
{
    official_value_is_the_rounded_mean(before, members);
    official_value_is_the_rounded_mean(after, members);
    lemma_total_update(
        ranges(before, members),
        k,
        ranges(before, members)[k] + 2 * members.len(),
    );
    let n = members.len() as int;
    let v = official_dr(before, members);
    let w = official_dr(after, members);
    assert(w > v) by (nonlinear_arith)
        requires
            w * n >= v * n + n,
            n > 0,
    ;
}

proof fn lemma_rows(results: Seq<AnalysisResult>, members: Seq<usize>, n: nat)
    requires
        n <= members.len(),
    ensures
        dr_rows(results, members, n).len() == n,
        forall|m: int|
            0 <= m < n ==> #[trigger] dr_rows(results, members, n)[m] == dr_row(
                results[members[m] as int],
            ),
    decreases n,
{
    if n > 0 {
        lemma_rows(results, members, (n - 1) as nat);
    }
}

/// The row of a file: its own range, levels, duration in minutes and seconds, and name.
pub proof fn row_gives_the_figures_of_the_file(found: AnalysisResult) -> (time: (nat, nat))
    ensures
        time.1 < 60,
        60 * time.0 + time.1 == found.duration_secs,
        dr_row(found) == "DR"@ + left_aligned(integer(found.dr_value as int), 3) + "  "@
            + right_aligned(found.peak_db_fine@, 8) + " dB  "@ + right_aligned(
            found.rms_db_fine@,
            8,
        ) + " dB  "@ + right_aligned(decimal(time.0), 4) + ":"@ + zero_filled(time.1, 2) + " "@
            + stem_of(name_or_empty(found.path@)),
{
    (found.duration_secs as nat / 60, found.duration_secs as nat % 60)
}

/// A report has a row for each file of the directory, in their order, and says how many there
/// are, their official value, and the audio format of the first.
pub proof fn report_covers_every_file(
    results: Seq<AnalysisResult>,
    files: Seq<DrFile>,
    members: Seq<usize>,
    now: Seq<char>,
)
    requires
        members.len() > 0,
    ensures
        ({
            let lines = report_lines(results, files, members, now);
            let first = results[members[0] as int];
            let n = members.len() as int;
            &&& lines.len() == n + 20
            &&& lines[0] == "tonepoet / Dynamic Range Meter"@
            &&& lines[1] == "log date: "@ + now
            &&& lines[4] == "Analyzed: "@ + analyzed_label(files[members[0] as int], first.path@)
            &&& forall|m: int| 0 <= m < n ==> #[trigger] lines[9 + m] == dr_row(
                results[members[m] as int],
            )
            &&& lines[n + 11] == "Number of tracks:  "@ + decimal(members.len())
            &&& lines[n + 12] == "Official DR value: DR"@ + integer(official_dr(results, members))
            &&& lines[n + 14] == "Samplerate:        "@ + decimal(first.sample_rate as nat) + " Hz"@
            &&& lines[n + 15] == "Channels:          "@ + decimal(first.channels as nat)
            &&& lines[n + 16] == "Bits per sample:   "@ + decimal(first.actual_bit_depth as nat)
            &&& lines[n + 17] == "Bitrate:           "@ + decimal(
                files[members[0] as int].folder_kbps as nat,
            ) + " kbps"@
            &&& lines[n + 18] == "Codec:             "@ + codec_of(first.path@)
        }),
{
    lemma_rows(results, members, members.len());
}

/// What was analysed is named by its tags as far as there are any.
pub proof fn label_is_taken_from_the_tags(file: DrFile, path: Seq<char>)
    ensures
        file.artist matches Some(artist) ==> artist@.is_prefix_of(analyzed_label(file, path)),
        file.album matches Some(album) ==> album@.is_suffix_of(analyzed_label(file, path)),
        file.artist is Some && file.album is None ==> analyzed_label(file, path)
            == file.artist->0@,
        file.artist is Some && file.album is Some ==> analyzed_label(file, path).len()
            == file.artist->0@.len() + 3 + file.album->0@.len(),
{
    reveal_strlit(" / ");
    let label = analyzed_label(file, path);
    if let Some(artist) = file.artist {
        assert(artist@ =~= label.subrange(0, artist@.len() as int));
    }
    if let Some(album) = file.album {
        assert(album@ =~= label.subrange(label.len() - album@.len(), label.len() as int));
    }
}

/// A group holds the files of its directory, all of them and no others, in the order in which
/// they were analysed.
pub proof fn group_holds_the_files_of_its_directory(
    results: Seq<AnalysisResult>,
    groups: Seq<DrGroup>,
    g: int,
)
    requires
        grouped(results, groups, results.len()),
        results.len() <= usize::MAX,
        0 <= g < groups.len(),
    ensures
        forall|i: int|
            0 <= i < results.len() ==> (groups[g].members@.contains(i as usize) <==> dir_key(
                #[trigger] results[i],
            ) == group_key(groups[g])),
        forall|m: int, k: int|
            0 <= m < k < groups[g].members@.len() ==> #[trigger] groups[g].members@[m]
                < #[trigger] groups[g].members@[k],
        forall|m: int|
            0 <= m < groups[g].members@.len() ==> #[trigger] groups[g].members@[m] < results.len(),
{
    let key = group_key(groups[g]);
    assert(group_holds(results, groups[g], results.len()));
    lemma_members(results, key, results.len());
    lemma_increasing(results, key, results.len());
    let members = groups[g].members@;
    assert forall|i: int| 0 <= i < results.len() implies (members.contains(i as usize)
        <==> dir_key(#[trigger] results[i]) == key) by {
        if members.contains(i as usize) {
            let m = choose|m: int| 0 <= m < members.len() && members[m] == i as usize;
            assert(members_of(results, key, results.len())[m] == i as usize);
        }
    }
}

proof fn lemma_increasing(
    results: Seq<AnalysisResult>,
    key: Seq<crate::path_order::ComponentV>,
    n: nat,
)
    requires
        n <= results.len() <= usize::MAX,
    ensures
        forall|m: int, k: int|
            0 <= m < k < members_of(results, key, n).len() ==> #[trigger] members_of(
                results,
                key,
                n,
            )[m] < #[trigger] members_of(results, key, n)[k],
    decreases n,
{
    if n > 0 {
        lemma_increasing(results, key, (n - 1) as nat);
        lemma_members(results, key, (n - 1) as nat);
        let front = members_of(results, key, (n - 1) as nat);
        let all = members_of(results, key, n);
        assert forall|m: int, k: int| 0 <= m < k < all.len() implies #[trigger] all[m]
            < #[trigger] all[k] by {
            assert(all[m] == front[m]);
            assert(front[m] < n - 1);
            if k < front.len() {
                assert(all[k] == front[k]);
            }
        }
    }
}

/// Every analysed file has its row in the report on its directory.
pub proof fn every_file_is_reported(
    results: Seq<AnalysisResult>,
    files: Seq<DrFile>,
    groups: Seq<DrGroup>,
    now: Seq<char>,
    reports: Seq<DrReport>,
    i: int,
) -> (place: (int, int))
    requires
        grouped(results, groups, results.len()),
        reported(results, files, groups, now, reports),
        results.len() <= usize::MAX,
        0 <= i < results.len(),
    ensures
        ({
            let (g, at) = place;
            let row = dr_row(results[i]);
            &&& 0 <= g < reports.len()
            &&& crate::path_order::components(reports[g].dir@) == dir_key(results[i])
            &&& 0 <= at
            &&& at + row.len() <= reports[g].text@.len()
            &&& reports[g].text@.subrange(at, at + row.len()) == row
        }),
{
    let g = crate::dr_report::every_result_has_one_group(results, groups, i);
    group_holds_the_files_of_its_directory(results, groups, g);
    let members = groups[g].members@;
    let m = choose|m: int| 0 <= m < members.len() && members[m] == i as usize;
    let lines = report_lines(results, files, members, now);
    report_covers_every_file(results, files, members, now);
    joined_texts_keep_their_order(lines, "\n"@, 9 + m);
    let at = part_at(lines, "\n"@, (9 + m) as nat);
    let row = dr_row(results[i]);
    assert(lines[9 + m] == row);
    let text = crate::text::joined(lines, "\n"@);
    assert(reports[g].text@ == report_text(results, files, members, now));
    assert(reports[g].text@.subrange(at, at + row.len()) =~= text.subrange(at, at + row.len()));
    assert(dir_key(results[i]) == group_key(groups[g]));
    (g, at)
}

} // verus!
