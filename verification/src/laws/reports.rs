//! What the dialogs say of several results: their summaries count the results, and each result
//! has its own rows.

use crate::browse::PreemphasisConfidence;
use crate::path::name_or_path;
use crate::reports::{
    analysis_of, analysis_rows, compare_rows, emphasis_count, emphasis_result_rows, identical_count,
    passed_count, verify_rows, AnalysisResult, CompareResult, PreemphasisResult, VerifyResult,
};
use crate::scene::LineV;
use crate::style::Tone;
use crate::text::{decimal, integer};
use vstd::prelude::*;

verus! {

/// How many of `items` satisfy `test`.
pub open spec fn how_many<A>(items: Seq<A>, test: spec_fn(A) -> bool) -> nat {
    items.filter(test).len()
}

/// Those that satisfy a test and those that do not make up all.
pub proof fn lemma_split<A>(items: Seq<A>, test: spec_fn(A) -> bool, other: spec_fn(A) -> bool)
    requires
        forall|a: A| #[trigger] other(a) == !test(a),
    ensures
        how_many(items, test) + how_many(items, other) == items.len(),
        how_many(items, other) == 0 <==> forall|i: int|
            0 <= i < items.len() ==> test(#[trigger] items[i]),
    decreases items.len(),
{
    reveal(Seq::filter);
    if items.len() > 0 {
        lemma_split(items.drop_last(), test, other);
        let front = items.drop_last();
        if forall|i: int| 0 <= i < items.len() ==> test(#[trigger] items[i]) {
            assert forall|i: int| 0 <= i < front.len() implies test(#[trigger] front[i]) by {
                assert(front[i] == items[i]);
            }
            assert(test(items.last()));
        }
        if how_many(items, other) == 0 {
            assert(!other(items.last()));
            assert forall|i: int| 0 <= i < items.len() implies test(#[trigger] items[i]) by {
                if i < front.len() {
                    assert(front[i] == items[i]);
                }
            }
        }
    }
}

proof fn lemma_identical(results: Seq<CompareResult>, n: nat)
    requires
        n <= results.len(),
    ensures
        identical_count(results, n) == how_many(
            results.take(n as int),
            |r: CompareResult| r.identical,
        ),
    decreases n,
{
    reveal(Seq::filter);
    if n > 0 {
        lemma_identical(results, (n - 1) as nat);
        assert(results.take(n as int).drop_last() =~= results.take(n - 1));
        assert(results.take(n as int).last() == results[n - 1]);
    } else {
        assert(results.take(0) =~= Seq::empty());
    }
}

proof fn lemma_compare_rows(results: Seq<CompareResult>, n: nat)
    requires
        n <= results.len(),
    ensures
        compare_rows(results, n).len() == 2 + 2 * n,
        compare_rows(results, n)[0] == compare_rows(results, 0)[0],
        forall|i: int|
            0 <= i < n ==> {
                let head = #[trigger] compare_rows(results, n)[2 + 2 * i];
                let below = compare_rows(results, n)[3 + 2 * i];
                &&& head.len() == 4
                &&& head[0].text == if results[i].identical { " ✓ "@ } else { " ✗ "@ }
                &&& head[1].text == name_or_path(results[i].ref_path@)
                &&& head[3].text == name_or_path(results[i].target_path@)
                &&& below.len() == 2
                &&& below[1].text == results[i].detail@
                &&& (below[1].style.fg == Tone::Red <==> !results[i].identical)
            },
    decreases n,
{
    if n > 0 {
        lemma_compare_rows(results, (n - 1) as nat);
        let front = compare_rows(results, (n - 1) as nat);
        let all = compare_rows(results, n);
        assert(forall|k: int| 0 <= k < front.len() ==> #[trigger] all[k] == front[k]);
        assert forall|i: int| 0 <= i < n implies {
            let head = #[trigger] all[2 + 2 * i];
            let below = all[3 + 2 * i];
            &&& head.len() == 4
            &&& head[0].text == if results[i].identical { " ✓ "@ } else { " ✗ "@ }
            &&& head[1].text == name_or_path(results[i].ref_path@)
            &&& head[3].text == name_or_path(results[i].target_path@)
            &&& below.len() == 2
            &&& below[1].text == results[i].detail@
            &&& (below[1].style.fg == Tone::Red <==> !results[i].identical)
        } by {
            if i < n - 1 {
                assert(all[2 + 2 * i] == front[2 + 2 * i]);
                assert(all[3 + 2 * i] == front[3 + 2 * i]);
            }
        }
    }
}

/// The dialog says that all pairs are identical only where every pair is; else it says how many
/// are and how many differ, and these make up all. Pair `i` stands on two rows of its own, with
/// its mark, its two names and its finding.
pub proof fn comparison_counts_every_pair(results: Seq<CompareResult>)
    ensures
        ({
            let rows = compare_rows(results, results.len());
            let same = how_many(results, |r: CompareResult| r.identical);
            let differ = how_many(results, |r: CompareResult| !r.identical);
            &&& same + differ == results.len()
            &&& rows.len() == 2 + 2 * results.len()
            &&& if forall|i: int| 0 <= i < results.len() ==> (#[trigger] results[i]).identical {
                rows[0].len() == 2 && rows[0][1].text == decimal(results.len())
                    + " pair(s): all bit-identical"@ && rows[0][1].style.fg == Tone::Green
            } else {
                rows[0].len() == 4 && rows[0][1].text == decimal(same) + " identical"@
                    && rows[0][3].text == decimal(differ) + " differ"@ && rows[0][3].style.fg
                    == Tone::Red && differ > 0
            }
            &&& forall|i: int|
                0 <= i < results.len() ==> {
                    let head = #[trigger] rows[2 + 2 * i];
                    let below = rows[3 + 2 * i];
                    &&& head[0].text == if results[i].identical { " ✓ "@ } else { " ✗ "@ }
                    &&& head[1].text == name_or_path(results[i].ref_path@)
                    &&& head[3].text == name_or_path(results[i].target_path@)
                    &&& below[1].text == results[i].detail@
                    &&& (below[1].style.fg == Tone::Red <==> !results[i].identical)
                }
        }),
{
    let test = |r: CompareResult| r.identical;
    let other = |r: CompareResult| !r.identical;
    lemma_compare_rows(results, results.len());
    lemma_identical(results, results.len());
    assert(results.take(results.len() as int) =~= results);
    lemma_split(results, test, other);
    if forall|i: int| 0 <= i < results.len() ==> (#[trigger] results[i]).identical {
        assert forall|i: int| 0 <= i < results.len() implies test(#[trigger] results[i]) by {}
    } else {
        assert(!forall|i: int| 0 <= i < results.len() ==> test(#[trigger] results[i])) by {
            let i = choose|i: int| 0 <= i < results.len() && !(#[trigger] results[i]).identical;
            assert(!test(results[i]));
        }
    }
}

proof fn lemma_passed(results: Seq<VerifyResult>, n: nat)
    requires
        n <= results.len(),
    ensures
        passed_count(results, n) == how_many(results.take(n as int), |r: VerifyResult| r.passed),
    decreases n,
{
    reveal(Seq::filter);
    if n > 0 {
        lemma_passed(results, (n - 1) as nat);
        assert(results.take(n as int).drop_last() =~= results.take(n - 1));
        assert(results.take(n as int).last() == results[n - 1]);
    } else {
        assert(results.take(0) =~= Seq::empty());
    }
}

proof fn lemma_verify_rows(results: Seq<VerifyResult>, n: nat)
    requires
        n <= results.len(),
    ensures
        verify_rows(results, n).len() == 2 + 2 * n,
        verify_rows(results, n)[0] == verify_rows(results, 0)[0],
        forall|i: int|
            0 <= i < n ==> {
                let head = #[trigger] verify_rows(results, n)[2 + 2 * i];
                let below = verify_rows(results, n)[3 + 2 * i];
                &&& head.len() == 2
                &&& head[0].text == if results[i].passed { " ✓ "@ } else { " ✗ "@ }
                &&& head[1].text == name_or_path(results[i].path@)
                &&& below.len() == 2
                &&& below[1].text == results[i].detail@
            },
    decreases n,
{
    if n > 0 {
        lemma_verify_rows(results, (n - 1) as nat);
        let front = verify_rows(results, (n - 1) as nat);
        let all = verify_rows(results, n);
        assert forall|i: int| 0 <= i < n implies {
            let head = #[trigger] all[2 + 2 * i];
            let below = all[3 + 2 * i];
            &&& head.len() == 2
            &&& head[0].text == if results[i].passed { " ✓ "@ } else { " ✗ "@ }
            &&& head[1].text == name_or_path(results[i].path@)
            &&& below.len() == 2
            &&& below[1].text == results[i].detail@
        } by {
            if i < n - 1 {
                assert(all[2 + 2 * i] == front[2 + 2 * i]);
                assert(all[3 + 2 * i] == front[3 + 2 * i]);
            }
        }
    }
}

/// The dialog says how many files passed and, where any did not, how many failed; each file has
/// its own mark, name and finding.
pub proof fn verification_counts_every_file(results: Seq<VerifyResult>)
    ensures
        ({
            let rows = verify_rows(results, results.len());
            let passed = how_many(results, |r: VerifyResult| r.passed);
            let failed = how_many(results, |r: VerifyResult| !r.passed);
            &&& passed + failed == results.len()
            &&& rows.len() == 2 + 2 * results.len()
            &&& rows[0][1].text == decimal(passed) + " passed"@
            &&& (rows[0].len() == 2 <==> forall|i: int|
                0 <= i < results.len() ==> (#[trigger] results[i]).passed)
            &&& rows[0].len() != 2 ==> rows[0].len() == 4 && rows[0][3].text == decimal(failed)
                + " failed"@
            &&& forall|i: int|
                0 <= i < results.len() ==> {
                    let head = #[trigger] rows[2 + 2 * i];
                    let below = rows[3 + 2 * i];
                    &&& head[0].text == if results[i].passed { " ✓ "@ } else { " ✗ "@ }
                    &&& head[1].text == name_or_path(results[i].path@)
                    &&& below[1].text == results[i].detail@
                }
        }),
{
    let test = |r: VerifyResult| r.passed;
    let other = |r: VerifyResult| !r.passed;
    lemma_verify_rows(results, results.len());
    lemma_passed(results, results.len());
    assert(results.take(results.len() as int) =~= results);
    lemma_split(results, test, other);
    if forall|i: int| 0 <= i < results.len() ==> (#[trigger] results[i]).passed {
        assert forall|i: int| 0 <= i < results.len() implies test(#[trigger] results[i]) by {}
    } else {
        assert(!forall|i: int| 0 <= i < results.len() ==> test(#[trigger] results[i])) by {
            let i = choose|i: int| 0 <= i < results.len() && !(#[trigger] results[i]).passed;
            assert(!test(results[i]));
        }
    }
}

proof fn lemma_emphasis(results: Seq<PreemphasisResult>, confidence: PreemphasisConfidence, n: nat)
    requires
        n <= results.len(),
    ensures
        emphasis_count(results, confidence, n) == how_many(
            results.take(n as int),
            |r: PreemphasisResult| r.confidence == confidence,
        ),
    decreases n,
{
    reveal(Seq::filter);
    if n > 0 {
        lemma_emphasis(results, confidence, (n - 1) as nat);
        assert(results.take(n as int).drop_last() =~= results.take(n - 1));
        assert(results.take(n as int).last() == results[n - 1]);
    } else {
        assert(results.take(0) =~= Seq::empty());
    }
}

proof fn lemma_emphasis_rows(results: Seq<PreemphasisResult>, n: nat)
    requires
        n <= results.len(),
    ensures
        emphasis_result_rows(results, n).len() == 2 + 2 * n,
        emphasis_result_rows(results, n)[0] == emphasis_result_rows(results, 0)[0],
        forall|i: int|
            0 <= i < n ==> {
                let head = #[trigger] emphasis_result_rows(results, n)[2 + 2 * i];
                let below = emphasis_result_rows(results, n)[3 + 2 * i];
                &&& head.len() == 3
                &&& head[1].text == name_or_path(results[i].path@)
                &&& (results[i].confidence is Detected || results[i].confidence is StrongCandidate
                    ==> head[0].text == " ✓ "@ && head[2].text == "  "@ + "LIKELY"@)
                &&& (results[i].confidence is Possible ==> head[0].text == " ? "@ && head[2].text
                    == "  "@ + "possible"@)
                &&& (results[i].confidence is NotDetected ==> head[0].text == " · "@ && head[2].text
                    == ""@)
                &&& (results[i].confidence is Indeterminate ==> head[0].text == " - "@
                    && head[2].text == "  "@ + "indeterminate"@)
                &&& below.len() == 2
                &&& below[1].text == results[i].detail@
            },
    decreases n,
{
    if n > 0 {
        lemma_emphasis_rows(results, (n - 1) as nat);
        let front = emphasis_result_rows(results, (n - 1) as nat);
        let all = emphasis_result_rows(results, n);
        assert(forall|k: int| 0 <= k < front.len() ==> #[trigger] all[k] == front[k]);
        assert forall|i: int| 0 <= i < n - 1 implies #[trigger] all[2 + 2 * i] == front[2 + 2 * i]
            && all[3 + 2 * i] == front[3 + 2 * i] by {}
    }
}

/// The dialog counts sure and possible findings, and says that there are none only where there
/// are none of either; each file has its own mark, word and finding.
pub proof fn emphasis_counts_every_finding(results: Seq<PreemphasisResult>)
    ensures
        ({
            let rows = emphasis_result_rows(results, results.len());
            let sure = how_many(
                results,
                |r: PreemphasisResult| r.confidence == PreemphasisConfidence::Detected,
            );
            let possible = how_many(
                results,
                |r: PreemphasisResult| r.confidence == PreemphasisConfidence::Possible,
            );
            &&& rows.len() == 2 + 2 * results.len()
            &&& if sure + possible > 0 {
                rows[0].len() == 5 && rows[0][1].text == decimal(sure) + " detected"@
                    && rows[0][3].text == decimal(possible) + " possible"@ && rows[0][4].text
                    == "  ("@ + decimal(results.len()) + " total)"@
            } else {
                rows[0].len() == 2 && rows[0][1].text == "Not detected in "@ + decimal(
                    results.len(),
                ) + " file(s)"@
            }
            &&& forall|i: int|
                0 <= i < results.len() ==> {
                    let head = #[trigger] rows[2 + 2 * i];
                    let below = rows[3 + 2 * i];
                    &&& head[1].text == name_or_path(results[i].path@)
                    &&& (results[i].confidence is Detected
                        || results[i].confidence is StrongCandidate ==> head[0].text == " ✓ "@
                        && head[2].text == "  "@ + "LIKELY"@)
                    &&& (results[i].confidence is Possible ==> head[0].text == " ? "@
                        && head[2].text == "  "@ + "possible"@)
                    &&& (results[i].confidence is NotDetected ==> head[0].text == " · "@
                        && head[2].text == ""@)
                    &&& (results[i].confidence is Indeterminate ==> head[0].text == " - "@
                        && head[2].text == "  "@ + "indeterminate"@)
                    &&& below[1].text == results[i].detail@
                }
        }),
{
    lemma_emphasis_rows(results, results.len());
    lemma_emphasis(results, PreemphasisConfidence::Detected, results.len());
    lemma_emphasis(results, PreemphasisConfidence::Possible, results.len());
    assert(results.take(results.len() as int) =~= results);
}

/// A line that names a figure and gives its value.
pub open spec fn figure(line: LineV, name: Seq<char>, value: Seq<char>) -> bool {
    line.len() == 2 && name.is_prefix_of(line[0].text.skip(4)) && line[1].text == value
}

/// What an analysis says of a file: its name, then the figures that were measured, each under
/// its own name; figures that were not measured are left out.
pub proof fn analysis_gives_the_figures_of_the_file(found: AnalysisResult)
    ensures
        ({
            let rows = analysis_of(found);
            &&& rows.len() >= 7
            &&& rows[0][0].text == "  "@ + name_or_path(found.path@)
            &&& figure(
                rows[1],
                "Dynamic Range"@,
                "DR"@ + integer(found.dr_value as int) + " ("@ + found.dr_label@ + ")"@,
            )
            &&& figure(rows[2], "Sample Peak"@, found.peak_db@ + " dBFS"@)
            &&& figure(rows[3], "RMS Level"@, found.rms_db@ + " dBFS"@)
            &&& figure(
                rows[4],
                "Clipping"@,
                if found.clipping_count == 0 {
                    "None"@
                } else {
                    decimal(found.clipping_count as nat) + " samples"@
                },
            )
            &&& figure(
                rows[5],
                "DC Bias"@,
                found.dc_bias@ + if found.dc_bias_significant {
                    " (significant!)"@
                } else {
                    " (negligible)"@
                },
            )
            &&& (rows[6][1].style.fg == Tone::Amber <==> found.declared_bit_depth is Some
                && found.declared_bit_depth != Some(found.actual_bit_depth))
            &&& (found.declared_bit_depth is None || found.declared_bit_depth == Some(
                found.actual_bit_depth,
            ) ==> figure(rows[6], "Bit Depth"@, decimal(found.actual_bit_depth as nat) + "-bit"@))
            &&& (found.lufs matches Some(value) ==> figure(
                rows[7],
                "Loudness"@,
                value@ + " LUFS"@,
            ))
            &&& (found.true_peak_dbtp matches Some(value) ==> figure(
                rows[if found.lufs is Some { 8int } else { 7 }],
                "True Peak"@,
                value@ + " dBTP"@,
            ))
            &&& rows.len() == 7 + (if found.lufs is Some { 1int } else { 0 })
                + (if found.true_peak_dbtp is Some { 1int } else { 0 })
                + (if found.preemphasis matches Some(c) && (c is Detected || c is StrongCandidate
                || c is Possible) { 1int } else { 0 })
                + (if found.hdcd_detected == Some(true) && found.hdcd_detail is Some { 1int } else { 0 })
        }),
{
    lemma_figure("Dynamic Range"@);
    lemma_figure("Sample Peak"@);
    lemma_figure("RMS Level"@);
    lemma_figure("Clipping"@);
    lemma_figure("DC Bias"@);
    lemma_figure("Bit Depth"@);
    lemma_figure("Loudness"@);
    lemma_figure("True Peak"@);
}

proof fn lemma_figure(name: Seq<char>)
    ensures
        name.is_prefix_of(("    "@ + crate::text::left_aligned(name, 22)).skip(4)),
{
    reveal_strlit("    ");
    crate::laws::texts::padding_only_adds_spaces(name, 22);
    assert(("    "@ + crate::text::left_aligned(name, 22)).skip(4) =~= crate::text::left_aligned(
        name,
        22,
    ));
}

/// The row on which the analysis of file `i` starts.
pub open spec fn analysis_start(results: Seq<AnalysisResult>, i: nat) -> int
    decreases i,
{
    if i == 0 {
        0
    } else {
        analysis_start(results, (i - 1) as nat) + analysis_of(results[i - 1]).len() + 1
    }
}

proof fn lemma_analysis_rows(results: Seq<AnalysisResult>, n: nat)
    requires
        n <= results.len(),
    ensures
        n > 0 ==> analysis_rows(results, n).len() == analysis_start(results, n) - 1,
        n == 0 ==> analysis_rows(results, n).len() == 0,
        forall|i: int, k: int|
            0 <= i < n && 0 <= k < analysis_of(results[i]).len() ==> 0 <= analysis_start(
                results,
                i as nat,
            ) + k < analysis_rows(results, n).len() && analysis_rows(results, n)[#[trigger] (
            analysis_start(results, i as nat) + k)] == analysis_of(results[i])[k],
    decreases n,
{
    if n > 0 {
        lemma_analysis_rows(results, (n - 1) as nat);
        let front = analysis_rows(results, (n - 1) as nat);
        let all = analysis_rows(results, n);
        assert(analysis_start(results, 0) == 0);
        assert forall|i: int, k: int|
            0 <= i < n && 0 <= k < analysis_of(results[i]).len() implies 0 <= analysis_start(
            results,
            i as nat,
        ) + k < all.len() && all[#[trigger] (analysis_start(results, i as nat) + k)]
            == analysis_of(results[i])[k] by {
            if i < n - 1 {
                assert(all[analysis_start(results, i as nat) + k] == front[analysis_start(
                    results,
                    i as nat,
                ) + k]);
            }
        }
    }
}

/// The analyses of several files stand one below another, all of them and in their order.
pub proof fn every_file_has_its_analysis(results: Seq<AnalysisResult>, i: int, k: int)
    requires
        0 <= i < results.len(),
        0 <= k < analysis_of(results[i]).len(),
    ensures
        ({
            let rows = analysis_rows(results, results.len());
            let at = analysis_start(results, i as nat) + k;
            0 <= at < rows.len() && rows[at] == analysis_of(results[i])[k]
        }),
{
    lemma_analysis_rows(results, results.len());
    assert(analysis_start(results, i as nat) + k == analysis_start(results, i as nat) + k);
}

} // verus!
