//! Dialogs that show what a run over several files has found.

use crate::browse::PreemphasisConfidence;
use crate::geometry::{share, share_rect, Rect};
use crate::overlay_parts::{
    draw_results, footer_pill, footer_pill_span, one_pill, one_pill_line, pill_gap, pill_gap_span,
    shows_results,
};
use crate::path::{file_name_or_path, name_or_path};
use crate::scene::{line1, line2, line3, row_if, sp, Line, LineV, Rows, RowsV, Scene};
use crate::style::{bold_fg, fg, muted, plain, Tone};
use crate::text::{
    align_left, cat2, cat3, cat4, dec, dec_i32, dec_len, decimal, integer, left_aligned, owned, strip_prefix,
};
use vstd::prelude::*;

verus! {

/// What the analysis of one file found.
#[derive(Debug)]
pub struct AnalysisResult {
    pub path: String,
    pub dr_value: i32,
    /// The dynamic range in words.
    pub dr_label: String,
    /// Decibels below full scale, to one decimal.
    pub peak_db: String,
    pub rms_db: String,
    /// The same two levels to two decimals.
    pub peak_db_fine: String,
    pub rms_db_fine: String,
    /// The whole seconds of the duration.
    pub duration_secs: u64,
    pub sample_rate: u32,
    pub channels: u32,
    pub clipping_count: u64,
    /// To six decimals.
    pub dc_bias: String,
    /// Whether the bias is a thousandth of full scale or more.
    pub dc_bias_significant: bool,
    pub actual_bit_depth: u32,
    pub declared_bit_depth: Option<u32>,
    pub lufs: Option<String>,
    pub true_peak_dbtp: Option<String>,
    pub preemphasis: Option<PreemphasisConfidence>,
    pub preemphasis_detail: Option<String>,
    pub hdcd_detected: Option<bool>,
    pub hdcd_detail: Option<String>,
}

/// The colour of a dynamic range.
#[verifier::allow_in_spec]
pub fn dr_tone(dr: i32) -> Tone
    returns
        (if dr < 0 {
            Tone::Cyan
        } else if dr <= 3 {
            Tone::Red
        } else if dr <= 7 {
            Tone::Amber
        } else if dr <= 13 {
            Tone::Green
        } else {
            Tone::Cyan
        }),
{
    if dr < 0 {
        Tone::Cyan
    } else if dr <= 3 {
        Tone::Red
    } else if dr <= 7 {
        Tone::Amber
    } else if dr <= 13 {
        Tone::Green
    } else {
        Tone::Cyan
    }
}

/// A named figure.
pub open spec fn figure_row(label: Seq<char>, value: Seq<char>, tone: Tone) -> LineV {
    seq![sp("    "@ + left_aligned(label, 22), muted()), sp(value, fg(tone))]
}

fn figure_line(label: &str, value: &str, tone: Tone) -> (r: Line)
    ensures
        r@ == figure_row(label@, value@, tone),
{
    let shown = cat2("    ", align_left(label, 22).as_str());
    line2(shown.as_str(), muted(), value, fg(tone))
}

/// How many samples are clipped.
pub open spec fn clipping_text(count: nat) -> Seq<char> {
    if count == 0 {
        "None"@
    } else {
        decimal(count) + " samples"@
    }
}

/// The constant offset, and whether it matters.
pub open spec fn bias_text(bias: Seq<char>, significant: bool) -> Seq<char> {
    if significant {
        bias + " (significant!)"@
    } else {
        bias + " (negligible)"@
    }
}

/// Whether the file declares another bit depth than it has.
pub open spec fn depth_differs(actual: u32, declared: Option<u32>) -> bool {
    declared matches Some(d) && d != actual
}

/// The bit depth, with the declared one where it differs.
pub open spec fn depth_text(actual: u32, declared: Option<u32>) -> Seq<char> {
    let shown = decimal(actual as nat) + "-bit"@;
    match declared {
        Some(d) if d != actual => shown + " ("@ + decimal(d as nat) + " declared)"@,
        _ => shown,
    }
}

/// The figures that every analysis has.
pub open spec fn base_figures(found: AnalysisResult) -> RowsV {
    seq![
        figure_row(
            "Dynamic Range"@,
            "DR"@ + integer(found.dr_value as int) + " ("@ + found.dr_label@ + ")"@,
            dr_tone(found.dr_value),
        ),
        figure_row("Sample Peak"@, found.peak_db@ + " dBFS"@, Tone::TextBright),
        figure_row("RMS Level"@, found.rms_db@ + " dBFS"@, Tone::TextBright),
        figure_row(
            "Clipping"@,
            clipping_text(found.clipping_count as nat),
            if found.clipping_count == 0 {
                Tone::Green
            } else {
                Tone::Red
            },
        ),
        figure_row(
            "DC Bias"@,
            bias_text(found.dc_bias@, found.dc_bias_significant),
            if found.dc_bias_significant {
                Tone::Amber
            } else {
                Tone::TextMuted
            },
        ),
        figure_row(
            "Bit Depth"@,
            depth_text(found.actual_bit_depth, found.declared_bit_depth),
            if depth_differs(found.actual_bit_depth, found.declared_bit_depth) {
                Tone::Amber
            } else {
                Tone::TextBright
            },
        ),
    ]
}

fn base_figure_lines(found: &AnalysisResult) -> (r: Rows)
    ensures
        r@ == base_figures(*found),
{
    let mut rows = Rows::new();
    let range = crate::text::cat5(
        "DR",
        dec_i32(found.dr_value).as_str(),
        " (",
        found.dr_label.as_str(),
        ")",
    );
    rows.push(figure_line("Dynamic Range", range.as_str(), dr_tone(found.dr_value)));
    let peak = cat2(found.peak_db.as_str(), " dBFS");
    rows.push(figure_line("Sample Peak", peak.as_str(), Tone::TextBright));
    let rms = cat2(found.rms_db.as_str(), " dBFS");
    rows.push(figure_line("RMS Level", rms.as_str(), Tone::TextBright));
    if found.clipping_count == 0 {
        rows.push(figure_line("Clipping", "None", Tone::Green));
    } else {
        let clipped = cat2(dec(found.clipping_count).as_str(), " samples");
        rows.push(figure_line("Clipping", clipped.as_str(), Tone::Red));
    }
    if found.dc_bias_significant {
        let bias = cat2(found.dc_bias.as_str(), " (significant!)");
        rows.push(figure_line("DC Bias", bias.as_str(), Tone::Amber));
    } else {
        let bias = cat2(found.dc_bias.as_str(), " (negligible)");
        rows.push(figure_line("DC Bias", bias.as_str(), Tone::TextMuted));
    }
    let depth = cat2(dec(found.actual_bit_depth as u64).as_str(), "-bit");
    match found.declared_bit_depth {
        Some(d) if d != found.actual_bit_depth => {
            let both = cat4(depth.as_str(), " (", dec(d as u64).as_str(), " declared)");
            rows.push(figure_line("Bit Depth", both.as_str(), Tone::Amber));
        },
        _ => {
            rows.push(figure_line("Bit Depth", depth.as_str(), Tone::TextBright));
        },
    }
    rows
}

/// Pre-emphasis in a word, where there is evidence of it.
pub open spec fn emphasis_word(confidence: Option<PreemphasisConfidence>) -> Option<Seq<char>> {
    match confidence {
        Some(PreemphasisConfidence::Detected) => Some("Likely"@),
        Some(PreemphasisConfidence::StrongCandidate) => Some("Likely"@),
        Some(PreemphasisConfidence::Possible) => Some("Possible"@),
        _ => None,
    }
}

/// Evidence of pre-emphasis: the word, with the detail behind it.
pub open spec fn emphasis_text(word: Seq<char>, detail: Option<String>) -> Seq<char> {
    match detail {
        Some(detail) if detail@.len() > 0 => word + " — "@ + detail@,
        _ => word,
    }
}

/// The figure for pre-emphasis, where there is evidence of it.
pub open spec fn emphasis_rows(found: AnalysisResult) -> RowsV {
    match emphasis_word(found.preemphasis) {
        Some(word) => seq![
            figure_row(
                "Pre-emphasis"@,
                emphasis_text(word, found.preemphasis_detail),
                Tone::Amber,
            ),
        ],
        None => Seq::empty(),
    }
}

fn emphasis_lines(found: &AnalysisResult) -> (r: Rows)
    ensures
        r@ == emphasis_rows(*found),
{
    let word = match found.preemphasis {
        Some(PreemphasisConfidence::Detected) => "Likely",
        Some(PreemphasisConfidence::StrongCandidate) => "Likely",
        Some(PreemphasisConfidence::Possible) => "Possible",
        _ => {
            return Rows::new();
        },
    };
    let value = match &found.preemphasis_detail {
        Some(detail) if !detail.as_str().is_empty() => cat3(word, " — ", detail.as_str()),
        _ => owned(word),
    };
    let rows = Rows::of(figure_line("Pre-emphasis", value.as_str(), Tone::Amber));
    proof {
        assert(rows@ =~= emphasis_rows(*found));
    }
    rows
}

/// A loudness figure, where it was measured.
pub open spec fn measured_rows(label: Seq<char>, value: Option<String>, unit: Seq<char>) -> RowsV {
    match value {
        Some(value) => seq![figure_row(label, value@ + unit, Tone::TextBright)],
        None => Seq::empty(),
    }
}

fn measured_lines(label: &str, value: &Option<String>, unit: &str) -> (r: Rows)
    ensures
        r@ == measured_rows(label@, *value, unit@),
{
    match value {
        Some(value) => {
            let shown = cat2(value.as_str(), unit);
            Rows::of(figure_line(label, shown.as_str(), Tone::TextBright))
        },
        None => Rows::new(),
    }
}

/// An HDCD finding, the word itself in gold.
pub open spec fn hdcd_row(detail: Seq<char>) -> LineV {
    let label = sp("    "@ + left_aligned("HDCD"@, 22), muted());
    match crate::text::after_prefix(detail, "HDCD"@) {
        Some(rest) => seq![
            label,
            sp("HDCD"@, bold_fg(Tone::Amber)),
            sp(rest, fg(Tone::TextBright)),
        ],
        None => seq![label, sp(detail, fg(Tone::TextBright))],
    }
}

/// The HDCD finding, where there is one with words for it.
pub open spec fn hdcd_rows(found: AnalysisResult) -> RowsV {
    match (found.hdcd_detected, found.hdcd_detail) {
        (Some(true), Some(detail)) => seq![hdcd_row(detail@)],
        _ => Seq::empty(),
    }
}

fn hdcd_lines(found: &AnalysisResult) -> (r: Rows)
    ensures
        r@ == hdcd_rows(*found),
{
    match (&found.hdcd_detected, &found.hdcd_detail) {
        (Some(true), Some(detail)) => {
            let label = cat2("    ", align_left("HDCD", 22).as_str());
            let mut line = line1(label.as_str(), muted());
            match strip_prefix(detail.as_str(), "HDCD") {
                Some(rest) => {
                    line.put("HDCD", bold_fg(Tone::Amber));
                    line.put(rest.as_str(), fg(Tone::TextBright));
                },
                None => {
                    line.put(detail.as_str(), fg(Tone::TextBright));
                },
            }
            proof {
                assert(line@ =~= hdcd_row(detail@));
            }
            Rows::of(line)
        },
        _ => Rows::new(),
    }
}

/// The analysis of one file.
pub open spec fn analysis_of(found: AnalysisResult) -> RowsV {
    seq![seq![sp("  "@ + name_or_path(found.path@), bold_fg(Tone::Amber))]] + base_figures(found)
        + measured_rows("Loudness"@, found.lufs, " LUFS"@) + measured_rows(
        "True Peak"@,
        found.true_peak_dbtp,
        " dBTP"@,
    ) + emphasis_rows(found) + hdcd_rows(found)
}

fn analysis_lines_of(found: &AnalysisResult) -> (r: Rows)
    ensures
        r@ == analysis_of(*found),
{
    let name = cat2("  ", file_name_or_path(found.path.as_str()).as_str());
    let mut rows = Rows::of(line1(name.as_str(), bold_fg(Tone::Amber)));
    rows.append(base_figure_lines(found));
    rows.append(measured_lines("Loudness", &found.lufs, " LUFS"));
    rows.append(measured_lines("True Peak", &found.true_peak_dbtp, " dBTP"));
    rows.append(emphasis_lines(found));
    rows.append(hdcd_lines(found));
    rows
}

/// The analyses of the first `n` files, with an empty row between two.
pub open spec fn analysis_rows(results: Seq<AnalysisResult>, n: nat) -> RowsV
    decreases n,
{
    if n == 0 || n > results.len() {
        Seq::empty()
    } else {
        analysis_rows(results, (n - 1) as nat) + row_if(n > 1, Seq::empty()) + analysis_of(
            results[n - 1],
        )
    }
}

fn analysis_lines(results: &Vec<AnalysisResult>) -> (r: Rows)
    ensures
        r@ == analysis_rows(results@, results@.len()),
{
    let mut rows = Rows::new();
    for i in 0..results.len()
        invariant
            rows@ == analysis_rows(results@, i as nat),
    {
        rows.push_if(i > 0, Line::new());
        rows.append(analysis_lines_of(&results[i]));
    }
    rows
}

/// The key hints of the analysis.
pub open spec fn analysis_footer() -> LineV {
    seq![
        footer_pill_span(":analyze!"@, Tone::Amber),
        pill_gap_span(),
        footer_pill_span(":write-dr"@, Tone::Blue),
        pill_gap_span(),
        footer_pill_span(":write-rg-track"@, Tone::Green),
        pill_gap_span(),
        footer_pill_span(":write-rg-album"@, Tone::Green),
        pill_gap_span(),
        footer_pill_span("Esc close"@, Tone::Purple),
    ]
}

fn analysis_footer_line() -> (r: Line)
    ensures
        r@ == analysis_footer(),
{
    let mut line = Line::new();
    line.push(footer_pill(":analyze!", Tone::Amber));
    line.push(pill_gap());
    line.push(footer_pill(":write-dr", Tone::Blue));
    line.push(pill_gap());
    line.push(footer_pill(":write-rg-track", Tone::Green));
    line.push(pill_gap());
    line.push(footer_pill(":write-rg-album", Tone::Green));
    line.push(pill_gap());
    line.push(footer_pill("Esc close", Tone::Purple));
    line
}

/// What the analysis found, by file.
pub fn draw_analysis(size: Rect, results: &Vec<AnalysisResult>, scroll: usize) -> (r: Scene)
    ensures
        shows_results(
            results@.len() > 0,
            share(size.width as int, size.height as int, 80, 50, 80, 12),
            " Analysis Results "@,
            Tone::Purple,
            analysis_rows(results@, results@.len()),
            scroll as int,
            analysis_footer(),
            r@,
        ),
{
    let popup = share_rect(size.width, size.height, 80, 50, 80, 12);
    let rows = analysis_lines(results);
    draw_results(
        results.len() > 0,
        popup,
        " Analysis Results ",
        Tone::Purple,
        &rows,
        scroll,
        analysis_footer_line(),
    )
}

/// A bold mark before a finding.
pub open spec fn mark(text: Seq<char>, tone: Tone) -> crate::scene::SpanV {
    sp(text, bold_fg(tone))
}

/// The mark for a test that was passed or not.
pub open spec fn pass_mark(passed: bool) -> crate::scene::SpanV {
    if passed {
        mark(" ✓ "@, Tone::Green)
    } else {
        mark(" ✗ "@, Tone::Red)
    }
}

fn pass_mark_line(passed: bool) -> (r: Line)
    ensures
        r@ == seq![pass_mark(passed)],
{
    if passed {
        line1(" ✓ ", bold_fg(Tone::Green))
    } else {
        line1(" ✗ ", bold_fg(Tone::Red))
    }
}

/// Whether a file could be decoded to its end.
#[derive(Debug)]
pub struct VerifyResult {
    pub path: String,
    pub passed: bool,
    pub detail: String,
}

/// How many of the first `n` files passed.
pub open spec fn passed_count(results: Seq<VerifyResult>, n: nat) -> nat
    decreases n,
{
    if n == 0 || n > results.len() {
        0
    } else {
        passed_count(results, (n - 1) as nat) + if results[n - 1].passed {
            1nat
        } else {
            0
        }
    }
}

fn count_passed(results: &Vec<VerifyResult>) -> (r: usize)
    ensures
        r == passed_count(results@, results@.len()),
        r <= results@.len(),
{
    let mut passed: usize = 0;
    for i in 0..results.len()
        invariant
            passed == passed_count(results@, i as nat),
            passed <= i,
    {
        if results[i].passed {
            passed = passed + 1;
        }
    }
    passed
}

/// How many files passed and how many failed.
pub open spec fn verify_summary(passed: nat, failed: nat) -> LineV {
    if failed == 0 {
        seq![sp("  "@, plain()), sp(decimal(passed) + " passed"@, bold_fg(Tone::Green))]
    } else {
        seq![
            sp("  "@, plain()),
            sp(decimal(passed) + " passed"@, fg(Tone::Green)),
            sp(", "@, muted()),
            sp(decimal(failed) + " failed"@, bold_fg(Tone::Red)),
        ]
    }
}

fn verify_summary_line(passed: usize, failed: usize) -> (r: Line)
    ensures
        r@ == verify_summary(passed as nat, failed as nat),
{
    let good = cat2(dec_len(passed).as_str(), " passed");
    if failed == 0 {
        line2("  ", plain(), good.as_str(), bold_fg(Tone::Green))
    } else {
        let bad = cat2(dec_len(failed).as_str(), " failed");
        let mut line = line3("  ", plain(), good.as_str(), fg(Tone::Green), ", ", muted());
        line.put(bad.as_str(), bold_fg(Tone::Red));
        line
    }
}

/// Whether one file passed, in two rows.
pub open spec fn verify_pair(found: VerifyResult) -> RowsV {
    seq![
        seq![pass_mark(found.passed), sp(name_or_path(found.path@), fg(Tone::TextBright))],
        seq![sp("   "@, plain()), sp(found.detail@, fg(Tone::TextDim))],
    ]
}

/// The summary and the first `n` files.
pub open spec fn verify_rows(results: Seq<VerifyResult>, n: nat) -> RowsV
    decreases n,
{
    if n == 0 || n > results.len() {
        let passed = passed_count(results, results.len());
        seq![verify_summary(passed, (results.len() - passed) as nat), Seq::empty()]
    } else {
        verify_rows(results, (n - 1) as nat) + verify_pair(results[n - 1])
    }
}

fn verify_pair_lines(found: &VerifyResult) -> (r: Rows)
    ensures
        r@ == verify_pair(*found),
{
    let name = file_name_or_path(found.path.as_str());
    let mut line = pass_mark_line(found.passed);
    line.put(name.as_str(), fg(Tone::TextBright));
    let mut rows = Rows::of(line);
    rows.push(line2("   ", plain(), found.detail.as_str(), fg(Tone::TextDim)));
    proof {
        assert(rows@ =~~= verify_pair(*found));
    }
    rows
}

fn verify_lines(results: &Vec<VerifyResult>) -> (r: Rows)
    ensures
        r@ == verify_rows(results@, results@.len()),
{
    let passed: usize = count_passed(results);
    let mut rows = Rows::of(verify_summary_line(passed, results.len() - passed));
    rows.push(Line::new());
    for i in 0..results.len()
        invariant
            rows@ == verify_rows(results@, i as nat),
    {
        rows.append(verify_pair_lines(&results[i]));
    }
    rows
}

/// Which files could be decoded to their end.
pub fn draw_verify(size: Rect, results: &Vec<VerifyResult>, scroll: usize) -> (r: Scene)
    ensures
        shows_results(
            results@.len() > 0,
            share(size.width as int, size.height as int, 70, 40, 70, 10),
            " Verify Results "@,
            Tone::Green,
            verify_rows(results@, results@.len()),
            scroll as int,
            one_pill("Esc close"@, Tone::Green),
            r@,
        ),
{
    let popup = share_rect(size.width, size.height, 70, 40, 70, 10);
    let rows = verify_lines(results);
    let footer = one_pill_line("Esc close", Tone::Green);
    draw_results(results.len() > 0, popup, " Verify Results ", Tone::Green, &rows, scroll, footer)
}

/// How two files compare, bit for bit.
#[derive(Debug)]
pub struct CompareResult {
    pub ref_path: String,
    pub target_path: String,
    pub identical: bool,
    pub detail: String,
}

/// How many of the first `n` pairs are identical.
pub open spec fn identical_count(results: Seq<CompareResult>, n: nat) -> nat
    decreases n,
{
    if n == 0 || n > results.len() {
        0
    } else {
        identical_count(results, (n - 1) as nat) + if results[n - 1].identical {
            1nat
        } else {
            0
        }
    }
}

fn count_identical(results: &Vec<CompareResult>) -> (r: usize)
    ensures
        r == identical_count(results@, results@.len()),
        r <= results@.len(),
{
    let mut identical: usize = 0;
    for i in 0..results.len()
        invariant
            identical == identical_count(results@, i as nat),
            identical <= i,
    {
        if results[i].identical {
            identical = identical + 1;
        }
    }
    identical
}

/// How many pairs are identical and how many differ.
pub open spec fn compare_summary(identical: nat, differ: nat) -> LineV {
    if differ == 0 {
        seq![
            sp("  "@, plain()),
            sp(decimal(identical) + " pair(s): all bit-identical"@, bold_fg(Tone::Green)),
        ]
    } else {
        seq![
            sp("  "@, plain()),
            sp(decimal(identical) + " identical"@, fg(Tone::Green)),
            sp(", "@, muted()),
            sp(decimal(differ) + " differ"@, bold_fg(Tone::Red)),
        ]
    }
}

fn compare_summary_line(identical: usize, differ: usize) -> (r: Line)
    ensures
        r@ == compare_summary(identical as nat, differ as nat),
{
    let number = dec_len(identical);
    if differ == 0 {
        let all = cat2(number.as_str(), " pair(s): all bit-identical");
        line2("  ", plain(), all.as_str(), bold_fg(Tone::Green))
    } else {
        let good = cat2(number.as_str(), " identical");
        let bad = cat2(dec_len(differ).as_str(), " differ");
        let mut line = line3("  ", plain(), good.as_str(), fg(Tone::Green), ", ", muted());
        line.put(bad.as_str(), bold_fg(Tone::Red));
        line
    }
}

/// How one pair compares, in two rows.
pub open spec fn compare_pair(found: CompareResult) -> RowsV {
    seq![
        seq![
            pass_mark(found.identical),
            sp(name_or_path(found.ref_path@), fg(Tone::TextBright)),
            sp("  vs  "@, muted()),
            sp(name_or_path(found.target_path@), fg(Tone::TextBright)),
        ],
        seq![
            sp("   "@, plain()),
            sp(
                found.detail@,
                fg(
                    if found.identical {
                        Tone::TextDim
                    } else {
                        Tone::Red
                    },
                ),
            ),
        ],
    ]
}

fn compare_pair_lines(found: &CompareResult) -> (r: Rows)
    ensures
        r@ == compare_pair(*found),
{
    let mut line = pass_mark_line(found.identical);
    line.put(file_name_or_path(found.ref_path.as_str()).as_str(), fg(Tone::TextBright));
    line.put("  vs  ", muted());
    line.put(file_name_or_path(found.target_path.as_str()).as_str(), fg(Tone::TextBright));
    let mut rows = Rows::of(line);
    let tone = if found.identical {
        Tone::TextDim
    } else {
        Tone::Red
    };
    rows.push(line2("   ", plain(), found.detail.as_str(), fg(tone)));
    proof {
        assert(rows@ =~~= compare_pair(*found));
    }
    rows
}

/// The summary and the first `n` pairs.
pub open spec fn compare_rows(results: Seq<CompareResult>, n: nat) -> RowsV
    decreases n,
{
    if n == 0 || n > results.len() {
        let identical = identical_count(results, results.len());
        seq![compare_summary(identical, (results.len() - identical) as nat), Seq::empty()]
    } else {
        compare_rows(results, (n - 1) as nat) + compare_pair(results[n - 1])
    }
}

fn compare_lines(results: &Vec<CompareResult>) -> (r: Rows)
    ensures
        r@ == compare_rows(results@, results@.len()),
{
    let identical: usize = count_identical(results);
    let mut rows = Rows::of(compare_summary_line(identical, results.len() - identical));
    rows.push(Line::new());
    for i in 0..results.len()
        invariant
            rows@ == compare_rows(results@, i as nat),
    {
        rows.append(compare_pair_lines(&results[i]));
    }
    rows
}

/// Which pairs of files hold the same audio, bit for bit.
pub fn draw_bit_compare(size: Rect, results: &Vec<CompareResult>, scroll: usize) -> (r: Scene)
    ensures
        shows_results(
            results@.len() > 0,
            share(size.width as int, size.height as int, 75, 50, 70, 10),
            " Bit Compare Results "@,
            Tone::Cyan,
            compare_rows(results@, results@.len()),
            scroll as int,
            one_pill("Esc close"@, Tone::Cyan),
            r@,
        ),
{
    let popup = share_rect(size.width, size.height, 75, 50, 70, 10);
    let rows = compare_lines(results);
    let footer = one_pill_line("Esc close", Tone::Cyan);
    draw_results(
        results.len() > 0,
        popup,
        " Bit Compare Results ",
        Tone::Cyan,
        &rows,
        scroll,
        footer,
    )
}

/// Whether a file was mastered with pre-emphasis.
#[derive(Debug)]
pub struct PreemphasisResult {
    pub path: String,
    pub confidence: PreemphasisConfidence,
    pub detail: String,
}

/// How many of the first `n` findings are as sure as `confidence`.
pub open spec fn emphasis_count(
    results: Seq<PreemphasisResult>,
    confidence: PreemphasisConfidence,
    n: nat,
) -> nat
    decreases n,
{
    if n == 0 || n > results.len() {
        0
    } else {
        emphasis_count(results, confidence, (n - 1) as nat) + if results[n - 1].confidence
            == confidence {
            1nat
        } else {
            0
        }
    }
}

fn count_emphasis(results: &Vec<PreemphasisResult>, confidence: PreemphasisConfidence) -> (r: usize)
    ensures
        r == emphasis_count(results@, confidence, results@.len()),
{
    let mut found: usize = 0;
    for i in 0..results.len()
        invariant
            found == emphasis_count(results@, confidence, i as nat),
            found <= i,
    {
        if results[i].confidence == confidence {
            found = found + 1;
        }
    }
    found
}

/// How many findings there are of either kind.
pub open spec fn emphasis_summary(detected: nat, possible: nat, total: nat) -> LineV {
    if detected > 0 || possible > 0 {
        seq![
            sp("  "@, plain()),
            sp(decimal(detected) + " detected"@, bold_fg(Tone::Red)),
            sp(", "@, muted()),
            sp(decimal(possible) + " possible"@, fg(Tone::Amber)),
            sp("  ("@ + decimal(total) + " total)"@, muted()),
        ]
    } else {
        seq![
            sp("  "@, plain()),
            sp("Not detected in "@ + decimal(total) + " file(s)"@, fg(Tone::Green)),
        ]
    }
}

fn emphasis_summary_line(detected: usize, possible: usize, total: usize) -> (r: Line)
    ensures
        r@ == emphasis_summary(detected as nat, possible as nat, total as nat),
{
    let number = dec_len(total);
    if detected > 0 || possible > 0 {
        let sure = cat2(dec_len(detected).as_str(), " detected");
        let maybe = cat2(dec_len(possible).as_str(), " possible");
        let all = cat3("  (", number.as_str(), " total)");
        let mut line = line3("  ", plain(), sure.as_str(), bold_fg(Tone::Red), ", ", muted());
        line.put(maybe.as_str(), fg(Tone::Amber));
        line.put(all.as_str(), muted());
        line
    } else {
        let all = cat3("Not detected in ", number.as_str(), " file(s)");
        line2("  ", plain(), all.as_str(), fg(Tone::Green))
    }
}

/// The mark of a finding, its colour and the word behind the name.
pub open spec fn emphasis_mark(confidence: PreemphasisConfidence) -> (Seq<char>, Tone, Seq<char>) {
    match confidence {
        PreemphasisConfidence::Detected => (" ✓ "@, Tone::Amber, "LIKELY"@),
        PreemphasisConfidence::StrongCandidate => (" ✓ "@, Tone::Amber, "LIKELY"@),
        PreemphasisConfidence::Possible => (" ? "@, Tone::Amber, "possible"@),
        PreemphasisConfidence::NotDetected => (" · "@, Tone::TextDim, ""@),
        PreemphasisConfidence::Indeterminate => (" - "@, Tone::TextDim, "indeterminate"@),
    }
}

/// One finding, in two rows.
pub open spec fn emphasis_pair(found: PreemphasisResult) -> RowsV {
    let (icon, tone, word) = emphasis_mark(found.confidence);
    seq![
        seq![
            mark(icon, tone),
            sp(name_or_path(found.path@), fg(Tone::TextBright)),
            if found.confidence == PreemphasisConfidence::NotDetected {
                sp(""@, plain())
            } else {
                sp("  "@ + word, fg(tone))
            },
        ],
        seq![sp("   "@, plain()), sp(found.detail@, fg(Tone::TextDim))],
    ]
}

fn emphasis_pair_lines(found: &PreemphasisResult) -> (r: Rows)
    ensures
        r@ == emphasis_pair(*found),
{
    let (icon, tone, word) = match found.confidence {
        PreemphasisConfidence::Detected => (" ✓ ", Tone::Amber, "LIKELY"),
        PreemphasisConfidence::StrongCandidate => (" ✓ ", Tone::Amber, "LIKELY"),
        PreemphasisConfidence::Possible => (" ? ", Tone::Amber, "possible"),
        PreemphasisConfidence::NotDetected => (" · ", Tone::TextDim, ""),
        PreemphasisConfidence::Indeterminate => (" - ", Tone::TextDim, "indeterminate"),
    };
    let mut line = line1(icon, bold_fg(tone));
    line.put(file_name_or_path(found.path.as_str()).as_str(), fg(Tone::TextBright));
    if found.confidence == PreemphasisConfidence::NotDetected {
        line.put("", plain());
    } else {
        line.put(cat2("  ", word).as_str(), fg(tone));
    }
    let mut rows = Rows::of(line);
    rows.push(line2("   ", plain(), found.detail.as_str(), fg(Tone::TextDim)));
    proof {
        assert(rows@ =~~= emphasis_pair(*found));
    }
    rows
}

/// The summary and the first `n` findings.
pub open spec fn emphasis_result_rows(results: Seq<PreemphasisResult>, n: nat) -> RowsV
    decreases n,
{
    if n == 0 || n > results.len() {
        seq![
            emphasis_summary(
                emphasis_count(results, PreemphasisConfidence::Detected, results.len()),
                emphasis_count(results, PreemphasisConfidence::Possible, results.len()),
                results.len(),
            ),
            Seq::empty(),
        ]
    } else {
        emphasis_result_rows(results, (n - 1) as nat) + emphasis_pair(results[n - 1])
    }
}

fn emphasis_result_lines(results: &Vec<PreemphasisResult>) -> (r: Rows)
    ensures
        r@ == emphasis_result_rows(results@, results@.len()),
{
    let detected: usize = count_emphasis(results, PreemphasisConfidence::Detected);
    let possible: usize = count_emphasis(results, PreemphasisConfidence::Possible);
    let mut rows = Rows::of(emphasis_summary_line(detected, possible, results.len()));
    rows.push(Line::new());
    for i in 0..results.len()
        invariant
            rows@ == emphasis_result_rows(results@, i as nat),
    {
        rows.append(emphasis_pair_lines(&results[i]));
    }
    rows
}

/// Which files were mastered with pre-emphasis.
pub fn draw_preemphasis(size: Rect, results: &Vec<PreemphasisResult>, scroll: usize) -> (r: Scene)
    ensures
        shows_results(
            results@.len() > 0,
            share(size.width as int, size.height as int, 75, 50, 70, 10),
            " Pre-emphasis Detection "@,
            Tone::Purple,
            emphasis_result_rows(results@, results@.len()),
            scroll as int,
            one_pill("Esc close"@, Tone::Purple),
            r@,
        ),
{
    let popup = share_rect(size.width, size.height, 75, 50, 70, 10);
    let rows = emphasis_result_lines(results);
    let footer = one_pill_line("Esc close", Tone::Purple);
    draw_results(
        results.len() > 0,
        popup,
        " Pre-emphasis Detection ",
        Tone::Purple,
        &rows,
        scroll,
        footer,
    )
}

} // verus!
