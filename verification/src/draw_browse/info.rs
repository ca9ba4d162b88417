//! The info pane: details of the selected entry.

use crate::browse::{
    archive_index, find_archive_entry, is_listed, listed, BrowseDirectorySummaryColdWorkPolicy,
    BrowseEntry, BrowseFacts, BrowseInfoFocus, BrowseInlineEditState, BrowseInlineEditTarget,
    CachedInfo, EntryKind, FolderAudioSummary, FolderClassificationKind,
    FolderContentClassification, FolderUnitSummary, PreemphasisAdvisory, PreemphasisConfidence,
    SourceInfo, SourceMetadata,
};
use crate::button_map::{hit_if, ButtonRenderMap, Hit, MetadataField, TuiButton};
use crate::disc::{
    contents_if_current, error_if_current, known_contents, known_error, DiscContents,
};
use crate::display_width::{shown_width, truncate_right, truncated_right, width};
use crate::geometry::{plus16, Rect};
use crate::inline_edit::{
    editing_spans, inline_cursor_col, render_inline_value_with_embedded_cursor, TextInputState,
};
use crate::panes::{bottom_edge, bottom_line, framed, framed_lines, title_bar, title_bar_line};
use crate::scene::{
    line1, line2, line3, row_if, sp, text_op, Line, LineV, OpV, Rows, RowsV, Scene, SceneV,
};
use crate::size::{size_str, size_text};
use crate::style::{bold, bold_fg, bright, dimmed, fg, muted, on, plain, text_style, Style, Tone};
use crate::text::{
    after_prefix, align_left, blanks, cat2, cat3, cat4, dec_len, decimal, joined, least,
    left_aligned, low16, minus, to_u16, owned, part_if, plus, same_but_case, same_ignoring_case,
    spaces, strip_prefix, trim, trimmed, Texts, same,
};
use vstd::prelude::*;

verus! {

/// The lines of the info pane, and where its clickable parts are among them.
#[derive(Debug)]
pub struct InfoContent {
    pub lines: Rows,
    /// The line of each clickable metadata field. Absent fields with a
    /// placeholder count too.
    pub meta_field_rows: Vec<(MetadataField, usize)>,
    pub analyze_pill_row: Option<usize>,
    pub edit_tags_pill_row: Option<usize>,
    pub audio_streams_pill_row: Option<usize>,
    /// Line and column of the cursor of an open metadata editor.
    pub inline_cursor: Option<(usize, u16)>,
}

/// The contents of an [`InfoContent`].
pub struct InfoContentV {
    pub lines: RowsV,
    pub meta_field_rows: Seq<(MetadataField, usize)>,
    pub analyze_pill_row: Option<usize>,
    pub edit_tags_pill_row: Option<usize>,
    pub audio_streams_pill_row: Option<usize>,
    pub inline_cursor: Option<(usize, u16)>,
}

impl View for InfoContent {
    type V = InfoContentV;

    open spec fn view(&self) -> InfoContentV {
        InfoContentV {
            lines: self.lines@,
            meta_field_rows: self.meta_field_rows@,
            analyze_pill_row: self.analyze_pill_row,
            edit_tags_pill_row: self.edit_tags_pill_row,
            audio_streams_pill_row: self.audio_streams_pill_row,
            inline_cursor: self.inline_cursor,
        }
    }
}

/// A label and a value.
pub open spec fn labelled(label: Seq<char>, value: Seq<char>, style: Style) -> LineV {
    seq![sp(label, muted()), sp(value, style)]
}

/// An indented value.
pub open spec fn indented(value: Seq<char>, style: Style) -> LineV {
    seq![sp("   "@, plain()), sp(value, style)]
}

/// A label without a trailing space, and a value.
pub open spec fn spaced(label: Seq<char>, value: Seq<char>, style: Style) -> LineV {
    seq![sp(label, muted()), sp(" "@, plain()), sp(value, style)]
}

fn labelled_line(label: &str, value: &str, style: Style) -> (r: Line)
    ensures
        r@ == labelled(label@, value@, style),
{
    line2(label, muted(), value, style)
}

fn indented_line(value: &str, style: Style) -> (r: Line)
    ensures
        r@ == indented(value@, style),
{
    line2("   ", plain(), value, style)
}

fn spaced_line(label: &str, value: &str, style: Style) -> (r: Line)
    ensures
        r@ == spaced(label@, value@, style),
{
    line3(label, muted(), " ", plain(), value, style)
}

/// A value with a label in a column of eight.
pub open spec fn key_value(key: Seq<char>, value: Seq<char>, key_style: Style, value_style: Style) -> LineV {
    seq![sp("   "@ + left_aligned(key, 8), key_style), sp(value, value_style)]
}

/// Adds a value with a label in a column of eight.
pub fn push_key_value_line(
    lines: &mut Rows,
    key: &str,
    value: &str,
    key_style: Style,
    value_style: Style,
)
    ensures
        final(lines)@ == old(lines)@.push(key_value(key@, value@, key_style, value_style)),
{
    let label = cat2("   ", align_left(key, 8).as_str());
    lines.push(line2(label.as_str(), key_style, value, value_style));
}

/// A directory figure with a label in a column of twelve.
pub open spec fn metric(key: Seq<char>, value: Seq<char>) -> LineV {
    seq![sp("   "@ + left_aligned(key, 12), muted()), sp(value, text_style())]
}

/// Adds a directory figure with a label in a column of twelve.
pub fn push_directory_metric_line(lines: &mut Rows, key: &str, value: &str)
    ensures
        final(lines)@ == old(lines)@.push(metric(key@, value@)),
{
    let label = cat2("   ", align_left(key, 12).as_str());
    lines.push(line2(label.as_str(), muted(), value, text_style()));
}

/// A number of things.
pub open spec fn counted(count: nat, singular: Seq<char>, plural: Seq<char>) -> Seq<char> {
    decimal(count) + " "@ + (if count == 1 { singular } else { plural })
}

/// A number of things in words.
pub fn directory_count_label(count: usize, singular: &str, plural: &str) -> (r: String)
    ensures
        r@ == counted(count as nat, singular@, plural@),
{
    let word = if count == 1 { singular } else { plural };
    cat3(dec_len(count).as_str(), " ", word)
}

/// `label` with a size behind it, unless the size is zero.
pub open spec fn with_size(label: Seq<char>, size: nat) -> Seq<char> {
    if size > 0 {
        label + (" ("@ + size_text(size) + ")"@)
    } else {
        label
    }
}

/// `label` with a size behind it, unless the size is zero.
pub fn append_size_label(label: String, size: u64) -> (r: String)
    ensures
        r@ == with_size(label@, size as nat),
{
    if size > 0 {
        let tail = cat3(" (", size_str(size).as_str(), ")");
        cat2(label.as_str(), tail.as_str())
    } else {
        label
    }
}

/// The figures of a directory; or that they are being computed; or nothing.
pub open spec fn directory_stats_rows(facts: BrowseFacts, path: Seq<char>, date: Seq<char>) -> RowsV {
    match facts.dir_stats {
        Some(stats) => {
            let three = seq![
                metric("folders"@, counted(stats.folder_count as nat, "folder"@, "folders"@)),
                metric(
                    "files"@,
                    with_size(
                        counted(stats.file_count as nat, "file"@, "files"@),
                        stats.total_size as nat,
                    ),
                ),
                metric(
                    "audio files"@,
                    with_size(
                        counted(stats.audio_count as nat, "audio file"@, "audio files"@),
                        stats.audio_size as nat,
                    ),
                ),
            ];
            if date.len() > 0 {
                three.push(metric("updated"@, date))
            } else {
                three
            }
        },
        None => row_if(
            listed(facts.dir_stats_pending@, path),
            labelled("   files       "@, "computing..."@, dimmed()),
        ),
    }
}

/// Adds the figures of a directory, where they are known or being computed; whether
/// anything was added.
pub fn push_directory_stats_lines(lines: &mut Rows, facts: &BrowseFacts, path: &str, date: &str) -> (r:
    bool)
    ensures
        final(lines)@ == old(lines)@ + directory_stats_rows(*facts, path@, date@),
        r == (facts.dir_stats is Some || listed(facts.dir_stats_pending@, path@)),
{
    let mut rows = Rows::new();
    let shown = match &facts.dir_stats {
        Some(stats) => {
            let folders = directory_count_label(stats.folder_count, "folder", "folders");
            push_directory_metric_line(&mut rows, "folders", folders.as_str());
            let files = append_size_label(
                directory_count_label(stats.file_count, "file", "files"),
                stats.total_size,
            );
            push_directory_metric_line(&mut rows, "files", files.as_str());
            let audio = append_size_label(
                directory_count_label(stats.audio_count, "audio file", "audio files"),
                stats.audio_size,
            );
            push_directory_metric_line(&mut rows, "audio files", audio.as_str());
            if !date.is_empty() {
                push_directory_metric_line(&mut rows, "updated", date);
            }
            true
        },
        None => {
            if is_listed(&facts.dir_stats_pending, path) {
                rows.push(labelled_line("   files       ", "computing...", dimmed()));
                true
            } else {
                false
            }
        },
    };
    lines.append(rows);
    shown
}

/// A folder's tracks in one line.
pub open spec fn audio_headline(audio: FolderAudioSummary, probe_status: bool) -> Seq<char> {
    let tracks = seq![
        counted(audio.track_count as nat, "track"@, "tracks"@),
    ];
    let format = match audio.dominant_format {
        Some(format) => seq![
            if audio.mixed_format {
                format@ + " + mixed formats"@
            } else {
                format@
            },
        ],
        None => Seq::empty(),
    };
    let rates = if audio.rollup.mixed_profiles {
        seq!["mixed rates"@]
    } else {
        match audio.rollup.dominant_profile {
            Some(profile) => seq![profile@],
            None => part_if(
                probe_status && audio.track_count > 0 && audio.probe_work_in_flight,
                "probing..."@,
            ),
        }
    };
    joined(tracks + format + rates, " · "@)
}

/// A folder's tracks in one line.
pub fn folder_audio_headline(audio: &FolderAudioSummary, probe_status: bool) -> (r: String)
    ensures
        r@ == audio_headline(*audio, probe_status),
{
    let mut parts = Texts::new();
    parts.push(directory_count_label(audio.track_count, "track", "tracks"));
    let ghost tracks = parts@;
    let ghost mut format: Seq<Seq<char>> = Seq::empty();
    match &audio.dominant_format {
        Some(name) => {
            if audio.mixed_format {
                let label = cat2(name.as_str(), " + mixed formats");
                parts.push_if(true, label.as_str());
                proof {
                    format = seq![label@];
                }
            } else {
                parts.push_if(true, name.as_str());
                proof {
                    format = seq![name@];
                }
            }
        },
        None => {
            proof {
                assert(tracks + format =~= tracks);
            }
        },
    }
    assert(parts@ == tracks + format);
    if audio.rollup.mixed_profiles {
        parts.push_if(true, "mixed rates");
    } else {
        match &audio.rollup.dominant_profile {
            Some(profile) => {
                parts.push_if(true, profile.as_str());
            },
            None => {
                parts.push_if(
                    probe_status && audio.track_count > 0 && audio.probe_work_in_flight,
                    "probing...",
                );
            },
        }
    }
    parts.join(" · ")
}

/// The first `n` sample formats with their numbers of tracks.
pub open spec fn profile_parts(counts: Seq<(String, usize)>, n: nat) -> Seq<Seq<char>>
    decreases n,
{
    if n == 0 || n > counts.len() {
        Seq::empty()
    } else {
        profile_parts(counts, (n - 1) as nat).push(
            decimal(counts[n - 1].1 as nat) + "x "@ + counts[n - 1].0@,
        )
    }
}

/// Sample formats, total duration, size and unprobed tracks of a folder.
pub open spec fn audio_detail_rows(audio: FolderAudioSummary, facts: BrowseFacts, width: int) -> RowsV {
    let counts = audio.rollup.profile_counts@;
    let profiles = row_if(
        counts.len() > 1,
        indented(
            truncated_right(joined(profile_parts(counts, counts.len()), " · "@), minus(width, 3)),
            text_style(),
        ),
    );
    let tail = audio_tail(audio, facts);
    profiles + row_if(
        tail.len() > 0,
        indented(truncated_right(joined(tail, " · "@), minus(width, 3)), muted()),
    )
}

/// Total duration, size and unprobed tracks of a folder.
pub open spec fn audio_tail(audio: FolderAudioSummary, facts: BrowseFacts) -> Seq<Seq<char>> {
    let rollup = audio.rollup;
    let duration = match rollup.total_duration {
        Some(duration) => "duration: "@ + duration@,
        None => Seq::empty(),
    };
    let size = match facts.dir_stats {
        Some(stats) => stats.total_size as nat,
        None => 0,
    };
    Seq::<Seq<char>>::empty() + part_if(rollup.total_duration is Some, duration) + part_if(
        size > 0,
        "size: "@ + size_text(size),
    ) + part_if(
        0 < rollup.probed_count < audio.track_count,
        decimal((audio.track_count - rollup.probed_count) as nat) + " unprobed"@,
    )
}

fn profile_list(counts: &Vec<(String, usize)>) -> (r: Texts)
    ensures
        r@ == profile_parts(counts@, counts@.len()),
{
    let mut parts = Texts::new();
    for i in 0..counts.len()
        invariant
            parts@ == profile_parts(counts@, i as nat),
    {
        parts.push(cat3(dec_len(counts[i].1).as_str(), "x ", counts[i].0.as_str()));
    }
    parts
}

/// Adds sample formats, total duration, size and unprobed tracks of a folder.
pub fn push_folder_audio_detail_lines(
    lines: &mut Rows,
    audio: &FolderAudioSummary,
    facts: &BrowseFacts,
    content_width: usize,
)
    ensures
        final(lines)@ == old(lines)@ + audio_detail_rows(*audio, *facts, content_width as int),
{
    let mut rows = Rows::new();
    let rollup = &audio.rollup;
    if rollup.profile_counts.len() > 1 {
        let detail = profile_list(&rollup.profile_counts).join(" · ");
        let cut = truncate_right(detail.as_str(), content_width.saturating_sub(3));
        rows.push(indented_line(cut.as_str(), text_style()));
    }
    let mut tail = Texts::new();
    match &rollup.total_duration {
        Some(duration) => tail.push_if(true, cat2("duration: ", duration.as_str()).as_str()),
        None => tail.push_if(false, ""),
    }
    let size: u64 = match &facts.dir_stats {
        Some(stats) => stats.total_size,
        None => 0,
    };
    tail.push_if(size > 0, cat2("size: ", size_str(size).as_str()).as_str());
    if rollup.probed_count > 0 && rollup.probed_count < audio.track_count {
        let left = dec_len(audio.track_count - rollup.probed_count);
        tail.push_if(true, cat2(left.as_str(), " unprobed").as_str());
    } else {
        tail.push_if(false, "");
    }
    proof {
        assert(tail@ =~= audio_tail(*audio, *facts));
    }
    if tail.len() > 0 {
        let cut = truncate_right(tail.join(" · ").as_str(), content_width.saturating_sub(3));
        rows.push(indented_line(cut.as_str(), muted()));
    }
    proof {
        assert(rows@ =~= audio_detail_rows(*audio, *facts, content_width as int));
    }
    lines.append(rows);
}

/// A clickable label at the right edge, marked while the pointer is on it.
pub open spec fn pill(label: Seq<char>, hovered: bool, content_width: int) -> LineV {
    seq![
        sp(blanks(minus(content_width, plus(shown_width(label) as int, 3)) as nat), plain()),
        sp(label, bold(on(Tone::PillActiveFg, if hovered { Tone::Blue } else { Tone::Purple }))),
    ]
}

fn pill_line(label: &str, hovered: bool, content_width: usize) -> (r: Line)
    ensures
        r@ == pill(label@, hovered, content_width as int),
{
    let pad = spaces(content_width.saturating_sub(width(label).saturating_add(3)));
    let back = if hovered { Tone::Blue } else { Tone::Purple };
    line2(pad.as_str(), plain(), label, bold(on(Tone::PillActiveFg, back)))
}

/// The first `n` of `texts`, each behind `indent` and cut to `max` columns.
pub open spec fn text_rows(texts: Seq<String>, indent: Seq<char>, max: int, n: nat) -> RowsV
    decreases n,
{
    if n == 0 || n > texts.len() {
        Seq::empty()
    } else {
        text_rows(texts, indent, max, (n - 1) as nat).push(
            seq![sp(indent, plain()), sp(truncated_right(texts[n - 1]@, max), text_style())],
        )
    }
}

fn text_lines(texts: &Vec<String>, indent: &str, max: usize, n: usize) -> (r: Rows)
    requires
        n <= texts@.len(),
    ensures
        r@ == text_rows(texts@, indent@, max as int, n as nat),
{
    let mut rows = Rows::new();
    for i in 0..n
        invariant
            n <= texts@.len(),
            rows@ == text_rows(texts@, indent@, max as int, i as nat),
    {
        let cut = truncate_right(texts[i].as_str(), max);
        rows.push(line2(indent, plain(), cut.as_str(), text_style()));
    }
    rows
}

/// The number of streams listed in the info pane.
pub const STREAMS_LISTED: usize = 6;

/// What is on a probed disc.
pub open spec fn disc_contents_rows(contents: DiscContents, content_width: int, hovered: bool) -> RowsV {
    let max = minus(content_width, 3);
    let protection = trimmed(contents.copy_protection@);
    let streams = contents.stream_lines@;
    let count = contents.presentations@.len();
    text_rows(contents.summary_lines@, "   "@, max, contents.summary_lines@.len()) + row_if(
        !same_but_case(protection, "none"@),
        spaced("   copy protection"@, truncated_right(protection, minus(max, 18)), text_style()),
    ) + seq![Seq::<crate::scene::SpanV>::empty(), seq![sp("   streams:"@, muted())]] + text_rows(
        streams,
        "     "@,
        minus(max, 2),
        least(streams.len() as int, STREAMS_LISTED as int) as nat,
    ) + row_if(
        count > STREAMS_LISTED,
        seq![sp("     ... and "@ + decimal((count - STREAMS_LISTED) as nat) + " more"@, muted())],
    ) + if count > 0 {
        seq![Seq::<crate::scene::SpanV>::empty(), pill(" audio streams "@, hovered, content_width)]
    } else {
        Seq::empty()
    }
}

/// Why nothing is known yet of an unprobed disc.
pub open spec fn disc_status(facts: BrowseFacts, path: Seq<char>) -> Seq<char> {
    if listed(facts.disc_probe_pending@, path) {
        "Analyzing disc…"@
    } else if facts.cold_work_policy is AfterDescendOnly {
        "disc summary available after descend/scan"@
    } else {
        "disc summary not cached"@
    }
}

/// A disc is said to be analysed exactly while its probe is under way.
pub proof fn analysis_is_claimed_only_while_it_runs(facts: BrowseFacts, path: Seq<char>)
    ensures
        disc_status(facts, path) == "Analyzing disc…"@ <==> listed(facts.disc_probe_pending@, path),
{
    reveal_strlit("Analyzing disc…");
    reveal_strlit("disc summary available after descend/scan");
    reveal_strlit("disc summary not cached");
    assert("Analyzing disc…"@.len() != "disc summary not cached"@.len());
    assert("Analyzing disc…"@.len() != "disc summary available after descend/scan"@.len());
}

/// What is on the disc at `path`, the error of its probe, or that it is not probed.
pub open spec fn disc_rows(
    facts: BrowseFacts,
    path: Seq<char>,
    entry_size: nat,
    content_width: int,
    hovered: bool,
) -> RowsV {
    let max = minus(content_width, 3);
    let size = labelled("   size    "@, size_text(entry_size), text_style());
    match known_contents(facts.disc_probe_cache@, path) {
        Some(contents) => disc_contents_rows(*contents, content_width, hovered),
        None => match known_error(facts.disc_probe_cache@, path) {
            Some(error) => seq![
                labelled(
                    "   status  "@,
                    truncated_right(error, minus(max, 10)),
                    fg(Tone::Destructive),
                ),
                size,
            ],
            None => seq![labelled("   status  "@, disc_status(facts, path), muted()), size],
        },
    }
}

/// The disc at `path` is known to have streams to choose from.
pub open spec fn offers_streams(facts: BrowseFacts, path: Seq<char>) -> bool {
    match known_contents(facts.disc_probe_cache@, path) {
        Some(contents) => contents.presentations@.len() > 0,
        None => false,
    }
}

#[verifier::spinoff_prover]
#[verifier::rlimit(60)]
fn disc_contents_lines(contents: &DiscContents, content_width: usize, hovered: bool) -> (r: Rows)
    ensures
        r@ == disc_contents_rows(*contents, content_width as int, hovered),
{
    let max: usize = content_width.saturating_sub(3);
    let mut rows = text_lines(
        &contents.summary_lines,
        "   ",
        max,
        contents.summary_lines.len(),
    );
    let protection = trim(contents.copy_protection.as_str());
    let cut = truncate_right(protection.as_str(), max.saturating_sub(18));
    rows.push_if(
        !same_ignoring_case(protection.as_str(), "none"),
        spaced_line("   copy protection", cut.as_str(), text_style()),
    );
    let mut header = Rows::new();
    header.push(Line::new());
    header.push(line1("   streams:", muted()));
    rows.append(header);
    let streams: usize = contents.stream_lines.len();
    let shown: usize = if streams <= STREAMS_LISTED { streams } else { STREAMS_LISTED };
    rows.append(text_lines(&contents.stream_lines, "     ", max.saturating_sub(2), shown));
    let count: usize = contents.presentations.len();
    let more = cat3(
        "     ... and ",
        dec_len(count.saturating_sub(STREAMS_LISTED)).as_str(),
        " more",
    );
    rows.push_if(count > STREAMS_LISTED, line1(more.as_str(), muted()));
    let mut tail = Rows::new();
    if count > 0 {
        tail.push(Line::new());
        tail.push(pill_line(" audio streams ", hovered, content_width));
    }
    rows.append(tail);
    rows
}

/// Adds what is known of the disc at `path`. The line of the stream chooser goes to
/// `audio_streams_pill_row`, where there is one.
pub fn push_disc_probe_summary_lines(
    lines: &mut Rows,
    facts: &BrowseFacts,
    path: &str,
    entry_size: u64,
    content_width: usize,
    audio_streams_hovered: bool,
    audio_streams_pill_row: &mut Option<usize>,
)
    ensures
        final(lines)@ == old(lines)@ + disc_rows(
            *facts,
            path@,
            entry_size as nat,
            content_width as int,
            audio_streams_hovered,
        ),
        *final(audio_streams_pill_row) == if offers_streams(*facts, path@) {
            Some((final(lines)@.len() - 1) as usize)
        } else {
            *old(audio_streams_pill_row)
        },
{
    let max: usize = content_width.saturating_sub(3);
    match contents_if_current(&facts.disc_probe_cache, path) {
        Some(contents) => {
            lines.append(disc_contents_lines(contents, content_width, audio_streams_hovered));
            if contents.presentations.len() > 0 {
                *audio_streams_pill_row = Some(lines.len() - 1);
            }
        },
        None => {
            let mut rows = Rows::new();
            match error_if_current(&facts.disc_probe_cache, path) {
                Some(error) => {
                    let cut = truncate_right(error, max.saturating_sub(10));
                    rows.push(labelled_line("   status  ", cut.as_str(), fg(Tone::Destructive)));
                },
                None => {
                    // Only a pending worker is reported as progress: without one the
                    // missing summary is intended and may stay missing.
                    let status = if is_listed(&facts.disc_probe_pending, path) {
                        "Analyzing disc…"
                    } else {
                        match facts.cold_work_policy {
                            BrowseDirectorySummaryColdWorkPolicy::AfterDescendOnly => {
                                "disc summary available after descend/scan"
                            },
                            _ => "disc summary not cached",
                        }
                    };
                    rows.push(labelled_line("   status  ", status, muted()));
                },
            }
            rows.push(labelled_line("   size    ", size_str(entry_size).as_str(), text_style()));
            lines.append(rows);
        },
    }
}

/// The kind of disc in words.
pub open spec fn marker_text(class: FolderContentClassification) -> Seq<char> {
    match class.disc_marker {
        Some(marker) => marker@,
        None => if class.units@.len() > 0 {
            match class.units@[0].disc_marker {
                Some(marker) => marker@,
                None => "disc"@,
            }
        } else {
            "disc"@
        },
    }
}

/// Where the disc of a folder is probed.
pub open spec fn disc_path(class: FolderContentClassification, entry_path: Seq<char>) -> Seq<char> {
    match class.disc_image {
        Some(image) => image@,
        None => entry_path,
    }
}

/// The first `n` discs of a folder, one line each.
pub open spec fn unit_rows(units: Seq<FolderUnitSummary>, content_width: int, n: nat) -> RowsV
    decreases n,
{
    if n == 0 || n > units.len() {
        Seq::empty()
    } else {
        unit_rows(units, content_width, (n - 1) as nat).push(
            indented(
                truncated_right(
                    units[n - 1].name@ + ": "@ + audio_headline(units[n - 1].audio, false),
                    minus(content_width, 3),
                ),
                muted(),
            ),
        )
    }
}

fn unit_lines(units: &Vec<FolderUnitSummary>, content_width: usize) -> (r: Rows)
    ensures
        r@ == unit_rows(units@, content_width as int, units@.len()),
{
    let mut rows = Rows::new();
    for i in 0..units.len()
        invariant
            rows@ == unit_rows(units@, content_width as int, i as nat),
    {
        let headline = folder_audio_headline(&units[i].audio, false);
        let text = cat3(units[i].name.as_str(), ": ", headline.as_str());
        let cut = truncate_right(text.as_str(), content_width.saturating_sub(3));
        rows.push(indented_line(cut.as_str(), muted()));
    }
    rows
}

/// The headline of a multi-disc album.
pub open spec fn multidisc_headline(class: FolderContentClassification) -> Seq<char> {
    let discs = counted(class.unit_count as nat, "disc"@, "discs"@);
    if class.audio.track_count > 0 {
        discs + " · "@ + audio_headline(class.audio, true)
    } else {
        discs
    }
}

/// What a folder holds.
pub open spec fn classification_rows(
    class: FolderContentClassification,
    facts: BrowseFacts,
    path: Seq<char>,
    size: nat,
    date: Seq<char>,
    content_width: int,
    hovered: bool,
) -> RowsV {
    match class.kind {
        FolderClassificationKind::Album => seq![
            key_value("kind"@, "album folder"@, muted(), bold_fg(Tone::Blue)),
            indented(
                truncated_right(audio_headline(class.audio, true), minus(content_width, 3)),
                text_style(),
            ),
        ] + audio_detail_rows(class.audio, facts, content_width),
        FolderClassificationKind::Disc => seq![
            key_value("kind"@, marker_text(class) + " disc folder"@, muted(), bold_fg(Tone::Purple)),
        ] + disc_rows(facts, disc_path(class, path), size, content_width, hovered),
        FolderClassificationKind::MultiDisc => seq![
            key_value("kind"@, "multi-disc album"@, muted(), bold_fg(Tone::Blue)),
            indented(
                truncated_right(multidisc_headline(class), minus(content_width, 3)),
                text_style(),
            ),
        ] + audio_detail_rows(class.audio, facts, content_width) + if class.audio.track_count > 0
            && class.units@.len() <= 6 {
            unit_rows(class.units@, content_width, class.units@.len())
        } else {
            Seq::empty()
        },
        FolderClassificationKind::Collection
        | FolderClassificationKind::Unknown => directory_stats_rows(facts, path, date) + row_if(
            facts.dir_stats is None && !listed(facts.dir_stats_pending@, path),
            key_value("kind"@, "directory"@, muted(), text_style()),
        ),
    }
}

/// Adds what a folder holds. Collections are shown by their figures alone, or as a
/// plain directory while there are none.
pub fn push_folder_classification_lines(
    lines: &mut Rows,
    class: &FolderContentClassification,
    facts: &BrowseFacts,
    path: &str,
    size: u64,
    date: &str,
    content_width: usize,
    audio_streams_hovered: bool,
    audio_streams_pill_row: &mut Option<usize>,
)
    ensures
        final(lines)@ == old(lines)@ + classification_rows(
            *class,
            *facts,
            path@,
            size as nat,
            date@,
            content_width as int,
            audio_streams_hovered,
        ),
        *final(audio_streams_pill_row) == if class.kind is Disc && offers_streams(
            *facts,
            disc_path(*class, path@),
        ) {
            Some((final(lines)@.len() - 1) as usize)
        } else {
            *old(audio_streams_pill_row)
        },
{
    let mut rows = Rows::new();
    let mut pill_row: Option<usize> = None;
    match class.kind {
        FolderClassificationKind::Album => {
            push_key_value_line(&mut rows, "kind", "album folder", muted(), bold_fg(Tone::Blue));
            let headline = folder_audio_headline(&class.audio, true);
            let cut = truncate_right(headline.as_str(), content_width.saturating_sub(3));
            rows.push(indented_line(cut.as_str(), text_style()));
            push_folder_audio_detail_lines(&mut rows, &class.audio, facts, content_width);
        },
        FolderClassificationKind::Disc => {
            let marker = match &class.disc_marker {
                Some(marker) => marker.as_str(),
                None => if class.units.len() > 0 {
                    match &class.units[0].disc_marker {
                        Some(marker) => marker.as_str(),
                        None => "disc",
                    }
                } else {
                    "disc"
                },
            };
            let kind = cat2(marker, " disc folder");
            push_key_value_line(&mut rows, "kind", kind.as_str(), muted(), bold_fg(Tone::Purple));
            let source = match &class.disc_image {
                Some(image) => image.as_str(),
                None => path,
            };
            push_disc_probe_summary_lines(
                &mut rows,
                facts,
                source,
                size,
                content_width,
                audio_streams_hovered,
                &mut pill_row,
            );
        },
        FolderClassificationKind::MultiDisc => {
            push_key_value_line(
                &mut rows,
                "kind",
                "multi-disc album",
                muted(),
                bold_fg(Tone::Blue),
            );
            let discs = directory_count_label(class.unit_count, "disc", "discs");
            let headline = if class.audio.track_count > 0 {
                let tracks = folder_audio_headline(&class.audio, true);
                cat3(discs.as_str(), " · ", tracks.as_str())
            } else {
                discs
            };
            let cut = truncate_right(headline.as_str(), content_width.saturating_sub(3));
            rows.push(indented_line(cut.as_str(), text_style()));
            push_folder_audio_detail_lines(&mut rows, &class.audio, facts, content_width);
            if class.audio.track_count > 0 && class.units.len() <= 6 {
                rows.append(unit_lines(&class.units, content_width));
            } else {
                rows.append(Rows::new());
            }
        },
        FolderClassificationKind::Collection | FolderClassificationKind::Unknown => {
            let shown = push_directory_stats_lines(&mut rows, facts, path, date);
            proof {
                assert(Seq::<LineV>::empty() + directory_stats_rows(*facts, path@, date@)
                    =~= directory_stats_rows(*facts, path@, date@));
            }
            let mut kind = Rows::new();
            if !shown {
                push_key_value_line(&mut kind, "kind", "directory", muted(), text_style());
            }
            rows.append(kind);
        },
    }
    let found = pill_row.is_some();
    lines.append(rows);
    if found {
        *audio_streams_pill_row = Some(lines.len() - 1);
    }
}

/// A pre-emphasis finding in words. Only a confirmed finding is called detected.
pub open spec fn preemphasis_text(advisory: PreemphasisAdvisory) -> Seq<char> {
    let evidence = match advisory.catalog {
        Some(number) => "catalog "@ + number@,
        None => advisory.detail@,
    };
    let verdict = verdict_text(advisory.confidence);
    if trimmed(evidence).len() == 0 {
        verdict
    } else {
        verdict + " ("@ + evidence + ")"@
    }
}

/// A confidence in words.
pub open spec fn verdict_text(confidence: PreemphasisConfidence) -> Seq<char> {
    match confidence {
        PreemphasisConfidence::Detected => "detected"@,
        PreemphasisConfidence::StrongCandidate => "strong candidate"@,
        PreemphasisConfidence::Possible => "possible"@,
        PreemphasisConfidence::NotDetected => "not detected"@,
        PreemphasisConfidence::Indeterminate => "not checked"@,
    }
}

/// A pre-emphasis finding in words, with its confidence kept.
pub fn browse_preemphasis_status_text(advisory: &PreemphasisAdvisory) -> (r: String)
    ensures
        r@ == preemphasis_text(*advisory),
{
    let evidence = match &advisory.catalog {
        Some(number) => cat2("catalog ", number.as_str()),
        None => owned(advisory.detail.as_str()),
    };
    let verdict = match advisory.confidence {
        PreemphasisConfidence::Detected => "detected",
        PreemphasisConfidence::StrongCandidate => "strong candidate",
        PreemphasisConfidence::Possible => "possible",
        PreemphasisConfidence::NotDetected => "not detected",
        PreemphasisConfidence::Indeterminate => "not checked",
    };
    if trim(evidence.as_str()).as_str().is_empty() {
        owned(verdict)
    } else {
        cat4(verdict, " (", evidence.as_str(), ")")
    }
}

/// Inline editing of tags is off: the entry lies in an archive that is not being
/// edited.
pub open spec fn editing_disabled(facts: BrowseFacts) -> bool {
    facts.in_archive && !facts.archive_staging_active
}

/// The open editor of `field` of `entry`.
pub open spec fn field_editor(
    entry: BrowseEntry,
    facts: BrowseFacts,
    inline: Option<&BrowseInlineEditState>,
    field: MetadataField,
) -> Option<TextInputState> {
    if editing_disabled(facts) {
        None
    } else {
        match inline {
            Some(state) => match state.target {
                BrowseInlineEditTarget::Metadata { path, field: active } => if path@ == entry.path@
                    && active == field {
                    Some(state.input)
                } else {
                    None
                },
                _ => None,
            },
            None => None,
        }
    }
}

/// `field` has the keyboard.
pub open spec fn field_focused(
    facts: BrowseFacts,
    focus: Option<BrowseInfoFocus>,
    field: MetadataField,
) -> bool {
    !editing_disabled(facts) && focus == Some(BrowseInfoFocus::Metadata(field))
}

/// The style of a field's label.
pub open spec fn field_label_style(focused: bool) -> Style {
    if focused {
        bold_fg(Tone::TextBright)
    } else {
        muted()
    }
}

/// The style of a field's value, which is `idle` while it does not have the
/// keyboard.
pub open spec fn field_value_style(focused: bool, idle: Style) -> Style {
    if focused {
        on(Tone::TextBright, Tone::InputUnfocusedBg)
    } else {
        idle
    }
}

/// The line of one editable tag.
pub open spec fn meta_row(
    label: Seq<char>,
    value: Option<String>,
    editor: Option<TextInputState>,
    disabled: bool,
    focused: bool,
    max: int,
) -> LineV {
    let head = seq![sp(label, field_label_style(focused))];
    match editor {
        Some(input) => head + editing_spans(input, max),
        None => match value {
            Some(text) => head.push(
                sp(truncated_right(text@, max), field_value_style(focused, text_style())),
            ),
            None => head.push(
                sp(
                    if disabled {
                        "(use edit tags)"@
                    } else if focused {
                        "(type to add)"@
                    } else {
                        "(click to add)"@
                    },
                    field_value_style(focused, dimmed()),
                ),
            ),
        },
    }
}

fn meta_line(
    label: &str,
    value: &Option<String>,
    editor: Option<&TextInputState>,
    disabled: bool,
    focused: bool,
    max: usize,
) -> (r: Line)
    ensures
        r@ == meta_row(
            label@,
            *value,
            match editor {
                Some(input) => Some(*input),
                None => None,
            },
            disabled,
            focused,
            max as int,
        ),
{
    let label_style = if focused { bold_fg(Tone::TextBright) } else { muted() };
    let mut line = line1(label, label_style);
    match editor {
        Some(input) => {
            line.append(render_inline_value_with_embedded_cursor(input, max));
        },
        None => match value {
            Some(text) => {
                let cut = truncate_right(text.as_str(), max);
                let style = if focused {
                    on(Tone::TextBright, Tone::InputUnfocusedBg)
                } else {
                    text_style()
                };
                line.put(cut.as_str(), style);
            },
            None => {
                let placeholder = if disabled {
                    "(use edit tags)"
                } else if focused {
                    "(type to add)"
                } else {
                    "(click to add)"
                };
                let style = if focused {
                    on(Tone::TextBright, Tone::InputUnfocusedBg)
                } else {
                    dimmed()
                };
                line.put(placeholder, style);
            },
        },
    }
    line
}

/// What an editable tag's line depends on besides the tag itself.
pub struct MetaContext<'a> {
    pub entry: &'a BrowseEntry,
    pub facts: &'a BrowseFacts,
    pub inline: Option<&'a BrowseInlineEditState>,
    pub focus: Option<BrowseInfoFocus>,
    pub max: usize,
}

/// The line of `field`.
pub open spec fn field_row(ctx: MetaContext, field: MetadataField, label: Seq<char>, value: Option<String>) -> LineV {
    meta_row(
        label,
        value,
        field_editor(*ctx.entry, *ctx.facts, ctx.inline, field),
        editing_disabled(*ctx.facts),
        field_focused(*ctx.facts, ctx.focus, field),
        ctx.max as int,
    )
}

/// Where the cursor stands when `field` is on line `row`: as before, unless the
/// field is being edited.
pub open spec fn field_cursor(
    ctx: MetaContext,
    field: MetadataField,
    row: nat,
    before: Option<(usize, u16)>,
) -> Option<(usize, u16)> {
    match field_editor(*ctx.entry, *ctx.facts, ctx.inline, field) {
        Some(input) => Some(
            (row as usize, plus16(11, input.cursor_column(ctx.max as int)) as u16),
        ),
        None => before,
    }
}

fn editor_of<'a>(ctx: &MetaContext<'a>, field: MetadataField) -> (r: Option<&'a TextInputState>)
    ensures
        match r {
            Some(input) => field_editor(*ctx.entry, *ctx.facts, ctx.inline, field) == Some(*input),
            None => field_editor(*ctx.entry, *ctx.facts, ctx.inline, field) is None,
        },
{
    if ctx.facts.in_archive && !ctx.facts.archive_staging_active {
        return None;
    }
    match ctx.inline {
        Some(state) => match &state.target {
            BrowseInlineEditTarget::Metadata { path, field: active } => {
                if same(path.as_str(), ctx.entry.path.as_str()) && *active == field {
                    Some(&state.input)
                } else {
                    None
                }
            },
            _ => None,
        },
        None => None,
    }
}

fn push_field_line(
    rows: &mut Rows,
    cursor: &mut Option<(usize, u16)>,
    ctx: &MetaContext,
    field: MetadataField,
    label: &str,
    value: &Option<String>,
)
    ensures
        final(rows)@ == old(rows)@.push(field_row(*ctx, field, label@, *value)),
        *final(cursor) == field_cursor(*ctx, field, old(rows)@.len(), *old(cursor)),
{
    let disabled = ctx.facts.in_archive && !ctx.facts.archive_staging_active;
    let has_focus = match ctx.focus {
        Some(BrowseInfoFocus::Metadata(active)) => active == field,
        _ => false,
    };
    let editor = editor_of(ctx, field);
    match editor {
        Some(input) => {
            let eleven: u16 = 11;
            let col: u16 = eleven.saturating_add(inline_cursor_col(input, ctx.max));
            *cursor = Some((rows.len(), col));
        },
        None => {},
    }
    rows.push(meta_line(label, value, editor, disabled, !disabled && has_focus, ctx.max));
}

/// Format, codec, rate, channels, duration and size of a probed source.
pub open spec fn technical_rows(info: SourceInfo, tone: Tone) -> RowsV {
    seq![
        labelled("   format  "@, info.format_name@, bold_fg(tone)),
        labelled("   codec   "@, info.codec_display@, text_style()),
    ] + row_if(
        info.sample_rate > 0,
        labelled("   rate    "@, info.sample_rate_display@, text_style()),
    ) + row_if(
        info.channels > 0,
        spaced("   channels"@, info.channels_display@, text_style()),
    ) + (match info.duration_display {
        Some(duration) => seq![spaced("   duration"@, duration@, text_style())],
        None => Seq::empty(),
    }) + seq![labelled("   size    "@, info.size_display@, text_style())]
}

fn technical_lines(info: &SourceInfo, tone: Tone) -> (r: Rows)
    ensures
        r@ == technical_rows(*info, tone),
{
    let mut rows = Rows::new();
    rows.push(labelled_line("   format  ", info.format_name.as_str(), bold_fg(tone)));
    rows.push(labelled_line("   codec   ", info.codec_display.as_str(), text_style()));
    rows.push_if(
        info.sample_rate > 0,
        labelled_line("   rate    ", info.sample_rate_display.as_str(), text_style()),
    );
    rows.push_if(
        info.channels > 0,
        spaced_line("   channels", info.channels_display.as_str(), text_style()),
    );
    match &info.duration_display {
        Some(duration) => {
            rows.append(Rows::of(spaced_line("   duration", duration.as_str(), text_style())));
        },
        None => {
            rows.append(Rows::new());
        },
    }
    rows.append(
        Rows::of(labelled_line("   size    ", info.size_display.as_str(), text_style())),
    );
    rows
}

/// The colour of a pre-emphasis finding.
pub open spec fn confidence_style(confidence: PreemphasisConfidence) -> Style {
    match confidence {
        PreemphasisConfidence::Detected => fg(Tone::Destructive),
        PreemphasisConfidence::StrongCandidate | PreemphasisConfidence::Possible => fg(Tone::Amber),
        PreemphasisConfidence::NotDetected | PreemphasisConfidence::Indeterminate => muted(),
    }
}

/// Pre-emphasis and HDCD findings.
pub open spec fn finding_rows(meta: SourceMetadata, max: int) -> RowsV {
    (match meta.preemphasis_metadata {
        Some(advisory) => seq![
            spaced(
                "   pre-emph"@,
                truncated_right(preemphasis_text(advisory), minus(max, 11)),
                confidence_style(advisory.confidence),
            ),
        ],
        None => Seq::empty(),
    }) + (match meta.hdcd_detail {
        Some(hdcd) => seq![hdcd_row(hdcd@, minus(max, 11))],
        None => Seq::empty(),
    })
}

/// The HDCD finding, with a leading "HDCD" picked out.
pub open spec fn hdcd_row(hdcd: Seq<char>, max: int) -> LineV {
    let head = seq![sp("   HDCD    "@, muted())];
    match after_prefix(hdcd, "HDCD"@) {
        Some(rest) => head.push(sp("HDCD"@, bold_fg(Tone::Amber))).push(
            sp(truncated_right(rest, minus(max, 4)), text_style()),
        ),
        None => head.push(sp(truncated_right(hdcd, max), text_style())),
    }
}

fn finding_lines(meta: &SourceMetadata, max: usize) -> (r: Rows)
    ensures
        r@ == finding_rows(*meta, max as int),
{
    let mut rows = Rows::new();
    match &meta.preemphasis_metadata {
        Some(advisory) => {
            let value = browse_preemphasis_status_text(advisory);
            let style = match advisory.confidence {
                PreemphasisConfidence::Detected => fg(Tone::Destructive),
                PreemphasisConfidence::StrongCandidate | PreemphasisConfidence::Possible => fg(
                    Tone::Amber,
                ),
                PreemphasisConfidence::NotDetected | PreemphasisConfidence::Indeterminate => muted(),
            };
            let cut = truncate_right(value.as_str(), max.saturating_sub(11));
            rows.push(spaced_line("   pre-emph", cut.as_str(), style));
        },
        None => {},
    }
    let mut hdcd_rows = Rows::new();
    match &meta.hdcd_detail {
        Some(hdcd) => {
            let val_max: usize = max.saturating_sub(11);
            let mut line = line1("   HDCD    ", muted());
            match strip_prefix(hdcd.as_str(), "HDCD") {
                Some(rest) => {
                    line.put("HDCD", bold_fg(Tone::Amber));
                    let cut = truncate_right(rest.as_str(), val_max.saturating_sub(4));
                    line.put(cut.as_str(), text_style());
                },
                None => {
                    let cut = truncate_right(hdcd.as_str(), val_max);
                    line.put(cut.as_str(), text_style());
                },
            }
            hdcd_rows.push(line);
        },
        None => {},
    }
    rows.append(hdcd_rows);
    rows
}

/// A value with its label, where there is a value.
pub open spec fn optional_row(label: Seq<char>, value: Option<String>, max: int) -> RowsV {
    match value {
        Some(text) => seq![labelled(label, truncated_right(text@, max), text_style())],
        None => Seq::empty(),
    }
}

fn append_optional(rows: &mut Rows, label: &str, value: &Option<String>, max: usize)
    ensures
        final(rows)@ == old(rows)@ + optional_row(label@, *value, max as int),
{
    rows.append(optional_lines(label, value, max));
}

/// There is a ReplayGain tag.
pub open spec fn has_replaygain(meta: SourceMetadata) -> bool {
    meta.rg_track_gain is Some || meta.rg_album_gain is Some || meta.rg_track_peak is Some
        || meta.rg_album_peak is Some
}

/// There is an R128 tag.
pub open spec fn has_r128(meta: SourceMetadata) -> bool {
    meta.r128_track_gain is Some || meta.r128_album_gain is Some
}

/// Which loudness tags there are.
pub open spec fn loudness_label(meta: SourceMetadata) -> Seq<char> {
    if has_replaygain(meta) && has_r128(meta) {
        "replaygain + r128"@
    } else if has_r128(meta) {
        "r128"@
    } else if meta.rg_track_gain is Some && meta.rg_album_gain is Some {
        "replaygain (track + album)"@
    } else if meta.rg_album_gain is Some {
        "replaygain (album)"@
    } else {
        "replaygain (track)"@
    }
}

/// Each loudness tag.
pub open spec fn loudness_values(meta: SourceMetadata, max: int) -> RowsV {
    optional_row("   tk gain "@, meta.rg_track_gain, max) + optional_row(
        "   tk peak "@,
        meta.rg_track_peak,
        max,
    ) + optional_row("   al gain "@, meta.rg_album_gain, max) + optional_row(
        "   al peak "@,
        meta.rg_album_peak,
        max,
    ) + optional_row("   r128 tk "@, meta.r128_track_gain, max) + optional_row(
        "   r128 al "@,
        meta.r128_album_gain,
        max,
    )
}

/// Loudness tags: which there are, then each.
pub open spec fn loudness_rows(meta: SourceMetadata, max: int) -> RowsV {
    if has_replaygain(meta) || has_r128(meta) {
        seq![
            Seq::<crate::scene::SpanV>::empty(),
            seq![sp("   "@ + loudness_label(meta), muted())],
        ] + loudness_values(meta, minus(max, 11))
    } else {
        Seq::empty()
    }
}

fn optional_lines(label: &str, value: &Option<String>, max: usize) -> (r: Rows)
    ensures
        r@ == optional_row(label@, *value, max as int),
{
    let mut rows = Rows::new();
    match value {
        Some(text) => {
            let cut = truncate_right(text.as_str(), max);
            rows.push(labelled_line(label, cut.as_str(), text_style()));
        },
        None => {},
    }
    rows
}

fn loudness_value_lines(meta: &SourceMetadata, max: usize) -> (r: Rows)
    ensures
        r@ == loudness_values(*meta, max as int),
{
    let mut rows = optional_lines("   tk gain ", &meta.rg_track_gain, max);
    append_optional(&mut rows, "   tk peak ", &meta.rg_track_peak, max);
    append_optional(&mut rows, "   al gain ", &meta.rg_album_gain, max);
    append_optional(&mut rows, "   al peak ", &meta.rg_album_peak, max);
    append_optional(&mut rows, "   r128 tk ", &meta.r128_track_gain, max);
    append_optional(&mut rows, "   r128 al ", &meta.r128_album_gain, max);
    rows
}

fn loudness_lines(meta: &SourceMetadata, max: usize) -> (r: Rows)
    ensures
        r@ == loudness_rows(*meta, max as int),
{
    let has_rg = meta.rg_track_gain.is_some() || meta.rg_album_gain.is_some()
        || meta.rg_track_peak.is_some() || meta.rg_album_peak.is_some();
    let has_r128 = meta.r128_track_gain.is_some() || meta.r128_album_gain.is_some();
    if !has_rg && !has_r128 {
        return Rows::new();
    }
    let label = if has_rg && has_r128 {
        "replaygain + r128"
    } else if has_r128 {
        "r128"
    } else if meta.rg_track_gain.is_some() && meta.rg_album_gain.is_some() {
        "replaygain (track + album)"
    } else if meta.rg_album_gain.is_some() {
        "replaygain (album)"
    } else {
        "replaygain (track)"
    };
    let mut rows = Rows::new();
    rows.push(Line::new());
    rows.push(line1(cat2("   ", label).as_str(), muted()));
    rows.append(loudness_value_lines(meta, max.saturating_sub(11)));
    rows
}

/// The name of the entry, at the top of the pane.
pub open spec fn name_rows(entry: BrowseEntry, max: int) -> RowsV {
    seq![
        Seq::<crate::scene::SpanV>::empty(),
        seq![sp("   name"@, muted())],
        indented(truncated_right(entry.name@, max), bright()),
        Seq::<crate::scene::SpanV>::empty(),
    ]
}

/// Two lines: an empty one and a pill.
pub open spec fn pill_rows(label: Seq<char>, hovered: bool, content_width: int) -> RowsV {
    seq![Seq::<crate::scene::SpanV>::empty(), pill(label, hovered, content_width)]
}

fn pill_lines(label: &str, hovered: bool, content_width: usize) -> (r: Rows)
    ensures
        r@ == pill_rows(label@, hovered, content_width as int),
{
    let mut rows = Rows::new();
    rows.push(Line::new());
    rows.push(pill_line(label, hovered, content_width));
    rows
}

/// The five editable tags of an audio file.
pub open spec fn tag_rows(ctx: MetaContext, meta: SourceMetadata) -> RowsV {
    seq![
        field_row(ctx, MetadataField::Title, "   title   "@, meta.title),
        field_row(ctx, MetadataField::Artist, "   artist  "@, meta.artist),
        field_row(ctx, MetadataField::Album, "   album   "@, meta.album),
        field_row(ctx, MetadataField::Genre, "   genre   "@, meta.genre),
        field_row(ctx, MetadataField::Year, "   year    "@, meta.year),
    ]
}

/// The lines of the five tags, the first of which is on line `base`.
pub open spec fn tag_places(base: nat) -> Seq<(MetadataField, usize)> {
    seq![
        (MetadataField::Title, base as usize),
        (MetadataField::Artist, (base + 1) as usize),
        (MetadataField::Album, (base + 2) as usize),
        (MetadataField::Genre, (base + 3) as usize),
        (MetadataField::Year, (base + 4) as usize),
    ]
}

/// The cursor among the five tags, the first of which is on line `base`.
pub open spec fn tag_cursor(ctx: MetaContext, base: nat) -> Option<(usize, u16)> {
    let title = field_cursor(ctx, MetadataField::Title, base, None);
    let artist = field_cursor(ctx, MetadataField::Artist, base + 1, title);
    let album = field_cursor(ctx, MetadataField::Album, base + 2, artist);
    let genre = field_cursor(ctx, MetadataField::Genre, base + 3, album);
    field_cursor(ctx, MetadataField::Year, base + 4, genre)
}

/// The pane for a probed audio file.
pub open spec fn probed_audio_info(
    ctx: MetaContext,
    cached: CachedInfo,
    content_width: int,
    analyze_hovered: bool,
    edit_tags_hovered: bool,
) -> InfoContentV {
    let max = minus(content_width, 3);
    let measured = name_rows(*ctx.entry, max) + technical_rows(cached.source, Tone::Blue)
        + finding_rows(cached.metadata, max) + loudness_rows(cached.metadata, max) + pill_rows(
        " analyze "@,
        analyze_hovered,
        content_width,
    );
    let tagged = measured.push(Seq::empty()) + tag_rows(ctx, cached.metadata);
    InfoContentV {
        lines: tagged + pill_rows(" edit tags "@, edit_tags_hovered, content_width),
        meta_field_rows: if editing_disabled(*ctx.facts) {
            Seq::empty()
        } else {
            tag_places(measured.len() + 1)
        },
        analyze_pill_row: Some((measured.len() - 1) as usize),
        edit_tags_pill_row: Some((tagged.len() + 1) as usize),
        audio_streams_pill_row: None,
        inline_cursor: tag_cursor(ctx, measured.len() + 1),
    }
}

#[verifier::spinoff_prover]
#[verifier::rlimit(60)]
fn probed_audio(
    ctx: &MetaContext,
    cached: &CachedInfo,
    content_width: usize,
    analyze_hovered: bool,
    edit_tags_hovered: bool,
) -> (r: InfoContent)
    ensures
        r@ == probed_audio_info(
            *ctx,
            *cached,
            content_width as int,
            analyze_hovered,
            edit_tags_hovered,
        ),
{
    let max: usize = content_width.saturating_sub(3);
    let meta = &cached.metadata;
    let mut rows = name_lines(ctx.entry, max);
    rows.append(technical_lines(&cached.source, Tone::Blue));
    rows.append(finding_lines(meta, max));
    rows.append(loudness_lines(meta, max));
    rows.append(pill_lines(" analyze ", analyze_hovered, content_width));
    let analyze_row: usize = rows.len() - 1;
    let ghost measured = rows@;
    rows.push(Line::new());
    let mut cursor: Option<(usize, u16)> = None;
    let disabled = ctx.facts.in_archive && !ctx.facts.archive_staging_active;
    let mut places: Vec<(MetadataField, usize)> = Vec::new();
    let title: usize = rows.len();
    push_field_line(&mut rows, &mut cursor, ctx, MetadataField::Title, "   title   ", &meta.title);
    let artist: usize = rows.len();
    push_field_line(&mut rows, &mut cursor, ctx, MetadataField::Artist, "   artist  ", &meta.artist);
    let album: usize = rows.len();
    push_field_line(&mut rows, &mut cursor, ctx, MetadataField::Album, "   album   ", &meta.album);
    let genre: usize = rows.len();
    push_field_line(&mut rows, &mut cursor, ctx, MetadataField::Genre, "   genre   ", &meta.genre);
    let year: usize = rows.len();
    push_field_line(&mut rows, &mut cursor, ctx, MetadataField::Year, "   year    ", &meta.year);
    if !disabled {
        places.push((MetadataField::Title, title));
        places.push((MetadataField::Artist, artist));
        places.push((MetadataField::Album, album));
        places.push((MetadataField::Genre, genre));
        places.push((MetadataField::Year, year));
    }
    proof {
        assert(rows@ =~= measured.push(Seq::empty()) + tag_rows(*ctx, *meta));
        assert(places@ =~= if editing_disabled(*ctx.facts) {
            Seq::empty()
        } else {
            tag_places(measured.len() + 1)
        });
    }
    rows.append(pill_lines(" edit tags ", edit_tags_hovered, content_width));
    let edit_row: usize = rows.len() - 1;
    InfoContent {
        lines: rows,
        meta_field_rows: places,
        analyze_pill_row: Some(analyze_row),
        edit_tags_pill_row: Some(edit_row),
        audio_streams_pill_row: None,
        inline_cursor: cursor,
    }
}

fn name_lines(entry: &BrowseEntry, max: usize) -> (r: Rows)
    ensures
        r@ == name_rows(*entry, max as int),
{
    let mut rows = Rows::new();
    rows.push(Line::new());
    rows.push(line1("   name", muted()));
    let cut = truncate_right(entry.name.as_str(), max);
    rows.push(indented_line(cut.as_str(), bright()));
    rows.push(Line::new());
    rows
}

/// Packed size and encryption of a file inside an archive.
pub open spec fn archive_rows(facts: BrowseFacts, path: Seq<char>) -> RowsV {
    let i = archive_index(facts.archive_entries@, path, 0);
    if i < facts.archive_entries@.len() {
        let found = facts.archive_entries@[i];
        row_if(
            found.packed_size > 0,
            labelled("   packed  "@, size_text(found.packed_size as nat), text_style()),
        ).push(
            labelled(
                "   archive "@,
                if found.encrypted { "encrypted"@ } else { "entry"@ },
                text_style(),
            ),
        )
    } else {
        Seq::empty()
    }
}

fn archive_lines(facts: &BrowseFacts, path: &str) -> (r: Rows)
    ensures
        r@ == archive_rows(*facts, path@),
{
    let mut rows = Rows::new();
    let i: usize = find_archive_entry(&facts.archive_entries, path);
    if i < facts.archive_entries.len() {
        let found = &facts.archive_entries[i];
        if found.packed_size > 0 {
            let size = size_str(found.packed_size);
            rows.push(labelled_line("   packed  ", size.as_str(), text_style()));
        }
        let word = if found.encrypted { "encrypted" } else { "entry" };
        rows.push(labelled_line("   archive ", word, text_style()));
    }
    rows
}

/// The pane for an audio file that is not probed, or whose probe failed.
pub open spec fn unprobed_audio_info(
    entry: BrowseEntry,
    facts: BrowseFacts,
    format: Seq<char>,
    content_width: int,
    analyze_hovered: bool,
    edit_tags_hovered: bool,
) -> InfoContentV {
    let basic = name_rows(entry, minus(content_width, 3)) + seq![
        labelled("   format  "@, format, bold_fg(Tone::Blue)),
        labelled("   size    "@, size_text(entry.size as nat), text_style()),
    ] + archive_rows(facts, entry.path@) + pill_rows(" analyze "@, analyze_hovered, content_width);
    InfoContentV {
        lines: basic + pill_rows(" edit tags "@, edit_tags_hovered, content_width),
        meta_field_rows: Seq::empty(),
        analyze_pill_row: Some((basic.len() - 1) as usize),
        edit_tags_pill_row: Some((basic.len() + 1) as usize),
        audio_streams_pill_row: None,
        inline_cursor: None,
    }
}

fn unprobed_audio(
    entry: &BrowseEntry,
    facts: &BrowseFacts,
    format: &str,
    content_width: usize,
    analyze_hovered: bool,
    edit_tags_hovered: bool,
) -> (r: InfoContent)
    ensures
        r@ == unprobed_audio_info(
            *entry,
            *facts,
            format@,
            content_width as int,
            analyze_hovered,
            edit_tags_hovered,
        ),
{
    let mut rows = name_lines(entry, content_width.saturating_sub(3));
    let mut basic = Rows::new();
    basic.push(labelled_line("   format  ", format, bold_fg(Tone::Blue)));
    basic.push(labelled_line("   size    ", size_str(entry.size).as_str(), text_style()));
    rows.append(basic);
    rows.append(archive_lines(facts, entry.path.as_str()));
    rows.append(pill_lines(" analyze ", analyze_hovered, content_width));
    let analyze_row: usize = rows.len() - 1;
    rows.append(pill_lines(" edit tags ", edit_tags_hovered, content_width));
    let edit_row: usize = rows.len() - 1;
    let places: Vec<(MetadataField, usize)> = Vec::new();
    let r = InfoContent {
        lines: rows,
        meta_field_rows: places,
        analyze_pill_row: Some(analyze_row),
        edit_tags_pill_row: Some(edit_row),
        audio_streams_pill_row: None,
        inline_cursor: None,
    };
    proof {
        let want = unprobed_audio_info(
            *entry,
            *facts,
            format@,
            content_width as int,
            analyze_hovered,
            edit_tags_hovered,
        );
        assert(r@.lines == want.lines);
        assert(r@.meta_field_rows == want.meta_field_rows);
        assert(r@.analyze_pill_row == want.analyze_pill_row);
        assert(r@.edit_tags_pill_row == want.edit_tags_pill_row);
    }
    r
}

/// What a directory holds, as far as it is known.
pub open spec fn directory_rows(entry: BrowseEntry, facts: BrowseFacts, content_width: int, hovered: bool) -> RowsV {
    match facts.classification {
        Some(class) => classification_rows(
            class,
            facts,
            entry.path@,
            entry.size as nat,
            entry.date_label@,
            content_width,
            hovered,
        ),
        None => seq![labelled("   kind    "@, "directory"@, text_style())] + row_if(
            listed(facts.classification_pending@, entry.path@),
            labelled("   content "@, "classifying..."@, dimmed()),
        ) + directory_stats_rows(facts, entry.path@, entry.date_label@),
    }
}

/// The kind of a disc source in words.
pub open spec fn disc_kind(kind: EntryKind) -> Seq<char> {
    match kind {
        EntryKind::DvdAudioIso => "DVD-Audio ISO"@,
        EntryKind::DvdAudioDir => "DVD-Audio directory"@,
        EntryKind::DvdVideoIso => "DVD-Video ISO"@,
        EntryKind::DvdVideoDir => "DVD-Video directory"@,
        EntryKind::BlurayIso => "Blu-ray ISO"@,
        _ => "Blu-ray directory"@,
    }
}

/// The tags of a Super Audio CD image.
pub open spec fn sacd_tag_rows(
    facts: BrowseFacts,
    focus: Option<BrowseInfoFocus>,
    cached: CachedInfo,
    content_width: int,
) -> RowsV {
    let meta = cached.metadata;
    let max = minus(minus(content_width, 3), 11);
    let technical = seq![Seq::<crate::scene::SpanV>::empty()] + technical_rows(
        cached.source,
        Tone::Purple,
    );
    if meta.album is Some || meta.artist is Some || meta.genre is Some || meta.year is Some
        || meta.catalog_number is Some {
        technical.push(Seq::empty()) + focusable_row(
            facts,
            focus,
            MetadataField::Artist,
            "   artist  "@,
            meta.artist,
            max,
        ) + focusable_row(facts, focus, MetadataField::Album, "   album   "@, meta.album, max)
            + focusable_row(facts, focus, MetadataField::Genre, "   genre   "@, meta.genre, max)
            + focusable_row(facts, focus, MetadataField::Year, "   year    "@, meta.year, max)
            + optional_row("   catalog "@, meta.catalog_number, max)
    } else {
        technical
    }
}

/// A value with a label that shows the keyboard focus, where there is a value.
pub open spec fn focusable_row(
    facts: BrowseFacts,
    focus: Option<BrowseInfoFocus>,
    field: MetadataField,
    label: Seq<char>,
    value: Option<String>,
    max: int,
) -> RowsV {
    match value {
        Some(text) => seq![
            seq![
                sp(label, field_label_style(field_focused(facts, focus, field))),
                sp(truncated_right(text@, max), text_style()),
            ],
        ],
        None => Seq::empty(),
    }
}

fn append_focusable(
    rows: &mut Rows,
    facts: &BrowseFacts,
    focus: Option<BrowseInfoFocus>,
    field: MetadataField,
    label: &str,
    value: &Option<String>,
    max: usize,
)
    ensures
        final(rows)@ == old(rows)@ + focusable_row(*facts, focus, field, label@, *value, max as int),
{
    let mut added = Rows::new();
    match value {
        Some(text) => {
            let disabled = facts.in_archive && !facts.archive_staging_active;
            let has_focus = match focus {
                Some(BrowseInfoFocus::Metadata(active)) => active == field,
                _ => false,
            };
            let style = if !disabled && has_focus { bold_fg(Tone::TextBright) } else { muted() };
            let cut = truncate_right(text.as_str(), max);
            added.push(line2(label, style, cut.as_str(), text_style()));
        },
        None => {},
    }
    rows.append(added);
}

fn sacd_tag_lines(
    facts: &BrowseFacts,
    focus: Option<BrowseInfoFocus>,
    cached: &CachedInfo,
    content_width: usize,
) -> (r: Rows)
    ensures
        r@ == sacd_tag_rows(*facts, focus, *cached, content_width as int),
{
    let meta = &cached.metadata;
    let max: usize = content_width.saturating_sub(3).saturating_sub(11);
    let mut rows = Rows::of(Line::new());
    rows.append(technical_lines(&cached.source, Tone::Purple));
    if meta.album.is_some() || meta.artist.is_some() || meta.genre.is_some() || meta.year.is_some()
        || meta.catalog_number.is_some() {
        rows.push(Line::new());
        append_focusable(
            &mut rows,
            facts,
            focus,
            MetadataField::Artist,
            "   artist  ",
            &meta.artist,
            max,
        );
        append_focusable(
            &mut rows,
            facts,
            focus,
            MetadataField::Album,
            "   album   ",
            &meta.album,
            max,
        );
        append_focusable(
            &mut rows,
            facts,
            focus,
            MetadataField::Genre,
            "   genre   ",
            &meta.genre,
            max,
        );
        append_focusable(
            &mut rows,
            facts,
            focus,
            MetadataField::Year,
            "   year    ",
            &meta.year,
            max,
        );
        append_optional(&mut rows, "   catalog ", &meta.catalog_number, max);
    }
    rows
}

/// The lines for a Super Audio CD image.
pub open spec fn sacd_rows(
    entry: BrowseEntry,
    facts: BrowseFacts,
    focus: Option<BrowseInfoFocus>,
    content_width: int,
    edit_tags_hovered: bool,
    audio_streams_hovered: bool,
) -> RowsV {
    seq![labelled("   kind    "@, "SACD ISO (ScarletBook)"@, text_style())] + disc_rows(
        facts,
        entry.path@,
        entry.size as nat,
        content_width,
        audio_streams_hovered,
    ) + (match facts.cached_info {
        Some(cached) => sacd_tag_rows(facts, focus, cached, content_width),
        None => Seq::empty(),
    }) + pill_rows(" edit tags "@, edit_tags_hovered, content_width)
}

/// The lines that follow the name, for every entry but an audio file.
pub open spec fn kind_rows(
    entry: BrowseEntry,
    facts: BrowseFacts,
    focus: Option<BrowseInfoFocus>,
    content_width: int,
    edit_tags_hovered: bool,
    audio_streams_hovered: bool,
) -> RowsV {
    let size = labelled("   size    "@, size_text(entry.size as nat), text_style());
    match entry.kind {
        EntryKind::ParentDir => seq![seq![sp("   parent directory"@, muted())]],
        EntryKind::Directory => directory_rows(entry, facts, content_width, audio_streams_hovered),
        EntryKind::Archive => seq![labelled("   kind    "@, "archive (7z)"@, text_style()), size],
        EntryKind::SacdIso => sacd_rows(
            entry,
            facts,
            focus,
            content_width,
            edit_tags_hovered,
            audio_streams_hovered,
        ),
        EntryKind::OtherFile => seq![labelled("   kind    "@, "file"@, text_style()), size],
        _ => seq![labelled("   kind    "@, disc_kind(entry.kind), bold_fg(Tone::Purple))]
            + disc_rows(
            facts,
            entry.path@,
            entry.size as nat,
            content_width,
            audio_streams_hovered,
        ),
    }
}

/// Where the disc that an entry stands for is probed, where it stands for one.
pub open spec fn entry_disc(entry: BrowseEntry, facts: BrowseFacts) -> Option<Seq<char>> {
    match entry.kind {
        EntryKind::Directory => match facts.classification {
            Some(class) => if class.kind is Disc {
                Some(disc_path(class, entry.path@))
            } else {
                None
            },
            None => None,
        },
        _ => if entry.disc_source() {
            Some(entry.path@)
        } else {
            None
        },
    }
}

/// The line of the stream chooser among the lines of the entry's kind: one line
/// stands above the summary of the disc, and the chooser is the summary's last.
pub open spec fn streams_row(
    entry: BrowseEntry,
    facts: BrowseFacts,
    content_width: int,
    hovered: bool,
) -> Option<nat> {
    match entry_disc(entry, facts) {
        Some(path) => if offers_streams(facts, path) {
            Some(disc_rows(facts, path, entry.size as nat, content_width, hovered).len())
        } else {
            None
        },
        None => None,
    }
}

/// The mark of a symbolic link.
pub open spec fn symlink_rows(entry: BrowseEntry) -> RowsV {
    if entry.is_symlink {
        seq![
            Seq::<crate::scene::SpanV>::empty(),
            labelled(
                "   "@,
                if entry.is_broken_symlink { "symlink (broken)"@ } else { "symlink"@ },
                fg(if entry.is_broken_symlink { Tone::Destructive } else { Tone::Amber }),
            ),
        ]
    } else {
        Seq::empty()
    }
}

fn directory_lines(
    entry: &BrowseEntry,
    facts: &BrowseFacts,
    content_width: usize,
    hovered: bool,
    streams: &mut Option<usize>,
) -> (r: Rows)
    requires
        entry.kind is Directory,
        *old(streams) is None,
    ensures
        r@ == directory_rows(*entry, *facts, content_width as int, hovered),
        r@.len() <= usize::MAX,
        *final(streams) == match streams_row(*entry, *facts, content_width as int, hovered) {
            Some(row) => Some(row as usize),
            None => None,
        },
        *final(streams) matches Some(row) ==> row < r@.len(),
        streams_row(*entry, *facts, content_width as int, hovered) matches Some(row) ==> row
            < r@.len(),
{
    let mut own = Rows::new();
    match &facts.classification {
        Some(class) => {
            push_folder_classification_lines(
                &mut own,
                class,
                facts,
                entry.path.as_str(),
                entry.size,
                entry.date_label.as_str(),
                content_width,
                hovered,
                streams,
            );
        },
        None => {
            own.push(labelled_line("   kind    ", "directory", text_style()));
            own.push_if(
                is_listed(&facts.classification_pending, entry.path.as_str()),
                labelled_line("   content ", "classifying...", dimmed()),
            );
            push_directory_stats_lines(
                &mut own,
                facts,
                entry.path.as_str(),
                entry.date_label.as_str(),
            );
        },
    }
    proof {
        assert(own@ =~= directory_rows(*entry, *facts, content_width as int, hovered));
    }
    let len: usize = own.len();
    own
}

fn disc_lines(
    facts: &BrowseFacts,
    path: &str,
    size: u64,
    content_width: usize,
    hovered: bool,
    streams: &mut Option<usize>,
    first: Line,
) -> (r: Rows)
    requires
        *old(streams) is None,
    ensures
        r@ == seq![first@] + disc_rows(*facts, path@, size as nat, content_width as int, hovered),
        r@.len() <= usize::MAX,
        *final(streams) == if offers_streams(*facts, path@) {
            Some((r@.len() - 1) as usize)
        } else {
            None
        },
{
    let mut own = Rows::of(first);
    push_disc_probe_summary_lines(&mut own, facts, path, size, content_width, hovered, streams);
    let len: usize = own.len();
    own
}

fn kind_lines(
    entry: &BrowseEntry,
    facts: &BrowseFacts,
    focus: Option<BrowseInfoFocus>,
    content_width: usize,
    edit_tags_hovered: bool,
    audio_streams_hovered: bool,
    streams: &mut Option<usize>,
) -> (r: Rows)
    requires
        !(entry.kind is AudioFile),
        *old(streams) is None,
    ensures
        r@ == kind_rows(
            *entry,
            *facts,
            focus,
            content_width as int,
            edit_tags_hovered,
            audio_streams_hovered,
        ),
        *final(streams) == match streams_row(
            *entry,
            *facts,
            content_width as int,
            audio_streams_hovered,
        ) {
            Some(row) => Some(row as usize),
            None => None,
        },
        streams_row(*entry, *facts, content_width as int, audio_streams_hovered) matches Some(row)
            ==> row < r@.len(),
{
    let size = size_str(entry.size);
    match &entry.kind {
        EntryKind::ParentDir => Rows::of(line1("   parent directory", muted())),
        EntryKind::Directory => directory_lines(
            entry,
            facts,
            content_width,
            audio_streams_hovered,
            streams,
        ),
        EntryKind::Archive => {
            let mut own = Rows::new();
            own.push(labelled_line("   kind    ", "archive (7z)", text_style()));
            own.push(labelled_line("   size    ", size.as_str(), text_style()));
            own
        },
        EntryKind::SacdIso => {
            let mut own = disc_lines(
                facts,
                entry.path.as_str(),
                entry.size,
                content_width,
                audio_streams_hovered,
                streams,
                labelled_line("   kind    ", "SACD ISO (ScarletBook)", text_style()),
            );
            match &facts.cached_info {
                Some(cached) => {
                    own.append(sacd_tag_lines(facts, focus, cached, content_width));
                },
                None => {
                    own.append(Rows::new());
                },
            }
            own.append(pill_lines(" edit tags ", edit_tags_hovered, content_width));
            own
        },
        EntryKind::OtherFile => {
            let mut own = Rows::new();
            own.push(labelled_line("   kind    ", "file", text_style()));
            own.push(labelled_line("   size    ", size.as_str(), text_style()));
            own
        },
        _ => {
            let kind = match &entry.kind {
                EntryKind::DvdAudioIso => "DVD-Audio ISO",
                EntryKind::DvdAudioDir => "DVD-Audio directory",
                EntryKind::DvdVideoIso => "DVD-Video ISO",
                EntryKind::DvdVideoDir => "DVD-Video directory",
                EntryKind::BlurayIso => "Blu-ray ISO",
                _ => "Blu-ray directory",
            };
            disc_lines(
                facts,
                entry.path.as_str(),
                entry.size,
                content_width,
                audio_streams_hovered,
                streams,
                labelled_line("   kind    ", kind, bold_fg(Tone::Purple)),
            )
        },
    }
}

fn symlink_lines(entry: &BrowseEntry) -> (r: Rows)
    ensures
        r@ == symlink_rows(*entry),
{
    let mut rows = Rows::new();
    if entry.is_symlink {
        rows.push(Line::new());
        let label = if entry.is_broken_symlink { "symlink (broken)" } else { "symlink" };
        let tone = if entry.is_broken_symlink { Tone::Destructive } else { Tone::Amber };
        rows.push(labelled_line("   ", label, fg(tone)));
    }
    proof {
        assert(rows@ =~= symlink_rows(*entry));
    }
    rows
}

fn other_entry(
    entry: &BrowseEntry,
    facts: &BrowseFacts,
    content_width: usize,
    edit_tags_hovered: bool,
    audio_streams_hovered: bool,
    focus: Option<BrowseInfoFocus>,
) -> (r: InfoContent)
    requires
        !(entry.kind is AudioFile),
    ensures
        r@ == unmarked_info(
            *entry,
            *facts,
            content_width,
            false,
            edit_tags_hovered,
            audio_streams_hovered,
            None,
            focus,
        ),
{
    let mut rows = name_lines(entry, content_width.saturating_sub(3));
    let ghost head = rows@;
    let mut own_streams: Option<usize> = None;
    let own = kind_lines(
        entry,
        facts,
        focus,
        content_width,
        edit_tags_hovered,
        audio_streams_hovered,
        &mut own_streams,
    );
    let above: usize = rows.len();
    rows.append(own);
    let total: usize = rows.len();
    let streams: Option<usize> = match own_streams {
        Some(row) => Some(above + row),
        None => None,
    };
    let edit_tags_row: Option<usize> = match &entry.kind {
        EntryKind::SacdIso => Some(total - 1),
        _ => None,
    };
    let places: Vec<(MetadataField, usize)> = Vec::new();
    let r = InfoContent {
        lines: rows,
        meta_field_rows: places,
        analyze_pill_row: None,
        edit_tags_pill_row: edit_tags_row,
        audio_streams_pill_row: streams,
        inline_cursor: None,
    };
    proof {
        let want = unmarked_info(
            *entry,
            *facts,
            content_width,
            false,
            edit_tags_hovered,
            audio_streams_hovered,
            None,
            focus,
        );
        assert(r@.lines == want.lines);
        assert(r@.meta_field_rows == want.meta_field_rows);
        assert(r@.edit_tags_pill_row == want.edit_tags_pill_row);
        assert(r@.audio_streams_pill_row == want.audio_streams_pill_row);
    }
    r
}

/// The info pane of `entry`, without the mark of a symbolic link.
pub open spec fn unmarked_info(
    entry: BrowseEntry,
    facts: BrowseFacts,
    content_width: usize,
    analyze_hovered: bool,
    edit_tags_hovered: bool,
    audio_streams_hovered: bool,
    inline: Option<&BrowseInlineEditState>,
    focus: Option<BrowseInfoFocus>,
) -> InfoContentV {
    let w = content_width as int;
    match entry.kind {
        EntryKind::AudioFile(format) => match facts.cached_info {
            Some(cached) => probed_audio_info(
                MetaContext {
                    entry: &entry,
                    facts: &facts,
                    inline,
                    focus,
                    max: minus(minus(w, 3), 11) as usize,
                },
                cached,
                w,
                analyze_hovered,
                edit_tags_hovered,
            ),
            None => unprobed_audio_info(
                entry,
                facts,
                format@,
                w,
                analyze_hovered,
                edit_tags_hovered,
            ),
        },
        _ => {
            let head = name_rows(entry, minus(w, 3));
            let body = head + kind_rows(
                entry,
                facts,
                focus,
                w,
                edit_tags_hovered,
                audio_streams_hovered,
            );
            InfoContentV {
                lines: body,
                meta_field_rows: Seq::empty(),
                analyze_pill_row: None,
                edit_tags_pill_row: if entry.kind is SacdIso {
                    Some((body.len() - 1) as usize)
                } else {
                    None
                },
                audio_streams_pill_row: match streams_row(entry, facts, w, audio_streams_hovered) {
                    Some(row) => Some((head.len() + row) as usize),
                    None => None,
                },
                inline_cursor: None,
            }
        },
    }
}

/// The info pane of `entry`, whatever its kind: a symbolic link is marked last.
pub open spec fn entry_info(
    entry: BrowseEntry,
    facts: BrowseFacts,
    content_width: usize,
    analyze_hovered: bool,
    edit_tags_hovered: bool,
    audio_streams_hovered: bool,
    inline: Option<&BrowseInlineEditState>,
    focus: Option<BrowseInfoFocus>,
) -> InfoContentV {
    let info = unmarked_info(
        entry,
        facts,
        content_width,
        analyze_hovered,
        edit_tags_hovered,
        audio_streams_hovered,
        inline,
        focus,
    );
    InfoContentV { lines: info.lines + symlink_rows(entry), ..info }
}

/// A symbolic link of any kind is marked in the last two lines of its pane.
pub proof fn every_symlink_is_marked(
    entry: BrowseEntry,
    facts: BrowseFacts,
    content_width: usize,
    analyze_hovered: bool,
    edit_tags_hovered: bool,
    audio_streams_hovered: bool,
    inline: Option<&BrowseInlineEditState>,
    focus: Option<BrowseInfoFocus>,
)
    requires
        entry.is_symlink,
    ensures
        ({
            let lines = entry_info(
                entry,
                facts,
                content_width,
                analyze_hovered,
                edit_tags_hovered,
                audio_streams_hovered,
                inline,
                focus,
            ).lines;
            let mark = lines[lines.len() - 1];
            &&& lines.len() >= 2
            &&& lines[lines.len() - 2].len() == 0
            &&& mark.len() == 2
            &&& mark[0].text == "   "@
            &&& mark[1].text == if entry.is_broken_symlink {
                "symlink (broken)"@
            } else {
                "symlink"@
            }
        }),
{
}

/// `row`, where there is one, is a line of `lines` that ends in `label`.
pub open spec fn pill_on(lines: RowsV, row: Option<usize>, label: Seq<char>) -> bool {
    match row {
        Some(i) => i < lines.len() && lines[i as int].len() > 0 && lines[i as int].last().text
            == label,
        None => true,
    }
}

/// Every row that is given for a pill is a line that ends in that pill; an audio file can
/// be analysed, and its tags and those of a Super Audio CD image can be edited.
pub open spec fn pills_in_place(entry: BrowseEntry, info: InfoContentV) -> bool {
    &&& info.analyze_pill_row is Some <==> entry.kind is AudioFile
    &&& info.edit_tags_pill_row is Some <==> (entry.kind is AudioFile || entry.kind is SacdIso)
    &&& pill_on(info.lines, info.analyze_pill_row, " analyze "@)
    &&& pill_on(info.lines, info.edit_tags_pill_row, " edit tags "@)
    &&& pill_on(info.lines, info.audio_streams_pill_row, " audio streams "@)
}

/// A disc with streams to choose from is shown with their chooser last.
proof fn lemma_streams_are_last(
    facts: BrowseFacts,
    path: Seq<char>,
    size: nat,
    content_width: int,
    hovered: bool,
)
    requires
        offers_streams(facts, path),
    ensures
        ({
            let rows = disc_rows(facts, path, size, content_width, hovered);
            &&& rows.len() > 0
            &&& rows.last() == pill(" audio streams "@, hovered, content_width)
        }),
{
}

/// The stream chooser is on its row among the lines of the entry's kind.
proof fn lemma_streams_row(
    entry: BrowseEntry,
    facts: BrowseFacts,
    focus: Option<BrowseInfoFocus>,
    content_width: int,
    edit_tags_hovered: bool,
    hovered: bool,
)
    requires
        !(entry.kind is AudioFile),
    ensures
        match streams_row(entry, facts, content_width, hovered) {
            Some(row) => {
                let rows = kind_rows(
                    entry,
                    facts,
                    focus,
                    content_width,
                    edit_tags_hovered,
                    hovered,
                );
                row < rows.len() && rows[row as int] == pill(
                    " audio streams "@,
                    hovered,
                    content_width,
                )
            },
            None => true,
        },
{
    if let Some(path) = entry_disc(entry, facts) {
        if offers_streams(facts, path) {
            let disc = disc_rows(facts, path, entry.size as nat, content_width, hovered);
            lemma_streams_are_last(facts, path, entry.size as nat, content_width, hovered);
            let rows = kind_rows(entry, facts, focus, content_width, edit_tags_hovered, hovered);
            assert(rows[disc.len() as int] == disc[disc.len() - 1]);
        }
    }
}

/// A pill is the second line behind those before it.
proof fn lemma_pill_after(front: RowsV, label: Seq<char>, hovered: bool, w: int, back: RowsV)
    ensures
        ({
            let lines = front + pill_rows(label, hovered, w) + back;
            &&& lines.len() == front.len() + 2 + back.len()
            &&& lines[(front.len() + 1) as int] == pill(label, hovered, w)
            &&& lines[(front.len() + 1) as int].last().text == label
            &&& lines[(front.len() + 1) as int].len() == 2
        }),
{
}

proof fn lemma_probed_pills(
    ctx: MetaContext,
    cached: CachedInfo,
    w: int,
    analyze_hovered: bool,
    edit_tags_hovered: bool,
)
    requires
        ctx.entry.kind is AudioFile,
        probed_audio_info(ctx, cached, w, analyze_hovered, edit_tags_hovered).lines.len()
            <= usize::MAX,
    ensures
        pills_in_place(
            *ctx.entry,
            probed_audio_info(ctx, cached, w, analyze_hovered, edit_tags_hovered),
        ),
{
    let info = probed_audio_info(ctx, cached, w, analyze_hovered, edit_tags_hovered);
    let max = minus(w, 3);
    let front = name_rows(*ctx.entry, max) + technical_rows(cached.source, Tone::Blue)
        + finding_rows(cached.metadata, max) + loudness_rows(cached.metadata, max);
    let measured = front + pill_rows(" analyze "@, analyze_hovered, w);
    let tags = tag_rows(ctx, cached.metadata);
    let tagged = measured.push(Seq::empty()) + tags;
    lemma_pill_after(front, " analyze "@, analyze_hovered, w, Seq::empty());
    lemma_pill_after(tagged, " edit tags "@, edit_tags_hovered, w, Seq::empty());
    assert(front + pill_rows(" analyze "@, analyze_hovered, w) + Seq::empty() =~= measured);
    assert(tagged + pill_rows(" edit tags "@, edit_tags_hovered, w) + Seq::empty() =~= info.lines);
    assert(info.lines[measured.len() - 1] == measured[measured.len() - 1]);
}

proof fn lemma_unprobed_pills(
    entry: BrowseEntry,
    facts: BrowseFacts,
    format: Seq<char>,
    w: int,
    analyze_hovered: bool,
    edit_tags_hovered: bool,
)
    requires
        entry.kind is AudioFile,
        unprobed_audio_info(
            entry,
            facts,
            format,
            w,
            analyze_hovered,
            edit_tags_hovered,
        ).lines.len() <= usize::MAX,
    ensures
        pills_in_place(
            entry,
            unprobed_audio_info(entry, facts, format, w, analyze_hovered, edit_tags_hovered),
        ),
{
    let info = unprobed_audio_info(entry, facts, format, w, analyze_hovered, edit_tags_hovered);
    let front = name_rows(entry, minus(w, 3)) + seq![
        labelled("   format  "@, format, bold_fg(Tone::Blue)),
        labelled("   size    "@, size_text(entry.size as nat), text_style()),
    ] + archive_rows(facts, entry.path@);
    let basic = front + pill_rows(" analyze "@, analyze_hovered, w);
    let back = pill_rows(" edit tags "@, edit_tags_hovered, w);
    lemma_pill_after(front, " analyze "@, analyze_hovered, w, back);
    lemma_pill_after(basic, " edit tags "@, edit_tags_hovered, w, Seq::empty());
    assert(basic + back + Seq::empty() =~= info.lines);
}

proof fn lemma_other_pills(
    entry: BrowseEntry,
    facts: BrowseFacts,
    content_width: usize,
    edit_tags_hovered: bool,
    hovered: bool,
    inline: Option<&BrowseInlineEditState>,
    focus: Option<BrowseInfoFocus>,
)
    requires
        !(entry.kind is AudioFile),
        unmarked_info(
            entry,
            facts,
            content_width,
            false,
            edit_tags_hovered,
            hovered,
            inline,
            focus,
        ).lines.len() <= usize::MAX,
    ensures
        pills_in_place(
            entry,
            unmarked_info(
                entry,
                facts,
                content_width,
                false,
                edit_tags_hovered,
                hovered,
                inline,
                focus,
            ),
        ),
{
    let w = content_width as int;
    let head = name_rows(entry, minus(w, 3));
    let rows = kind_rows(entry, facts, focus, w, edit_tags_hovered, hovered);
    let lines = head + rows;
    lemma_streams_row(entry, facts, focus, w, edit_tags_hovered, hovered);
    if let Some(row) = streams_row(entry, facts, w, hovered) {
        assert(lines[(head.len() + row) as int] == rows[row as int]);
    }
    if entry.kind is SacdIso {
        assert(rows == sacd_rows(entry, facts, focus, w, edit_tags_hovered, hovered));
        assert(rows.last() == pill(" edit tags "@, edit_tags_hovered, w));
        assert(lines[head.len() + rows.len() - 1] == rows.last());
    }
}

/// The pills of the pane are on the rows that are given for them, as long as the number of
/// lines is one that a list can have.
pub proof fn pills_are_on_their_rows(
    entry: BrowseEntry,
    facts: BrowseFacts,
    content_width: usize,
    analyze_hovered: bool,
    edit_tags_hovered: bool,
    audio_streams_hovered: bool,
    inline: Option<&BrowseInlineEditState>,
    focus: Option<BrowseInfoFocus>,
)
    requires
        entry_info(
            entry,
            facts,
            content_width,
            analyze_hovered,
            edit_tags_hovered,
            audio_streams_hovered,
            inline,
            focus,
        ).lines.len() <= usize::MAX,
    ensures
        pills_in_place(
            entry,
            entry_info(
                entry,
                facts,
                content_width,
                analyze_hovered,
                edit_tags_hovered,
                audio_streams_hovered,
                inline,
                focus,
            ),
        ),
{
    let w = content_width as int;
    let info = unmarked_info(
        entry,
        facts,
        content_width,
        analyze_hovered,
        edit_tags_hovered,
        audio_streams_hovered,
        inline,
        focus,
    );
    let lines = info.lines + symlink_rows(entry);
    assert(forall|i: int| 0 <= i < info.lines.len() ==> #[trigger] lines[i] == info.lines[i]);
    match entry.kind {
        EntryKind::AudioFile(format) => match facts.cached_info {
            Some(cached) => lemma_probed_pills(
                MetaContext {
                    entry: &entry,
                    facts: &facts,
                    inline,
                    focus,
                    max: minus(minus(w, 3), 11) as usize,
                },
                cached,
                w,
                analyze_hovered,
                edit_tags_hovered,
            ),
            None => lemma_unprobed_pills(
                entry,
                facts,
                format@,
                w,
                analyze_hovered,
                edit_tags_hovered,
            ),
        },
        _ => lemma_other_pills(
            entry,
            facts,
            content_width,
            edit_tags_hovered,
            audio_streams_hovered,
            inline,
            focus,
        ),
    }
}

/// The info pane of `entry`, in `content_width` columns between the borders.
pub fn entry_info_lines(
    entry: &BrowseEntry,
    facts: &BrowseFacts,
    content_width: usize,
    analyze_hovered: bool,
    edit_tags_hovered: bool,
    audio_streams_hovered: bool,
    inline_edit: Option<&BrowseInlineEditState>,
    info_focus: Option<BrowseInfoFocus>,
) -> (r: InfoContent)
    ensures
        r@ == entry_info(
            *entry,
            *facts,
            content_width,
            analyze_hovered,
            edit_tags_hovered,
            audio_streams_hovered,
            inline_edit,
            info_focus,
        ),
        pills_in_place(*entry, r@),
{
    let max: usize = content_width.saturating_sub(3);
    let mut r = match &entry.kind {
        EntryKind::AudioFile(format) => match &facts.cached_info {
            Some(cached) => {
                let ctx = MetaContext {
                    entry,
                    facts,
                    inline: inline_edit,
                    focus: info_focus,
                    max: max.saturating_sub(11),
                };
                probed_audio(&ctx, cached, content_width, analyze_hovered, edit_tags_hovered)
            },
            None => unprobed_audio(
                entry,
                facts,
                format.as_str(),
                content_width,
                analyze_hovered,
                edit_tags_hovered,
            ),
        },
        _ => other_entry(
            entry,
            facts,
            content_width,
            edit_tags_hovered,
            audio_streams_hovered,
            info_focus,
        ),
    };
    r.lines.append(symlink_lines(entry));
    proof {
        assert(r.lines.lines.len() == r@.lines.len());
        assert(r@ == entry_info(
            *entry,
            *facts,
            content_width,
            analyze_hovered,
            edit_tags_hovered,
            audio_streams_hovered,
            inline_edit,
            info_focus,
        ));
        pills_are_on_their_rows(
            *entry,
            *facts,
            content_width,
            analyze_hovered,
            edit_tags_hovered,
            audio_streams_hovered,
            inline_edit,
            info_focus,
        );
    }
    r
}

/// The place of line `row` inside the pane `area`.
pub open spec fn info_row_rect(area: Rect, row: int) -> Rect {
    Rect {
        x: plus16(area.x as int, 1) as u16,
        y: plus16(plus16(area.y as int, 1), low16(row)) as u16,
        width: (area.width - 2) as u16,
        height: 1,
    }
}

/// The first `n` metadata fields that are on the first `height` lines.
pub open spec fn field_hits(
    area: Rect,
    places: Seq<(MetadataField, usize)>,
    height: int,
    n: nat,
) -> Seq<Hit>
    decreases n,
{
    if n == 0 || n > places.len() {
        Seq::empty()
    } else {
        field_hits(area, places, height, (n - 1) as nat) + hit_if(
            places[n - 1].1 < height,
            TuiButton::BrowseInfoMeta(places[n - 1].0),
            info_row_rect(area, places[n - 1].1 as int),
        )
    }
}

/// A button on line `row`, where there is such a line among the first `height`.
pub open spec fn row_hit(area: Rect, row: Option<usize>, height: int, button: TuiButton) -> Seq<Hit> {
    match row {
        Some(at) => hit_if(at < height, button, info_row_rect(area, at as int)),
        None => Seq::empty(),
    }
}

fn row_rect(area: Rect, row: usize) -> (r: Rect)
    requires
        area.width >= 2,
    ensures
        r == info_row_rect(area, row as int),
{
    Rect {
        x: area.x.saturating_add(1),
        y: area.y.saturating_add(1).saturating_add(to_u16(row)),
        width: area.width - 2,
        height: 1,
    }
}

fn record_row(
    buttons: &mut ButtonRenderMap,
    area: Rect,
    row: Option<usize>,
    height: usize,
    button: TuiButton,
)
    requires
        area.width >= 2,
    ensures
        final(buttons)@ == old(buttons)@ + row_hit(area, row, height as int, button),
{
    match row {
        Some(at) => {
            buttons.record_if(at < height, button, row_rect(area, at));
        },
        None => {
            proof {
                assert(old(buttons)@ + Seq::<Hit>::empty() =~= old(buttons)@);
            }
        },
    }
}

/// The pane without a selected entry.
pub open spec fn no_selection_info() -> InfoContentV {
    InfoContentV {
        lines: seq![seq![sp("   (no selection)"@, muted())]],
        meta_field_rows: Seq::empty(),
        analyze_pill_row: None,
        edit_tags_pill_row: None,
        audio_streams_pill_row: None,
        inline_cursor: None,
    }
}

/// What the info pane shows.
pub open spec fn shown_info(
    area: Rect,
    entry: Option<&BrowseEntry>,
    facts: BrowseFacts,
    inline: Option<&BrowseInlineEditState>,
    focus: Option<BrowseInfoFocus>,
    hover: Option<TuiButton>,
) -> InfoContentV {
    match entry {
        Some(selected) => entry_info(
            *selected,
            facts,
            minus(area.width as int, 2) as usize,
            hover == Some(TuiButton::BrowseInfoAnalyze),
            hover == Some(TuiButton::BrowseInfoEditTags),
            hover == Some(TuiButton::BrowseInfoAudioStreams),
            inline,
            focus,
        ),
        None => no_selection_info(),
    }
}

/// The info pane on the screen.
pub open spec fn info_scene(area: Rect, info: InfoContentV) -> SceneV {
    let height = minus(area.height as int, 2);
    let w = area.width as int;
    let rows = seq![title_bar(Tone::Amber, on(Tone::Bg, Tone::Amber), "▾ info "@, w)] + framed(
        Tone::Amber,
        w,
        info.lines,
        height as nat,
    ) + seq![bottom_edge(Tone::Amber, w)];
    let painted = seq![text_op(area, rows, plain())];
    match info.inline_cursor {
        Some((line, col)) => if line < height {
            painted.push(
                (OpV::Cursor {
                    x: plus16(plus16(area.x as int, 1), col as int) as u16,
                    y: plus16(plus16(area.y as int, 1), low16(line as int)) as u16,
                }),
            )
        } else {
            painted
        },
        None => painted,
    }
}

/// The clickable parts of the info pane.
pub open spec fn info_hits(area: Rect, info: InfoContentV) -> Seq<Hit> {
    let height = minus(area.height as int, 2);
    field_hits(area, info.meta_field_rows, height, info.meta_field_rows.len()) + row_hit(
        area,
        info.analyze_pill_row,
        height,
        TuiButton::BrowseInfoAnalyze,
    ) + row_hit(area, info.edit_tags_pill_row, height, TuiButton::BrowseInfoEditTags) + row_hit(
        area,
        info.audio_streams_pill_row,
        height,
        TuiButton::BrowseInfoAudioStreams,
    )
}

/// The info pane is shown only in an area of at least this size.
pub open spec fn info_fits(area: Rect) -> bool {
    area.height >= 4 && area.width >= 15
}

/// Draws the info pane for the selected entry.
pub fn draw_browse_info(
    f: &mut Scene,
    area: Rect,
    entry: Option<&BrowseEntry>,
    facts: &BrowseFacts,
    inline_edit: Option<&BrowseInlineEditState>,
    info_focus: Option<BrowseInfoFocus>,
    buttons: &mut ButtonRenderMap,
    hover: Option<TuiButton>,
)
    ensures
        final(f)@ == if info_fits(area) {
            old(f)@ + info_scene(
                area,
                shown_info(area, entry, *facts, inline_edit, info_focus, hover),
            )
        } else {
            old(f)@
        },
        final(buttons)@ == if info_fits(area) {
            old(buttons)@ + info_hits(
                area,
                shown_info(area, entry, *facts, inline_edit, info_focus, hover),
            )
        } else {
            old(buttons)@
        },
{
    if area.height < 4 || area.width < 15 {
        return;
    }
    let w: usize = area.width as usize;
    let height: usize = (area.height as usize).saturating_sub(2);
    let info = match entry {
        Some(selected) => entry_info_lines(
            selected,
            facts,
            w.saturating_sub(2),
            hover == Some(TuiButton::BrowseInfoAnalyze),
            hover == Some(TuiButton::BrowseInfoEditTags),
            hover == Some(TuiButton::BrowseInfoAudioStreams),
            inline_edit,
            info_focus,
        ),
        None => {
            let places: Vec<(MetadataField, usize)> = Vec::new();
            InfoContent {
                lines: Rows::of(line1("   (no selection)", muted())),
                meta_field_rows: places,
                analyze_pill_row: None,
                edit_tags_pill_row: None,
                audio_streams_pill_row: None,
                inline_cursor: None,
            }
        },
    };
    let ghost want = shown_info(area, entry, *facts, inline_edit, info_focus, hover);
    assert(info@ == want);
    let mut rows = Rows::of(
        title_bar_line(Tone::Amber, on(Tone::Bg, Tone::Amber), "▾ info ", w),
    );
    rows.append(framed_lines(Tone::Amber, w, &info.lines, height));
    rows.append(Rows::of(bottom_line(Tone::Amber, w)));
    let mut painted = Scene::new();
    painted.text(area, rows, plain());
    match info.inline_cursor {
        Some((line, col)) => {
            if line < height {
                painted.cursor(
                    area.x.saturating_add(1).saturating_add(col),
                    area.y.saturating_add(1).saturating_add(to_u16(line)),
                );
            }
        },
        None => {},
    }
    f.append(painted);
    let mut hits = ButtonRenderMap::new();
    for i in 0..info.meta_field_rows.len()
        invariant
            area.width >= 15,
            hits@ == field_hits(area, info.meta_field_rows@, height as int, i as nat),
    {
        let (field, line) = info.meta_field_rows[i];
        hits.record_if(line < height, TuiButton::BrowseInfoMeta(field), row_rect(area, line));
    }
    record_row(&mut hits, area, info.analyze_pill_row, height, TuiButton::BrowseInfoAnalyze);
    record_row(&mut hits, area, info.edit_tags_pill_row, height, TuiButton::BrowseInfoEditTags);
    record_row(
        &mut hits,
        area,
        info.audio_streams_pill_row,
        height,
        TuiButton::BrowseInfoAudioStreams,
    );
    buttons.append(hits);
}

} // verus!
