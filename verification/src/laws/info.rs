//! The info pane: what it says is what is known of the entry.

use crate::browse::{
    archive_index, ArchiveEntry, BrowseEntry, BrowseFacts, BrowseInfoFocus, BrowseInlineEditState,
    BrowseInlineEditTarget, CachedInfo, EntryKind, FolderAudioSummary, FolderContentClassification,
    PreemphasisAdvisory, PreemphasisConfidence, SourceInfo, SourceMetadata,
};
use crate::button_map::{MetadataField, TuiButton};
use crate::disc::{known_contents, known_error, DiscContents};
use crate::display_width::{shown_width, truncated_right};
use crate::draw_browse::info::{
    archive_rows, audio_headline, audio_tail, classification_rows, counted, directory_stats_rows,
    disc_contents_rows, disc_rows, editing_disabled, entry_info, field_editor, field_hits,
    finding_rows, hdcd_row, info_hits, info_scene, loudness_rows, loudness_values, name_rows,
    pill_rows, preemphasis_text, probed_audio_info, sacd_tag_rows, tag_cursor, tag_places, tag_rows,
    technical_rows, text_rows, InfoContentV, MetaContext,
};
use crate::geometry::Rect;
use crate::size::size_text;
use crate::style::Tone;
use crate::text::{decimal, joined_upto, minus, same_but_case, trimmed};
use vstd::prelude::*;

verus! {

/// A count is the number and the word for it, in the singular for one alone.
pub proof fn counts_begin_with_the_number(n: nat, one: Seq<char>, many: Seq<char>)
    ensures
        decimal(n).is_prefix_of(counted(n, one, many)),
        n == 1 ==> one.is_suffix_of(counted(n, one, many)),
        n != 1 ==> many.is_suffix_of(counted(n, one, many)),
{
    let r = counted(n, one, many);
    assert(decimal(n) =~= r.subrange(0, decimal(n).len() as int));
    let word = if n == 1 { one } else { many };
    assert(word =~= r.subrange(r.len() - word.len(), r.len() as int));
}

/// The rows on a directory give its own counts of folders, files and audio files, and the sizes of
/// all files and of the audio files, each on its row; they say that it is being computed only
/// while it is.
pub proof fn directory_rows_give_its_counts(facts: BrowseFacts, path: Seq<char>, date: Seq<char>)
    ensures
        ({
            let rows = directory_stats_rows(facts, path, date);
            &&& (facts.dir_stats matches Some(stats) ==> {
                let folders = decimal(stats.folder_count as nat) + " "@ + if stats.folder_count
                    == 1 {
                    "folder"@
                } else {
                    "folders"@
                };
                let files = decimal(stats.file_count as nat) + " "@ + if stats.file_count == 1 {
                    "file"@
                } else {
                    "files"@
                };
                let audio = decimal(stats.audio_count as nat) + " "@ + if stats.audio_count == 1 {
                    "audio file"@
                } else {
                    "audio files"@
                };
                &&& rows[0][1].text == folders
                &&& (stats.total_size == 0 ==> rows[1][1].text == files)
                &&& (stats.total_size > 0 ==> rows[1][1].text == files + (" ("@ + size_text(
                    stats.total_size as nat,
                ) + ")"@))
                &&& (stats.audio_size == 0 ==> rows[2][1].text == audio)
                &&& (stats.audio_size > 0 ==> rows[2][1].text == audio + (" ("@ + size_text(
                    stats.audio_size as nat,
                ) + ")"@))
                &&& (date.len() > 0 ==> rows.len() == 4 && rows[3][1].text == date)
                &&& (date.len() == 0 ==> rows.len() == 3)
            })
            &&& (facts.dir_stats is None ==> (rows.len() == 1 <==> exists|i: int|
                0 <= i < facts.dir_stats_pending@.len() && (
                #[trigger] facts.dir_stats_pending@[i])@ == path))
        }),
{
}

/// The rows on a source give its format, its codec, its size, and what else is known of it.
pub proof fn technical_rows_give_the_facts(info: SourceInfo, tone: Tone)
    ensures
        ({
            let rows = technical_rows(info, tone);
            let rate = if info.sample_rate > 0 { 1int } else { 0 };
            let channels = if info.channels > 0 { 1int } else { 0 };
            let duration = if info.duration_display is Some { 1int } else { 0 };
            let n = 3 + rate + channels + duration;
            &&& rows.len() == n
            &&& rows[0][0].text == "   format  "@ && rows[0][1].text == info.format_name@
            &&& rows[1][0].text == "   codec   "@ && rows[1][1].text == info.codec_display@
            &&& (info.sample_rate > 0 ==> rows[2][0].text == "   rate    "@ && rows[2][1].text
                == info.sample_rate_display@)
            &&& (info.channels > 0 ==> rows[2 + rate][0].text == "   channels"@ && rows[2
                + rate][2].text == info.channels_display@)
            &&& (info.duration_display matches Some(d) ==> rows[2 + rate + channels][0].text
                == "   duration"@ && rows[2 + rate + channels][2].text == d@)
            &&& rows[n - 1][0].text == "   size    "@ && rows[n - 1][1].text == info.size_display@
        }),
{
}

/// The value that the tags of a file have for a field.
pub open spec fn tag_value(meta: SourceMetadata, field: MetadataField) -> Option<String> {
    match field {
        MetadataField::Title => meta.title,
        MetadataField::Artist => meta.artist,
        MetadataField::Album => meta.album,
        MetadataField::Genre => meta.genre,
        MetadataField::Year => meta.year,
    }
}

/// What stands before the value of a field.
pub open spec fn tag_label(field: MetadataField) -> Seq<char> {
    match field {
        MetadataField::Title => "   title   "@,
        MetadataField::Artist => "   artist  "@,
        MetadataField::Album => "   album   "@,
        MetadataField::Genre => "   genre   "@,
        MetadataField::Year => "   year    "@,
    }
}

/// The open editor is the one of this field of this entry.
pub open spec fn edits_tag(
    entry: BrowseEntry,
    inline: Option<&BrowseInlineEditState>,
    field: MetadataField,
) -> bool {
    match inline {
        Some(state) => match state.target {
            BrowseInlineEditTarget::Metadata { path, field: active } => path@ == entry.path@
                && active == field,
            _ => false,
        },
        None => false,
    }
}

proof fn lemma_tags(
    ctx: MetaContext,
    cached: CachedInfo,
    width: int,
    analyze: bool,
    edit: bool,
) -> (base: nat)
    requires
        !editing_disabled(*ctx.facts),
    ensures
        ({
            let info = probed_audio_info(ctx, cached, width, analyze, edit);
            &&& base <= 40
            &&& info.meta_field_rows == tag_places(base)
            &&& info.inline_cursor == tag_cursor(ctx, base)
            &&& info.lines.len() >= base + 5
            &&& forall|j: int|
                0 <= j < 5 ==> #[trigger] info.lines[base + j] == tag_rows(ctx, cached.metadata)[j]
        }),
{
    let max = minus(width, 3);
    let measured = name_rows(*ctx.entry, max) + technical_rows(cached.source, Tone::Blue)
        + finding_rows(cached.metadata, max) + loudness_rows(cached.metadata, max) + pill_rows(
        " analyze "@,
        analyze,
        width,
    );
    technical_rows_give_the_facts(cached.source, Tone::Blue);
    assert(finding_rows(cached.metadata, max).len() <= 2);
    every_level_has_its_row(cached.metadata, minus(max, 11));
    assert(loudness_rows(cached.metadata, max).len() <= 8);
    assert(measured.len() <= 39);
    let base = measured.len() + 1;
    let info = probed_audio_info(ctx, cached, width, analyze, edit);
    assert forall|j: int| 0 <= j < 5 implies #[trigger] info.lines[base + j] == tag_rows(
        ctx,
        cached.metadata,
    )[j] by {
        assert((measured.push(Seq::empty()) + tag_rows(ctx, cached.metadata))[base + j]
            == tag_rows(ctx, cached.metadata)[j]);
    }
    base
}

proof fn lemma_tag_row(ctx: MetaContext, meta: SourceMetadata, k: int)
    requires
        !editing_disabled(*ctx.facts),
        0 <= k < 5,
    ensures
        ({
            let field = tag_places(0)[k].0;
            let line = tag_rows(ctx, meta)[k];
            let value = tag_value(meta, field);
            &&& line[0].text == tag_label(field)
            &&& (!edits_tag(*ctx.entry, ctx.inline, field) ==> {
                &&& (value matches Some(text) ==> shown_width(text@) <= ctx.max ==> line[1].text
                    == text@)
                &&& (value is None ==> line[1].text == "(click to add)"@ || line[1].text
                    == "(type to add)"@)
            })
            &&& (edits_tag(*ctx.entry, ctx.inline, field) ==> line.len() == 4)
        }),
{
}

proof fn lemma_tag_cursor(ctx: MetaContext, base: nat, k: int)
    requires
        !editing_disabled(*ctx.facts),
        0 <= k < 5,
        base <= 40,
    ensures
        edits_tag(*ctx.entry, ctx.inline, tag_places(base)[k].0) ==> (tag_cursor(ctx, base) matches Some(
            (row, _),
        ) && row == base + k),
{
    let field = tag_places(base)[k].0;
    if edits_tag(*ctx.entry, ctx.inline, field) {
        assert(forall|other: MetadataField|
            other != field ==> #[trigger] field_editor(*ctx.entry, *ctx.facts, ctx.inline, other)
                is None);
    }
}

/// Of an audio file whose tags can be edited here, each of the five tags has one row that clicks
/// go by, and that row shows its value: as it is where it fits, or in its editor with the cursor on
/// that row.
pub proof fn every_tag_is_on_its_row(
    entry: BrowseEntry,
    facts: BrowseFacts,
    content_width: usize,
    hovers: (bool, bool, bool),
    inline: Option<&BrowseInlineEditState>,
    focus: Option<BrowseInfoFocus>,
    k: int,
)
    requires
        entry.kind is AudioFile,
        facts.cached_info is Some,
        !facts.in_archive || facts.archive_staging_active,
        0 <= k < 5,
    ensures
        ({
            let info = entry_info(
                entry,
                facts,
                content_width,
                hovers.0,
                hovers.1,
                hovers.2,
                inline,
                focus,
            );
            let (field, row) = info.meta_field_rows[k];
            let line = info.lines[row as int];
            let value = tag_value(facts.cached_info->0.metadata, field);
            &&& info.meta_field_rows.len() == 5
            &&& forall|j: int|
                0 <= j < 5 && j != k ==> (#[trigger] info.meta_field_rows[j]).0 != field
                    && info.meta_field_rows[j].1 != row
            &&& row < info.lines.len()
            &&& line[0].text == tag_label(field)
            &&& (!edits_tag(entry, inline, field) ==> {
                &&& (value matches Some(text) ==> shown_width(text@) <= content_width - 14
                    ==> line[1].text == text@)
                &&& (value is None ==> line[1].text == "(click to add)"@ || line[1].text
                    == "(type to add)"@)
            })
            &&& (edits_tag(entry, inline, field) ==> {
                &&& info.inline_cursor is Some
                &&& (info.inline_cursor matches Some((at, _)) && at == row)
                &&& line.len() == 4
            })
        }),
{
    let ctx = MetaContext {
        entry: &entry,
        facts: &facts,
        inline,
        focus,
        max: minus(minus(content_width as int, 3), 11) as usize,
    };
    let cached = facts.cached_info->0;
    let base = lemma_tags(ctx, cached, content_width as int, hovers.0, hovers.1);
    let info = entry_info(entry, facts, content_width, hovers.0, hovers.1, hovers.2, inline, focus);
    let plain = probed_audio_info(ctx, cached, content_width as int, hovers.0, hovers.1);
    assert(info.meta_field_rows == tag_places(base));
    assert(info.lines[base + k] == plain.lines[base + k]);
    lemma_tag_row(ctx, cached.metadata, k);
    lemma_tag_cursor(ctx, base, k);
}

/// Tags that cannot be edited here are not clickable.
pub proof fn tags_in_an_archive_are_not_clickable(
    entry: BrowseEntry,
    facts: BrowseFacts,
    content_width: usize,
    hovers: (bool, bool, bool),
    inline: Option<&BrowseInlineEditState>,
    focus: Option<BrowseInfoFocus>,
)
    requires
        facts.in_archive && !facts.archive_staging_active,
    ensures
        ({
            let info = entry_info(
                entry,
                facts,
                content_width,
                hovers.0,
                hovers.1,
                hovers.2,
                inline,
                focus,
            );
            info.meta_field_rows.len() == 0 && info.inline_cursor is None
        }),
{
}

/// The pane names the entry; of an audio file that is not probed yet it gives the format of its
/// name and its size, of another file its kind and its size.
pub proof fn pane_names_the_entry(
    entry: BrowseEntry,
    facts: BrowseFacts,
    content_width: usize,
    hovers: (bool, bool, bool),
    inline: Option<&BrowseInlineEditState>,
    focus: Option<BrowseInfoFocus>,
)
    ensures
        ({
            let lines = entry_info(
                entry,
                facts,
                content_width,
                hovers.0,
                hovers.1,
                hovers.2,
                inline,
                focus,
            ).lines;
            &&& (shown_width(entry.name@) <= content_width - 3 ==> lines[2][1].text == entry.name@)
            &&& (entry.kind matches EntryKind::AudioFile(format) ==> facts.cached_info is None
                ==> lines[4][1].text == format@ && lines[5][1].text == size_text(
                entry.size as nat,
            ))
            &&& (entry.kind is OtherFile ==> lines[4][1].text == "file"@ && lines[5][1].text
                == size_text(entry.size as nat))
            &&& (entry.kind is Archive ==> lines[4][1].text == "archive (7z)"@ && lines[5][1].text
                == size_text(entry.size as nat))
            &&& (entry.kind is SacdIso ==> lines[4][1].text == "SACD ISO (ScarletBook)"@)
            &&& (entry.kind is DvdAudioIso ==> lines[4][1].text == "DVD-Audio ISO"@)
            &&& (entry.kind is DvdAudioDir ==> lines[4][1].text == "DVD-Audio directory"@)
            &&& (entry.kind is DvdVideoIso ==> lines[4][1].text == "DVD-Video ISO"@)
            &&& (entry.kind is DvdVideoDir ==> lines[4][1].text == "DVD-Video directory"@)
            &&& (entry.kind is BlurayIso ==> lines[4][1].text == "Blu-ray ISO"@)
            &&& (entry.kind is BlurayDir ==> lines[4][1].text == "Blu-ray directory"@)
        }),
{
}

proof fn lemma_archive_index(entries: Seq<ArchiveEntry>, path: Seq<char>, from: int)
    requires
        0 <= from <= entries.len(),
    ensures
        from <= archive_index(entries, path, from) <= entries.len(),
        archive_index(entries, path, from) < entries.len() ==> entries[archive_index(
            entries,
            path,
            from,
        )].path@ == path,
        forall|j: int|
            from <= j < archive_index(entries, path, from) ==> (#[trigger] entries[j]).path@ != path,
    decreases entries.len() - from,
{
    if from < entries.len() && entries[from].path@ != path {
        lemma_archive_index(entries, path, from + 1);
    }
}

/// What is said of an archive entry is said of the one with this path: its packed size, and whether
/// it is encrypted; of a path that is not in the archive nothing is said.
pub proof fn archive_rows_are_of_this_path(facts: BrowseFacts, path: Seq<char>) -> (i: int)
    ensures
        0 <= i <= facts.archive_entries@.len(),
        ({
            let rows = archive_rows(facts, path);
            let entries = facts.archive_entries@;
            &&& (i == entries.len() ==> rows.len() == 0 && forall|j: int|
                0 <= j < entries.len() ==> (#[trigger] entries[j]).path@ != path)
            &&& (i < entries.len() ==> {
                &&& entries[i].path@ == path
                &&& rows.last()[1].text == if entries[i].encrypted { "encrypted"@ } else { "entry"@ }
                &&& (entries[i].packed_size > 0 ==> rows.len() == 2 && rows[0][1].text == size_text(
                    entries[i].packed_size as nat,
                ))
                &&& (entries[i].packed_size == 0 ==> rows.len() == 1)
            })
        }),
{
    lemma_archive_index(facts.archive_entries@, path, 0);
    archive_index(facts.archive_entries@, path, 0)
}

/// A headline begins with the number of tracks; their format follows, where one is known, with a
/// word on others where they are mixed, and the rates where they are mixed or one is known.
pub proof fn headline_counts_the_tracks(audio: FolderAudioSummary, probe_status: bool)
    ensures
        ({
            let r = audio_headline(audio, probe_status);
            let tracks = decimal(audio.track_count as nat) + " "@ + if audio.track_count == 1 {
                "track"@
            } else {
                "tracks"@
            };
            let known = audio.dominant_format is Some;
            let format = if known {
                tracks + " · "@ + if audio.mixed_format {
                    audio.dominant_format->0@ + " + mixed formats"@
                } else {
                    audio.dominant_format->0@
                }
            } else {
                tracks
            };
            &&& (audio.rollup.mixed_profiles ==> r == format + " · "@ + "mixed rates"@)
            &&& (!audio.rollup.mixed_profiles && audio.rollup.dominant_profile is Some ==> r
                == format + " · "@ + audio.rollup.dominant_profile->0@)
            &&& (!audio.rollup.mixed_profiles && audio.rollup.dominant_profile is None && !(
            probe_status && audio.track_count > 0 && audio.probe_work_in_flight) ==> r == format)
        }),
{
    reveal_with_fuel(joined_upto, 4);
}

/// The tail says how many tracks are not probed, and what they last and take, where that is known.
pub proof fn tail_counts_what_is_not_probed(audio: FolderAudioSummary, facts: BrowseFacts)
    ensures
        ({
            let parts = audio_tail(audio, facts);
            let sized = facts.dir_stats is Some && facts.dir_stats->0.total_size > 0;
            let n = (if audio.rollup.total_duration is Some { 1int } else { 0 }) + (if sized {
                1int
            } else {
                0
            });
            let open = 0 < audio.rollup.probed_count < audio.track_count;
            &&& parts.len() == n + if open { 1int } else { 0 }
            &&& (audio.rollup.total_duration matches Some(d) ==> parts[0] == "duration: "@ + d@)
            &&& (sized ==> parts[n - 1] == "size: "@ + size_text(
                facts.dir_stats->0.total_size as nat,
            ))
            &&& (open ==> parts[n] == decimal(
                (audio.track_count - audio.rollup.probed_count) as nat,
            ) + " unprobed"@)
        }),
{
}

proof fn lemma_text_rows(texts: Seq<String>, indent: Seq<char>, max: int, n: nat)
    requires
        n <= texts.len(),
    ensures
        text_rows(texts, indent, max, n).len() == n,
        forall|k: int|
            0 <= k < n ==> (#[trigger] text_rows(texts, indent, max, n)[k])[1].text
                == truncated_right(texts[k]@, max),
    decreases n,
{
    if n > 0 {
        lemma_text_rows(texts, indent, max, (n - 1) as nat);
    }
}

/// The rows on a disc give its summary line by line, its copy protection where it has one, its
/// first six streams line by line, and how many more there are.
pub proof fn disc_rows_list_its_streams(contents: DiscContents, width: int, hovered: bool, k: int)
    requires
        0 <= k,
    ensures
        ({
            let rows = disc_contents_rows(contents, width, hovered);
            let summary = contents.summary_lines@;
            let streams = contents.stream_lines@;
            let count = contents.presentations@.len();
            let protected = if same_but_case(trimmed(contents.copy_protection@), "none"@) {
                0int
            } else {
                1
            };
            let first = summary.len() + protected + 2;
            let listed = if streams.len() < 6 { streams.len() as int } else { 6 };
            &&& (k < summary.len() && shown_width(summary[k]@) <= minus(width, 3)
                ==> rows[k][1].text == summary[k]@)
            &&& (k < listed && shown_width(streams[k]@) <= minus(minus(width, 3), 2) ==> rows[first
                + k][1].text == streams[k]@)
            &&& (count > 6 ==> rows[first + listed][0].text == "     ... and "@ + decimal(
                (count - 6) as nat,
            ) + " more"@)
            &&& rows.len() == first + listed + (if count > 6 { 1int } else { 0 }) + if count > 0 {
                2int
            } else {
                0
            }
        }),
{
    let summary = contents.summary_lines@;
    let streams = contents.stream_lines@;
    let listed = if streams.len() < 6 { streams.len() } else { 6 };
    lemma_text_rows(summary, "   "@, minus(width, 3), summary.len());
    lemma_text_rows(streams, "     "@, minus(minus(width, 3), 2), listed);
    let rows = disc_contents_rows(contents, width, hovered);
    if k < summary.len() {
        assert(rows[k] == text_rows(summary, "   "@, minus(width, 3), summary.len())[k]);
    }
    let protected = if same_but_case(trimmed(contents.copy_protection@), "none"@) { 0int } else {
        1
    };
    let first = summary.len() + protected + 2;
    if k < listed {
        assert(rows[first + k] == text_rows(
            streams,
            "     "@,
            minus(minus(width, 3), 2),
            listed,
        )[k]);
    }
}

/// What is known of a disc decides what its rows say: its contents, else the error of its probe,
/// else how its analysis stands.
pub proof fn disc_rows_say_what_is_known(
    facts: BrowseFacts,
    path: Seq<char>,
    size: nat,
    width: int,
    hovered: bool,
)
    ensures
        ({
            let rows = disc_rows(facts, path, size, width, hovered);
            let contents = known_contents(facts.disc_probe_cache@, path);
            let error = known_error(facts.disc_probe_cache@, path);
            &&& (contents matches Some(c) ==> rows == disc_contents_rows(*c, width, hovered))
            &&& (contents is None ==> rows.len() == 2 && rows[1][1].text == size_text(size))
            &&& (contents is None && error is Some && shown_width(error->0) <= minus(
                minus(width, 3),
                10,
            ) ==> rows[0][1].text == error->0)
        }),
{
}

/// Levels of loudness: each that a file has stands on a row of its own, under its own label, and
/// no other.
pub proof fn every_level_has_its_row(meta: SourceMetadata, max: int)
    ensures
        ({
            let rows = loudness_values(meta, max);
            let one = |value: Option<String>| if value is Some { 1int } else { 0 };
            let a = one(meta.rg_track_gain);
            let b = a + one(meta.rg_track_peak);
            let c = b + one(meta.rg_album_gain);
            let d = c + one(meta.rg_album_peak);
            let e = d + one(meta.r128_track_gain);
            let has = |at: int, label: Seq<char>, value: Option<String>|
                value matches Some(text) ==> rows[at][0].text == label && (shown_width(text@)
                    <= max ==> rows[at][1].text == text@);
            &&& rows.len() == e + one(meta.r128_album_gain)
            &&& has(0, "   tk gain "@, meta.rg_track_gain)
            &&& has(a, "   tk peak "@, meta.rg_track_peak)
            &&& has(b, "   al gain "@, meta.rg_album_gain)
            &&& has(c, "   al peak "@, meta.rg_album_peak)
            &&& has(d, "   r128 tk "@, meta.r128_track_gain)
            &&& has(e, "   r128 al "@, meta.r128_album_gain)
        }),
{
}

/// The word on pre-emphasis is that of its confidence, with the catalog number as evidence, or the
/// detail without one.
pub proof fn preemphasis_gives_its_evidence(advisory: PreemphasisAdvisory)
    ensures
        ({
            let r = preemphasis_text(advisory);
            let word = match advisory.confidence {
                PreemphasisConfidence::Detected => "detected"@,
                PreemphasisConfidence::StrongCandidate => "strong candidate"@,
                PreemphasisConfidence::Possible => "possible"@,
                PreemphasisConfidence::NotDetected => "not detected"@,
                PreemphasisConfidence::Indeterminate => "not checked"@,
            };
            &&& word.is_prefix_of(r)
            &&& (advisory.catalog is None && trimmed(advisory.detail@).len() > 0 ==> r == word
                + " ("@ + advisory.detail@ + ")"@)
            &&& (advisory.catalog is None && trimmed(advisory.detail@).len() == 0 ==> r == word)
        }),
{
    let r = preemphasis_text(advisory);
    let word = crate::draw_browse::info::verdict_text(advisory.confidence);
    assert(word =~= r.subrange(0, word.len() as int));
}

proof fn lemma_field_hits(
    area: Rect,
    places: Seq<(MetadataField, usize)>,
    height: int,
    n: nat,
    k: int,
) -> (h: int)
    requires
        0 <= k < n <= places.len(),
        places[k].1 < height,
    ensures
        0 <= h < field_hits(area, places, height, n).len(),
        field_hits(area, places, height, n)[h] == (
            TuiButton::BrowseInfoMeta(places[k].0),
            crate::draw_browse::info::info_row_rect(area, places[k].1 as int),
        ),
    decreases n,
{
    let front = field_hits(area, places, height, (n - 1) as nat);
    if k == n - 1 {
        front.len() as int
    } else {
        let h = lemma_field_hits(area, places, height, (n - 1) as nat, k);
        assert(field_hits(area, places, height, n)[h] == front[h]);
        h
    }
}

/// Line `i` of the pane's content is painted on the row `i` below the title, and a tag whose line
/// is shown is clicked on the row where it is painted.
pub proof fn tag_is_clicked_where_it_is_painted(area: Rect, info: InfoContentV, k: int) -> (h: int)
    requires
        area.wf(),
        area.height >= 4,
        area.width >= 15,
        0 <= k < info.meta_field_rows.len(),
        info.meta_field_rows[k].1 < area.height - 2,
        info.meta_field_rows[k].1 < info.lines.len(),
    ensures
        ({
            let scene = info_scene(area, info);
            let rows = scene[0]->Text_rows;
            let (field, i) = info.meta_field_rows[k];
            let hits = info_hits(area, info);
            &&& scene[0]->Text_area == area
            &&& rows.len() == area.height
            &&& rows[1 + i].subrange(1, 1 + info.lines[i as int].len() as int)
                == info.lines[i as int]
            &&& 0 <= h < hits.len()
            &&& hits[h].0 == TuiButton::BrowseInfoMeta(field)
            &&& hits[h].1.y == area.y + 1 + i
            &&& hits[h].1.x == area.x + 1
            &&& hits[h].1.height == 1
        }),
{
    let scene = info_scene(area, info);
    let rows = scene[0]->Text_rows;
    let (field, i) = info.meta_field_rows[k];
    assert(rows[1 + i].subrange(1, 1 + info.lines[i as int].len() as int)
        =~= info.lines[i as int]);
    let n = info.meta_field_rows.len();
    let h = lemma_field_hits(area, info.meta_field_rows, area.height - 2, n, k);
    assert(info_hits(area, info)[h] == field_hits(
        area,
        info.meta_field_rows,
        area.height - 2,
        n,
    )[h]);
    h
}

/// A folder is described as what it was found to be.
pub proof fn folder_is_described_as_what_it_is(
    class: FolderContentClassification,
    facts: BrowseFacts,
    path: Seq<char>,
    size: nat,
    date: Seq<char>,
    width: int,
    hovered: bool,
)
    ensures
        ({
            let rows = classification_rows(class, facts, path, size, date, width, hovered);
            let fits = |text: Seq<char>| shown_width(text) <= minus(width, 3);
            &&& (class.kind is Album ==> rows[0][1].text == "album folder"@ && (fits(
                audio_headline(class.audio, true),
            ) ==> rows[1][1].text == audio_headline(class.audio, true)))
            &&& (class.kind is MultiDisc ==> {
                let discs = decimal(class.unit_count as nat) + " "@ + if class.unit_count == 1 {
                    "disc"@
                } else {
                    "discs"@
                };
                let text = if class.audio.track_count > 0 {
                    discs + " · "@ + audio_headline(class.audio, true)
                } else {
                    discs
                };
                rows[0][1].text == "multi-disc album"@ && (fits(text) ==> rows[1][1].text == text)
            })
            &&& (class.kind is Disc && class.disc_marker is Some ==> rows[0][1].text
                == class.disc_marker->0@ + " disc folder"@)
            &&& (class.kind is Disc && class.disc_image is Some ==> rows.skip(1) == disc_rows(
                facts,
                class.disc_image->0@,
                size,
                width,
                hovered,
            ))
            &&& (class.kind is Disc && class.disc_image is None ==> rows.skip(1) == disc_rows(
                facts,
                path,
                size,
                width,
                hovered,
            ))
        }),
{
    let rows = classification_rows(class, facts, path, size, date, width, hovered);
    if class.kind is Disc {
        let at = crate::draw_browse::info::disc_path(class, path);
        assert(rows.skip(1) =~= disc_rows(facts, at, size, width, hovered));
    }
}

/// Every tag that a disc image has stands on a row of its own, under its own label, in order, and
/// no other.
pub proof fn disc_image_tags_have_their_rows(
    facts: BrowseFacts,
    focus: Option<BrowseInfoFocus>,
    cached: CachedInfo,
    width: int,
)
    ensures
        ({
            let meta = cached.metadata;
            let rows = sacd_tag_rows(facts, focus, cached, width);
            let n = 1 + technical_rows(cached.source, Tone::Purple).len() as int;
            let one = |value: Option<String>| if value is Some { 1int } else { 0 };
            let a = n + 1 + one(meta.artist);
            let b = a + one(meta.album);
            let c = b + one(meta.genre);
            let d = c + one(meta.year);
            let has = |at: int, label: Seq<char>, value: Option<String>|
                value matches Some(text) ==> rows[at][0].text == label && (shown_width(text@)
                    <= minus(minus(width, 3), 11) ==> rows[at][1].text == text@);
            &&& has(n + 1, "   artist  "@, meta.artist)
            &&& has(a, "   album   "@, meta.album)
            &&& has(b, "   genre   "@, meta.genre)
            &&& has(c, "   year    "@, meta.year)
            &&& has(d, "   catalog "@, meta.catalog_number)
        }),
{
}

/// What is found of HDCD follows its label, with the name itself standing out.
pub proof fn hdcd_is_given_in_full(detail: Seq<char>, rest: Seq<char>, max: int)
    requires
        detail == "HDCD"@ + rest,
        shown_width(rest) <= minus(max, 4),
    ensures
        hdcd_row(detail, max).len() == 3,
        hdcd_row(detail, max)[1].text == "HDCD"@,
        hdcd_row(detail, max)[2].text == rest,
{
    reveal_strlit("HDCD");
    crate::laws::texts::prefix_and_rest_make_the_text(detail, "HDCD"@);
    assert("HDCD"@ =~= detail.subrange(0, 4));
    assert(detail.skip(4) =~= rest);
}

} // verus!
