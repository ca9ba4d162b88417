//! Metadata pane: title/artist/album fields or a scrollable file list in batch/track
//! modes.

use crate::convert::{
    tag_text, ArchivePreview, ConvertMetadataField, MetadataState, MultiTrackEntry, SourceMode,
};
use crate::display_width::{
    line_width, shown_width, truncate_right, truncated_right, width, width_of_line,
};
use crate::draw_output::blank_lines;
use crate::geometry::{plus16, Rect};
use crate::inline_edit::{inline_cursor_col, inline_value, render_inline_value};
use crate::panes::{bordered, bordered_line, bottom_edge, bottom_line};
use crate::path::{file_name_or_path, name_or_path};
use crate::scene::{line1, line2, line3, sp, text_op, Line, LineV, OpV, Rows, RowsV, Scene, SceneV};
use crate::style::{bold, bold_fg, bright, fg, muted, on, plain, text_style, Style, Tone};
use crate::text::{
    align_right, blanks, cat2, cat3, cat5, dec, dec_len, decimal, joined, least, minus, most, owned,
    part_if, plus, right_aligned, spaces, Texts,
};
use vstd::prelude::*;

verus! {

/// The style of a label.
#[verifier::allow_in_spec]
pub fn label_style(focused: bool) -> Style
    returns
        (if focused {
            bright()
        } else {
            muted()
        }),
{
    if focused {
        bright()
    } else {
        muted()
    }
}

/// A tag with its label, the value in `value_w` columns.
pub open spec fn tag_spans(
    metadata: MetadataState,
    field: ConvertMetadataField,
    label: Seq<char>,
    value_w: int,
    pane_focused: bool,
) -> LineV {
    let focused = pane_focused && metadata.field_focus == field;
    seq![
        sp(label, label_style(focused)),
        inline_value(
            metadata.value(field),
            metadata.edits(field),
            metadata.edit_input,
            focused,
            value_w,
        ),
    ]
}

fn tag_line(
    metadata: &MetadataState,
    field: ConvertMetadataField,
    label: &str,
    value_w: usize,
    pane_focused: bool,
) -> (r: Line)
    ensures
        r@ == tag_spans(*metadata, field, label@, value_w as int, pane_focused),
{
    let focused = pane_focused && metadata.field_focus == field;
    let mut line = line1(label, label_style(focused));
    line.push(
        render_inline_value(
            metadata.value_of(field),
            metadata.is_editing(field),
            &metadata.edit_input,
            focused,
            value_w,
        ),
    );
    line
}

/// The row of the album artist.
pub open spec fn album_artist_row(border: Tone, w: int, metadata: MetadataState, focused: bool) -> LineV {
    bordered(
        border,
        w,
        tag_spans(
            metadata,
            ConvertMetadataField::AlbumArtist,
            "   album artist "@,
            minus(w, 18),
            focused,
        ),
    )
}

/// The album artist that all files of the conversion get.
pub fn render_album_artist_override_row(
    border: Tone,
    w: usize,
    metadata: &MetadataState,
    focused: bool,
) -> (r: Line)
    ensures
        r@ == album_artist_row(border, w as int, *metadata, focused),
{
    let line = tag_line(
        metadata,
        ConvertMetadataField::AlbumArtist,
        "   album artist ",
        w.saturating_sub(18),
        focused,
    );
    bordered_line(border, w, line)
}

/// Two tags side by side, the second in the right half.
pub open spec fn tag_pair(
    metadata: MetadataState,
    w: int,
    first: ConvertMetadataField,
    first_label: Seq<char>,
    second: ConvertMetadataField,
    second_label: Seq<char>,
    focused: bool,
) -> LineV {
    let content = minus(w, 2);
    let half = content / 2;
    let first_w = minus(half, 11);
    let second_w = most(minus(content, plus(half, 7)), 1);
    tag_spans(metadata, first, first_label, first_w, focused) + seq![
        sp(blanks(minus(content, plus(plus(half, 11), first_w)) as nat), plain()),
    ] + tag_spans(metadata, second, second_label, second_w, focused)
}

fn tag_pair_line(
    metadata: &MetadataState,
    w: usize,
    first: ConvertMetadataField,
    first_label: &str,
    second: ConvertMetadataField,
    second_label: &str,
    focused: bool,
) -> (r: Line)
    ensures
        r@ == tag_pair(*metadata, w as int, first, first_label@, second, second_label@, focused),
{
    let content: usize = w.saturating_sub(2);
    let half: usize = content / 2;
    let first_w: usize = half.saturating_sub(11);
    let room: usize = content.saturating_sub(half.saturating_add(7));
    let second_w: usize = if room >= 1 { room } else { 1 };
    let gap: usize = content.saturating_sub(half.saturating_add(11).saturating_add(first_w));
    let mut line = tag_line(metadata, first, first_label, first_w, focused);
    line.put(spaces(gap).as_str(), plain());
    line.append(tag_line(metadata, second, second_label, second_w, focused));
    proof {
        assert(line@ =~= tag_pair(
            *metadata,
            w as int,
            first,
            first_label@,
            second,
            second_label@,
            focused,
        ));
    }
    line
}

/// The tags of a single source.
pub open spec fn single_rows(border: Tone, w: int, metadata: MetadataState, focused: bool) -> RowsV {
    seq![
        bordered(
            border,
            w,
            tag_spans(
                metadata,
                ConvertMetadataField::Title,
                "   title   "@,
                minus(w, 13),
                focused,
            ),
        ),
        bordered(
            border,
            w,
            tag_pair(
                metadata,
                w,
                ConvertMetadataField::Artist,
                "   artist  "@,
                ConvertMetadataField::Album,
                "album  "@,
                focused,
            ),
        ),
        bordered(
            border,
            w,
            tag_pair(
                metadata,
                w,
                ConvertMetadataField::Genre,
                "   genre   "@,
                ConvertMetadataField::Year,
                "year   "@,
                focused,
            ),
        ),
        album_artist_row(border, w, metadata, focused),
    ]
}

/// The tags of a single source.
pub fn render_single_metadata(border: Tone, w: usize, metadata: &MetadataState, focused: bool) -> (r:
    Rows)
    ensures
        r@ == single_rows(border, w as int, *metadata, focused),
{
    let title = tag_line(
        metadata,
        ConvertMetadataField::Title,
        "   title   ",
        w.saturating_sub(13),
        focused,
    );
    let mut rows = Rows::of(bordered_line(border, w, title));
    let second = tag_pair_line(
        metadata,
        w,
        ConvertMetadataField::Artist,
        "   artist  ",
        ConvertMetadataField::Album,
        "album  ",
        focused,
    );
    rows.push(bordered_line(border, w, second));
    let third = tag_pair_line(
        metadata,
        w,
        ConvertMetadataField::Genre,
        "   genre   ",
        ConvertMetadataField::Year,
        "year   ",
        focused,
    );
    rows.push(bordered_line(border, w, third));
    rows.push(render_album_artist_override_row(border, w, metadata, focused));
    rows
}

/// The label of a track found in an archive.
pub open spec fn preview_label(cursor: int, total: nat) -> Seq<char> {
    "   track   "@ + right_aligned(decimal((cursor + 1) as nat), 2) + "/"@ + decimal(total) + " "@
}

/// The spans of a track found in an archive.
pub open spec fn preview_spans(preview: ArchivePreview, cursor: int, w: int) -> LineV {
    let label = preview_label(cursor, preview.tracks@.len());
    seq![
        sp(label, muted()),
        sp(
            truncated_right(
                preview.tracks@[cursor].original_name@,
                minus(w, plus(2, shown_width(label) as int)),
            ),
            text_style(),
        ),
    ]
}

/// The tags of an archive, and the track that the cursor is on.
pub open spec fn preview_rows(
    border: Tone,
    w: int,
    preview: ArchivePreview,
    cursor: int,
    metadata: MetadataState,
    focused: bool,
) -> RowsV {
    let tags = single_rows(border, w, metadata, focused);
    if cursor < preview.tracks@.len() {
        tags.push(bordered(border, w, preview_spans(preview, cursor, w)))
    } else {
        tags
    }
}

/// The tags of an archive, and the track that the cursor is on.
pub fn render_archive_preview_metadata(
    border: Tone,
    w: usize,
    preview: &ArchivePreview,
    cursor: usize,
    metadata: &MetadataState,
    focused: bool,
) -> (r: Rows)
    ensures
        r@ == preview_rows(border, w as int, *preview, cursor as int, *metadata, focused),
{
    let mut rows = render_single_metadata(border, w, metadata, focused);
    let total: usize = preview.tracks.len();
    if cursor < total {
        let label = cat5(
            "   track   ",
            align_right(dec_len(cursor + 1).as_str(), 2).as_str(),
            "/",
            dec_len(total).as_str(),
            " ",
        );
        let two: usize = 2;
        let room: usize = w.saturating_sub(two.saturating_add(width(label.as_str())));
        let name = truncate_right(preview.tracks[cursor].original_name.as_str(), room);
        let line = line2(label.as_str(), muted(), name.as_str(), text_style());
        proof {
            assert(line@ =~= preview_spans(*preview, cursor as int, w as int));
        }
        rows.push(bordered_line(border, w, line));
    }
    rows
}

/// The first file shown: as far as scrolled, but so that the one at the cursor is among
/// the `visible` and the list is not scrolled past its end.
pub open spec fn held_scroll(scroll: int, cursor: int, len: int, visible: int) -> int {
    if len <= visible {
        0
    } else {
        let last = minus(len, visible);
        let at = least(scroll, last);
        least(
            if cursor < at {
                cursor
            } else if cursor >= plus(at, visible) {
                cursor + 1 - visible
            } else {
                at
            },
            last,
        )
    }
}

/// The first file shown.
pub fn clamp_scroll(scroll: usize, cursor: usize, len: usize, visible: usize) -> (r: usize)
    requires
        visible > 0 || cursor < usize::MAX,
    ensures
        r == held_scroll(scroll as int, cursor as int, len as int, visible as int),
{
    if len <= visible {
        return 0;
    }
    let last: usize = len - visible;
    let at: usize = if scroll <= last { scroll } else { last };
    let moved: usize = if cursor < at {
        cursor
    } else if cursor >= at.saturating_add(visible) {
        cursor - visible + 1
    } else {
        at
    };
    if moved <= last {
        moved
    } else {
        last
    }
}

/// The file at the cursor is among those shown.
pub proof fn cursor_file_is_visible(scroll: int, cursor: int, len: int, visible: int)
    requires
        0 <= scroll,
        0 <= cursor < len <= usize::MAX,
        visible > 0,
    ensures
        0 <= held_scroll(scroll, cursor, len, visible) <= cursor < held_scroll(
            scroll,
            cursor,
            len,
            visible,
        ) + visible,
{
}

/// The style of a file's row.
#[verifier::allow_in_spec]
pub fn file_style(selected: bool, focused: bool) -> Style
    returns
        (if selected && focused {
            bold(on(Tone::PillActiveFg, Tone::Purple))
        } else if selected {
            bold_fg(Tone::Purple)
        } else {
            text_style()
        }),
{
    if selected && focused {
        bold(on(Tone::PillActiveFg, Tone::Purple))
    } else if selected {
        bold_fg(Tone::Purple)
    } else {
        text_style()
    }
}

/// The style of what stands beside a file's name.
#[verifier::allow_in_spec]
pub fn file_side_style(selected: bool, focused: bool) -> Style
    returns
        (if selected {
            file_style(selected, focused)
        } else {
            muted()
        }),
{
    if selected {
        file_style(selected, focused)
    } else {
        muted()
    }
}

/// The columns kept free for the tags behind a file's name.
pub open spec fn summary_reserve(summary: Seq<char>) -> int {
    if summary.len() == 0 {
        0
    } else {
        plus(shown_width(summary) as int, 2)
    }
}

/// The name of a file as it is shown.
pub open spec fn shown_name(w: int, label: Seq<char>, name: Seq<char>, summary: Seq<char>) -> Seq<char> {
    truncated_right(
        name,
        minus(minus(w, 2), plus(plus(2, shown_width(label) as int), summary_reserve(summary))),
    )
}

/// A file: its number, its name, and some tags at the right edge.
pub open spec fn file_spans(
    w: int,
    label: Seq<char>,
    name: Seq<char>,
    summary: Seq<char>,
    selected: bool,
    focused: bool,
) -> LineV {
    let shown = shown_name(w, label, name, summary);
    let front = seq![
        sp("  "@, plain()),
        sp(label, file_side_style(selected, focused)),
        sp(shown, file_style(selected, focused)),
    ];
    if summary.len() == 0 {
        front
    } else {
        let used = plus(
            plus(plus(2, shown_width(label) as int), shown_width(shown) as int),
            shown_width(summary) as int,
        );
        front + seq![
            sp(blanks(most(minus(minus(w, 2), used), 1) as nat), plain()),
            sp(summary, file_side_style(selected, focused)),
        ]
    }
}

/// A file: its number, its name, and some tags at the right edge.
pub fn file_row(
    border: Tone,
    w: usize,
    label: &str,
    name: &str,
    summary: &str,
    selected: bool,
    focused: bool,
) -> (r: Line)
    ensures
        r@ == bordered(
            border,
            w as int,
            file_spans(w as int, label@, name@, summary@, selected, focused),
        ),
{
    let content: usize = w.saturating_sub(2);
    let two: usize = 2;
    let left: usize = two.saturating_add(width(label));
    let summary_w: usize = width(summary);
    let reserve: usize = if summary.is_empty() { 0 } else { summary_w.saturating_add(2) };
    let shown = truncate_right(name, content.saturating_sub(left.saturating_add(reserve)));
    let mut line = line3(
        "  ",
        plain(),
        label,
        file_side_style(selected, focused),
        shown.as_str(),
        file_style(selected, focused),
    );
    if !summary.is_empty() {
        let used: usize = left.saturating_add(width(shown.as_str())).saturating_add(summary_w);
        let room: usize = content.saturating_sub(used);
        let gap: usize = if room >= 1 { room } else { 1 };
        line.put(spaces(gap).as_str(), plain());
        line.put(summary, file_side_style(selected, focused));
    }
    proof {
        assert(line@ =~= file_spans(w as int, label@, name@, summary@, selected, focused));
    }
    bordered_line(border, w, line)
}

/// A tag that is set and not empty.
pub open spec fn filled(tag: Option<String>) -> bool {
    tag matches Some(text) && text@.len() > 0
}

fn is_filled(tag: &Option<String>) -> (r: bool)
    ensures
        r == filled(*tag),
{
    match tag {
        Some(text) => !text.as_str().is_empty(),
        None => false,
    }
}

/// Artist and album, as far as they are set.
pub open spec fn summary_text(metadata: MetadataState) -> Seq<char> {
    joined(
        part_if(filled(metadata.artist), tag_text(metadata.artist)) + part_if(
            filled(metadata.album),
            tag_text(metadata.album),
        ),
        " · "@,
    )
}

/// Artist and album, as far as they are set.
pub fn metadata_summary(metadata: &MetadataState) -> (r: Option<String>)
    ensures
        match r {
            Some(text) => (filled(metadata.artist) || filled(metadata.album)) && text@
                == summary_text(*metadata),
            None => !filled(metadata.artist) && !filled(metadata.album),
        },
{
    let mut parts = Texts::new();
    parts.push_if(
        is_filled(&metadata.artist),
        metadata.value_of(ConvertMetadataField::Artist),
    );
    parts.push_if(is_filled(&metadata.album), metadata.value_of(ConvertMetadataField::Album));
    proof {
        assert(parts@ =~= part_if(filled(metadata.artist), tag_text(metadata.artist)) + part_if(
            filled(metadata.album),
            tag_text(metadata.album),
        ));
    }
    if parts.len() == 0 {
        None
    } else {
        Some(parts.join(" · "))
    }
}

/// What stands at the right edge of a file's row: the tags, at the cursor.
pub open spec fn row_summary(metadata: MetadataState, at_cursor: bool) -> Seq<char> {
    if at_cursor && (filled(metadata.artist) || filled(metadata.album)) {
        summary_text(metadata)
    } else {
        ""@
    }
}

fn row_summary_text(metadata: &MetadataState, at_cursor: bool) -> (r: String)
    ensures
        r@ == row_summary(*metadata, at_cursor),
{
    if at_cursor {
        match metadata_summary(metadata) {
            Some(text) => text,
            None => owned(""),
        }
    } else {
        owned("")
    }
}

/// One file of a batch.
pub open spec fn batch_row(
    border: Tone,
    w: int,
    paths: Seq<String>,
    i: int,
    cursor: int,
    focused: bool,
    metadata: MetadataState,
) -> LineV {
    bordered(
        border,
        w,
        file_spans(
            w,
            right_aligned(decimal((i + 1) as nat), 3) + ". "@,
            name_or_path(paths[i]@),
            row_summary(metadata, i == cursor),
            i == cursor,
            focused,
        ),
    )
}

/// The files of a batch in `visible` rows.
pub open spec fn batch_rows(
    border: Tone,
    w: int,
    paths: Seq<String>,
    cursor: int,
    scroll: int,
    visible: int,
    focused: bool,
    metadata: MetadataState,
) -> RowsV {
    if visible <= 0 {
        Seq::empty()
    } else {
        let start = held_scroll(scroll, cursor, paths.len() as int, visible);
        Seq::new(
            least(visible, minus(paths.len() as int, start)) as nat,
            |k: int| batch_row(border, w, paths, start + k, cursor, focused, metadata),
        )
    }
}

/// The files of a batch in `visible` rows.
pub fn render_batch_file_list(
    border: Tone,
    w: usize,
    paths: &Vec<String>,
    cursor: usize,
    scroll: usize,
    visible: usize,
    focused: bool,
    metadata: &MetadataState,
) -> (r: Rows)
    ensures
        r@ == batch_rows(
            border,
            w as int,
            paths@,
            cursor as int,
            scroll as int,
            visible as int,
            focused,
            *metadata,
        ),
{
    let mut rows = Rows::new();
    if visible == 0 {
        return rows;
    }
    let total: usize = paths.len();
    let start: usize = clamp_scroll(scroll, cursor, total, visible);
    let left: usize = total.saturating_sub(start);
    let shown: usize = if visible <= left { visible } else { left };
    let ghost all = batch_rows(
        border,
        w as int,
        paths@,
        cursor as int,
        scroll as int,
        visible as int,
        focused,
        *metadata,
    );
    for k in 0..shown
        invariant
            total == paths@.len(),
            start + shown <= total,
            all == Seq::new(
                shown as nat,
                |k: int|
                    batch_row(border, w as int, paths@, start + k, cursor as int, focused, *metadata),
            ),
            rows@ =~= all.take(k as int),
    {
        let i: usize = start + k;
        let label = cat2(align_right(dec_len(i + 1).as_str(), 3).as_str(), ". ");
        let name = file_name_or_path(paths[i].as_str());
        let summary = row_summary_text(metadata, i == cursor);
        rows.push(
            file_row(border, w, label.as_str(), name.as_str(), summary.as_str(), i == cursor, focused),
        );
    }
    proof {
        assert(rows@ =~= all);
    }
    rows
}

/// The name of a track: its title, or its number.
pub open spec fn track_name(track: MultiTrackEntry) -> Seq<char> {
    if filled(track.title) {
        tag_text(track.title)
    } else {
        "track "@ + decimal(track.number as nat)
    }
}

fn track_name_text(track: &MultiTrackEntry) -> (r: String)
    ensures
        r@ == track_name(*track),
{
    match &track.title {
        Some(title) if !title.as_str().is_empty() => owned(title.as_str()),
        _ => cat2("track ", dec(track.number as u64).as_str()),
    }
}

/// One track.
pub open spec fn track_row(
    border: Tone,
    w: int,
    tracks: Seq<MultiTrackEntry>,
    i: int,
    cursor: int,
    focused: bool,
    metadata: MetadataState,
) -> LineV {
    bordered(
        border,
        w,
        file_spans(
            w,
            right_aligned(decimal(tracks[i].number as nat), 3) + ". "@,
            track_name(tracks[i]),
            row_summary(metadata, i == cursor),
            i == cursor,
            focused,
        ),
    )
}

/// The tracks in `visible` rows.
pub open spec fn track_rows(
    border: Tone,
    w: int,
    tracks: Seq<MultiTrackEntry>,
    cursor: int,
    scroll: int,
    visible: int,
    focused: bool,
    metadata: MetadataState,
) -> RowsV {
    if visible <= 0 {
        Seq::empty()
    } else {
        let start = held_scroll(scroll, cursor, tracks.len() as int, visible);
        Seq::new(
            least(visible, minus(tracks.len() as int, start)) as nat,
            |k: int| track_row(border, w, tracks, start + k, cursor, focused, metadata),
        )
    }
}

/// The tracks in `visible` rows.
pub fn render_track_file_list(
    border: Tone,
    w: usize,
    tracks: &Vec<MultiTrackEntry>,
    cursor: usize,
    scroll: usize,
    visible: usize,
    focused: bool,
    metadata: &MetadataState,
) -> (r: Rows)
    ensures
        r@ == track_rows(
            border,
            w as int,
            tracks@,
            cursor as int,
            scroll as int,
            visible as int,
            focused,
            *metadata,
        ),
{
    let mut rows = Rows::new();
    if visible == 0 {
        return rows;
    }
    let total: usize = tracks.len();
    let start: usize = clamp_scroll(scroll, cursor, total, visible);
    let left: usize = total.saturating_sub(start);
    let shown: usize = if visible <= left { visible } else { left };
    let ghost all = track_rows(
        border,
        w as int,
        tracks@,
        cursor as int,
        scroll as int,
        visible as int,
        focused,
        *metadata,
    );
    for k in 0..shown
        invariant
            total == tracks@.len(),
            start + shown <= total,
            all == Seq::new(
                shown as nat,
                |k: int|
                    track_row(border, w as int, tracks@, start + k, cursor as int, focused, *metadata),
            ),
            rows@ =~= all.take(k as int),
    {
        let i: usize = start + k;
        let label = cat2(align_right(dec(tracks[i].number as u64).as_str(), 3).as_str(), ". ");
        let name = track_name_text(&tracks[i]);
        let summary = row_summary_text(metadata, i == cursor);
        rows.push(
            file_row(border, w, label.as_str(), name.as_str(), summary.as_str(), i == cursor, focused),
        );
    }
    proof {
        assert(rows@ =~= all);
    }
    rows
}

/// The colour of the pane's border.
#[verifier::allow_in_spec]
pub fn metadata_border(focused: bool) -> Tone
    returns
        (if focused {
            Tone::Purple
        } else {
            Tone::TextDim
        }),
{
    if focused {
        Tone::Purple
    } else {
        Tone::TextDim
    }
}

/// The left part of the title bar.
pub open spec fn metadata_title_left(border: Tone, maximized: bool) -> LineV {
    seq![
        sp("┌"@, fg(border)),
        sp(
            " "@ + (if maximized {
                "▾"@
            } else {
                "▸"@
            }) + " metadata "@,
            on(Tone::Bg, border),
        ),
    ]
}

/// The right part of the title bar.
pub open spec fn metadata_title_right(border: Tone) -> LineV {
    seq![
        sp("a"@, on(Tone::TextMuted, border)),
        sp("dvanced "@, on(Tone::Bg, border)),
        sp("┐"@, fg(border)),
    ]
}

/// The title bar of the pane.
pub open spec fn metadata_title(border: Tone, w: int, maximized: bool) -> LineV {
    let left = metadata_title_left(border, maximized);
    let right = metadata_title_right(border);
    let fixed = plus(width_of_line(left), width_of_line(right));
    left.push(sp(blanks(minus(w, fixed) as nat), on(Tone::Bg, border))) + right
}

/// The title bar of the pane.
pub fn metadata_title_line(border: Tone, w: usize, maximized: bool) -> (r: Line)
    ensures
        r@ == metadata_title(border, w as int, maximized),
{
    let bar = on(Tone::Bg, border);
    let mark = if maximized { "▾" } else { "▸" };
    let mut left = line2("┌", fg(border), cat3(" ", mark, " metadata ").as_str(), bar);
    let mut right = line2("a", on(Tone::TextMuted, border), "dvanced ", bar);
    right.put("┐", fg(border));
    proof {
        assert(left@ =~= metadata_title_left(border, maximized));
        assert(right@ =~= metadata_title_right(border));
    }
    let fixed: usize = line_width(&left).saturating_add(line_width(&right));
    left.put(spaces(w.saturating_sub(fixed)).as_str(), bar);
    left.append(right);
    proof {
        assert(left@ =~= metadata_title(border, w as int, maximized));
    }
    left
}

/// What the pane shows for the source, in `visible` rows.
pub open spec fn source_rows(
    border: Tone,
    w: int,
    metadata: MetadataState,
    source: SourceMode,
    visible: int,
    focused: bool,
) -> RowsV {
    match source {
        SourceMode::Batch { paths, cursor } => seq![
            album_artist_row(border, w, metadata, focused),
        ] + batch_rows(
            border,
            w,
            paths@,
            cursor as int,
            metadata.file_scroll as int,
            minus(visible, 1),
            focused,
            metadata,
        ),
        SourceMode::MultiTrack { tracks, cursor, archive_preview, .. } => match archive_preview {
            Some(preview) => preview_rows(border, w, preview, cursor as int, metadata, focused),
            None => seq![album_artist_row(border, w, metadata, focused)] + track_rows(
                border,
                w,
                tracks@,
                cursor as int,
                metadata.file_scroll as int,
                minus(visible, 1),
                focused,
                metadata,
            ),
        },
        _ => single_rows(border, w, metadata, focused),
    }
}

fn source_lines(
    border: Tone,
    w: usize,
    metadata: &MetadataState,
    source: &SourceMode,
    visible: usize,
    focused: bool,
) -> (r: Rows)
    ensures
        r@ == source_rows(border, w as int, *metadata, *source, visible as int, focused),
{
    match source {
        SourceMode::Batch { paths, cursor } => {
            let mut rows = Rows::of(render_album_artist_override_row(border, w, metadata, focused));
            rows.append(
                render_batch_file_list(
                    border,
                    w,
                    paths,
                    *cursor,
                    metadata.file_scroll,
                    visible.saturating_sub(1),
                    focused,
                    metadata,
                ),
            );
            rows
        },
        SourceMode::MultiTrack { tracks, cursor, archive_preview, .. } => match archive_preview {
            Some(preview) => render_archive_preview_metadata(
                border,
                w,
                preview,
                *cursor,
                metadata,
                focused,
            ),
            None => {
                let mut rows = Rows::of(
                    render_album_artist_override_row(border, w, metadata, focused),
                );
                rows.append(
                    render_track_file_list(
                        border,
                        w,
                        tracks,
                        *cursor,
                        metadata.file_scroll,
                        visible.saturating_sub(1),
                        focused,
                        metadata,
                    ),
                );
                rows
            },
        },
        _ => render_single_metadata(border, w, metadata, focused),
    }
}

/// All lines of the pane.
pub open spec fn metadata_lines(
    area: Rect,
    metadata: MetadataState,
    source: SourceMode,
    focused: bool,
    maximized: bool,
) -> RowsV {
    let border = metadata_border(focused);
    let w = area.width as int;
    let top = seq![metadata_title(border, w, maximized)] + source_rows(
        border,
        w,
        metadata,
        source,
        minus(area.height as int, 2),
        focused,
    );
    top + Seq::new(
        minus(minus(area.height as int, 1), top.len() as int) as nat,
        |i: int| bordered(border, w, Seq::empty()),
    ) + seq![bottom_edge(border, w)]
}

/// The sources whose files are listed.
pub open spec fn lists_files(source: SourceMode) -> bool {
    match source {
        SourceMode::Batch { .. } => true,
        SourceMode::MultiTrack { archive_preview, .. } => archive_preview is None,
        _ => false,
    }
}

/// The row of the tag being edited, the columns before its value and the columns of
/// its value. In a list only the album artist is edited.
pub open spec fn edit_place(metadata: MetadataState, source: SourceMode, w: int) -> Option<
    (int, int, int),
> {
    let content = minus(w, 2);
    let half = content / 2;
    let right = plus(half, 7);
    match metadata.editing {
        None => None,
        Some(field) => if lists_files(source) {
            if field == ConvertMetadataField::AlbumArtist {
                Some((1, 16, minus(w, 18)))
            } else {
                None
            }
        } else {
            Some(
                match field {
                    ConvertMetadataField::Title => (1, 11, minus(w, 13)),
                    ConvertMetadataField::Artist => (2, 11, minus(half, 11)),
                    ConvertMetadataField::Album => (2, right, most(minus(content, right), 1)),
                    ConvertMetadataField::AlbumArtist => (4, 16, minus(w, 18)),
                    ConvertMetadataField::Genre => (3, 11, minus(half, 11)),
                    ConvertMetadataField::Year => (3, right, most(minus(content, right), 1)),
                },
            )
        },
    }
}

/// The row of the tag being edited, the columns before its value and the columns of
/// its value.
pub fn metadata_edit_cursor(metadata: &MetadataState, source: &SourceMode, w: usize) -> (r: Option<
    (usize, usize, usize),
>)
    ensures
        match r {
            Some((row, label_w, value_w)) => edit_place(*metadata, *source, w as int) == Some(
                (row as int, label_w as int, value_w as int),
            ),
            None => edit_place(*metadata, *source, w as int) is None,
        },
{
    let field = match metadata.editing {
        Some(field) => field,
        None => {
            return None;
        },
    };
    let listed = match source {
        SourceMode::Batch { .. } => true,
        SourceMode::MultiTrack { archive_preview, .. } => archive_preview.is_none(),
        _ => false,
    };
    if listed {
        return if field == ConvertMetadataField::AlbumArtist {
            Some((1, 16, w.saturating_sub(18)))
        } else {
            None
        };
    }
    let content: usize = w.saturating_sub(2);
    let half: usize = content / 2;
    let right: usize = half.saturating_add(7);
    let room: usize = content.saturating_sub(right);
    let right_w: usize = if room >= 1 { room } else { 1 };
    match field {
        ConvertMetadataField::Title => Some((1, 11, w.saturating_sub(13))),
        ConvertMetadataField::Artist => Some((2, 11, half.saturating_sub(11))),
        ConvertMetadataField::Album => Some((2, right, right_w)),
        ConvertMetadataField::AlbumArtist => Some((4, 16, w.saturating_sub(18))),
        ConvertMetadataField::Genre => Some((3, 11, half.saturating_sub(11))),
        ConvertMetadataField::Year => Some((3, right, right_w)),
    }
}

/// Where the text cursor stands, if it is shown: inside the pane, while the pane has
/// the keyboard.
pub open spec fn pane_cursor(area: Rect, metadata: MetadataState, source: SourceMode, focused: bool) -> Option<
    (int, int),
> {
    match edit_place(metadata, source, area.width as int) {
        Some((row, label_w, value_w)) if focused => {
            let x = plus16(
                plus16(plus16(area.x as int, 1), label_w),
                metadata.edit_input.cursor_column(value_w),
            );
            let y = plus16(area.y as int, row);
            if y < plus16(area.y as int, area.height as int) && x < plus16(
                area.x as int,
                minus(area.width as int, 1),
            ) {
                Some((x, y))
            } else {
                None
            }
        },
        _ => None,
    }
}

/// The text cursor never leaves the pane.
pub proof fn pane_cursor_is_inside(
    area: Rect,
    metadata: MetadataState,
    source: SourceMode,
    focused: bool,
)
    requires
        area.wf(),
    ensures
        pane_cursor(area, metadata, source, focused) matches Some((x, y)) ==> area.x < x
            < area.x + area.width - 1 && area.y < y < area.y + area.height,
{
}

/// The metadata pane.
pub open spec fn metadata_scene(
    area: Rect,
    metadata: MetadataState,
    source: SourceMode,
    focused: bool,
    maximized: bool,
) -> SceneV {
    if area.height < 4 || area.width < 30 {
        Seq::empty()
    } else {
        seq![text_op(area, metadata_lines(area, metadata, source, focused, maximized), plain())]
            + match pane_cursor(area, metadata, source, focused) {
            Some((x, y)) => seq![OpV::Cursor { x: x as u16, y: y as u16 }],
            None => Seq::empty(),
        }
    }
}

/// Draw the metadata pane with purple border.
pub fn draw_metadata_pane(
    f: &mut Scene,
    area: Rect,
    metadata: &MetadataState,
    source: &SourceMode,
    focused: bool,
    maximized: bool,
)
    ensures
        final(f)@ == old(f)@ + metadata_scene(area, *metadata, *source, focused, maximized),
{
    if area.height < 4 || area.width < 30 {
        proof {
            assert(f@ =~= old(f)@ + Seq::<OpV>::empty());
        }
        return;
    }
    let border = metadata_border(focused);
    let w: usize = area.width as usize;
    let visible: usize = area.height.saturating_sub(2) as usize;
    let mut lines = Rows::of(metadata_title_line(border, w, maximized));
    lines.append(source_lines(border, w, metadata, source, visible, focused));
    let target: usize = area.height.saturating_sub(1) as usize;
    let missing: usize = target.saturating_sub(lines.len());
    lines.append(blank_lines(border, w, missing));
    lines.append(Rows::of(bottom_line(border, w)));
    proof {
        assert(lines@ =~= metadata_lines(area, *metadata, *source, focused, maximized));
    }
    f.text(area, lines, plain());
    if focused {
        match metadata_edit_cursor(metadata, source, w) {
            Some((row, label_w, value_w)) => {
                let column: u16 = inline_cursor_col(&metadata.edit_input, value_w);
                let label: u16 = if label_w <= 65535 { label_w as u16 } else { 65535 };
                let line: u16 = if row <= 65535 { row as u16 } else { 65535 };
                let x: u16 = area.x.saturating_add(1).saturating_add(label).saturating_add(column);
                let y: u16 = area.y.saturating_add(line);
                if y < area.y.saturating_add(area.height) && x < area.x.saturating_add(
                    area.width.saturating_sub(1),
                ) {
                    f.cursor(x, y);
                }
            },
            None => {},
        }
    }
    proof {
        assert(f@ =~= old(f)@ + metadata_scene(area, *metadata, *source, focused, maximized));
    }
}

/// Draw the collapsed metadata title bar.
pub fn draw_metadata_title_bar(f: &mut Scene, area: Rect, focused: bool)
    ensures
        final(f)@ == if area.height >= 1 && area.width >= 12 {
            old(f)@.push(
                text_op(
                    area,
                    seq![metadata_title(metadata_border(focused), area.width as int, false)],
                    plain(),
                ),
            )
        } else {
            old(f)@
        },
{
    if area.height < 1 || area.width < 12 {
        return;
    }
    let border = metadata_border(focused);
    f.text(area, Rows::of(metadata_title_line(border, area.width as usize, false)), plain());
}

} // verus!
