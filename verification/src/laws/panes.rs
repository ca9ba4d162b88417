//! The panes of tags, settings and presets: every setting is shown where it belongs.

use crate::button_map::TuiButton;
use crate::convert::{ConvertMetadataField, MetadataState, MultiTrackEntry, SourceMode};
use crate::display_width::shown_width;
use crate::draw_metadata::{
    batch_rows, held_scroll, pane_cursor, row_summary, single_rows, summary_text, tag_pair,
    tag_spans, track_rows,
};
use crate::draw_preset_bar::{preset_hits, preset_left, PresetState};
use crate::draw_settings::{
    appearance_hits, appearance_lines, built_in_count, conversion_lines, keychain_scene,
    name_columns, password_rows, password_scroll, performance_lines, ribbon, theme_front,
    AppearanceState, BrowsingConfig, ConversionConfig, KeychainState, ThemeChoice,
};
use crate::geometry::Rect;
use crate::laws::reports::how_many;
use crate::panes::bordered;
use crate::path::name_or_path;
use crate::scene::LineV;
use crate::style::Tone;
use crate::text::{decimal, minus};
use vstd::prelude::*;

verus! {

/// The value of a tag; a missing one is empty.
pub open spec fn tag_of(metadata: MetadataState, field: ConvertMetadataField) -> Seq<char> {
    let tag = match field {
        ConvertMetadataField::Title => metadata.title,
        ConvertMetadataField::Artist => metadata.artist,
        ConvertMetadataField::Album => metadata.album,
        ConvertMetadataField::AlbumArtist => metadata.album_artist_for_conversion,
        ConvertMetadataField::Genre => metadata.genre,
        ConvertMetadataField::Year => metadata.year,
    };
    match tag {
        Some(text) => text@,
        None => ""@,
    }
}

/// The row of a tag among the tags of a single source, and the place of its value in that row.
pub open spec fn tag_place(field: ConvertMetadataField) -> (int, int) {
    match field {
        ConvertMetadataField::Title => (0, 2),
        ConvertMetadataField::Artist => (1, 2),
        ConvertMetadataField::Album => (1, 5),
        ConvertMetadataField::Genre => (2, 2),
        ConvertMetadataField::Year => (2, 5),
        ConvertMetadataField::AlbumArtist => (3, 2),
    }
}

/// What stands before the value of a tag.
pub open spec fn tag_name(field: ConvertMetadataField) -> Seq<char> {
    match field {
        ConvertMetadataField::Title => "   title   "@,
        ConvertMetadataField::Artist => "   artist  "@,
        ConvertMetadataField::Album => "album  "@,
        ConvertMetadataField::Genre => "   genre   "@,
        ConvertMetadataField::Year => "year   "@,
        ConvertMetadataField::AlbumArtist => "   album artist "@,
    }
}

/// The columns of a tag's value.
pub open spec fn tag_columns(w: int, field: ConvertMetadataField) -> int {
    let half = (w - 2) / 2;
    match field {
        ConvertMetadataField::Title => w - 13,
        ConvertMetadataField::AlbumArtist => w - 18,
        ConvertMetadataField::Artist | ConvertMetadataField::Genre => half - 11,
        ConvertMetadataField::Album | ConvertMetadataField::Year => w - 2 - half - 7,
    }
}

proof fn lemma_bordered(border: Tone, w: int, content: LineV)
    ensures
        forall|i: int|
            0 <= i < content.len() ==> #[trigger] bordered(border, w, content)[i + 1] == content[i],
{
}

proof fn lemma_tag_spans(
    metadata: MetadataState,
    field: ConvertMetadataField,
    label: Seq<char>,
    value_w: int,
    focused: bool,
)
    ensures
        ({
            let spans = tag_spans(metadata, field, label, value_w, focused);
            let value = tag_of(metadata, field);
            &&& spans.len() == 2
            &&& spans[0].text == label
            &&& (spans[0].style.fg == Tone::TextBright <==> focused && metadata.field_focus
                == field)
            &&& (metadata.editing != Some(field) && shown_width(value) <= value_w ==> spans[1].text
                == value)
            &&& (metadata.editing == Some(field) ==> metadata.edit_input.window(
                value_w,
            ).is_prefix_of(spans[1].text))
        }),
{
    crate::laws::editing::field_shows_its_value(
        tag_of(metadata, field),
        metadata.editing == Some(field),
        metadata.edit_input,
        focused && metadata.field_focus == field,
        value_w,
    );
}

proof fn lemma_tag_pair(
    metadata: MetadataState,
    w: int,
    first: ConvertMetadataField,
    first_label: Seq<char>,
    second: ConvertMetadataField,
    second_label: Seq<char>,
    focused: bool,
)
    requires
        30 <= w <= u16::MAX,
    ensures
        ({
            let spans = tag_pair(metadata, w, first, first_label, second, second_label, focused);
            let half = (w - 2) / 2;
            let a = tag_spans(metadata, first, first_label, half - 11, focused);
            let b = tag_spans(metadata, second, second_label, w - 2 - half - 7, focused);
            &&& half - 11 >= 0 ==> spans[0] == a[0] && spans[1] == a[1]
            &&& spans.len() == 5
            &&& spans[3] == b[0]
            &&& spans[4] == b[1]
        }),
{
}

/// Each tag of a single source stands under its own label: as it is, where it fits, or in the
/// editor while it is edited. The label in focus alone stands out, and the cursor of an editor is on
/// the row of its tag.
pub proof fn every_tag_is_shown_under_its_label(
    border: Tone,
    w: int,
    metadata: MetadataState,
    focused: bool,
    field: ConvertMetadataField,
)
    requires
        30 <= w <= u16::MAX,
    ensures
        ({
            let (row, at) = tag_place(field);
            let line = single_rows(border, w, metadata, focused)[row];
            let value = tag_of(metadata, field);
            &&& line[at - 1].text == tag_name(field)
            &&& (line[at - 1].style.fg == Tone::TextBright <==> focused && metadata.field_focus
                == field)
            &&& (metadata.editing != Some(field) && shown_width(value) <= tag_columns(w, field)
                ==> line[at].text == value)
            &&& (metadata.editing == Some(field) ==> metadata.edit_input.window(
                tag_columns(w, field),
            ).is_prefix_of(line[at].text))
        }),
{
    lemma_tag_spans(metadata, field, tag_name(field), tag_columns(w, field), focused);
    let spans = tag_spans(metadata, field, tag_name(field), tag_columns(w, field), focused);
    let (row, at) = tag_place(field);
    let line = single_rows(border, w, metadata, focused)[row];
    lemma_tag_pair(
        metadata,
        w,
        ConvertMetadataField::Artist,
        "   artist  "@,
        ConvertMetadataField::Album,
        "album  "@,
        focused,
    );
    lemma_tag_pair(
        metadata,
        w,
        ConvertMetadataField::Genre,
        "   genre   "@,
        ConvertMetadataField::Year,
        "year   "@,
        focused,
    );
    match field {
        ConvertMetadataField::Title | ConvertMetadataField::AlbumArtist => {
            assert(line == bordered(border, w, spans));
            lemma_bordered(border, w, spans);
        },
        ConvertMetadataField::Artist | ConvertMetadataField::Album => {
            let pair = tag_pair(
                metadata,
                w,
                ConvertMetadataField::Artist,
                "   artist  "@,
                ConvertMetadataField::Album,
                "album  "@,
                focused,
            );
            assert(line == bordered(border, w, pair));
            lemma_bordered(border, w, pair);
            assert(line[at] == pair[at - 1]);
            assert(line[at - 1] == pair[at - 2]);
        },
        ConvertMetadataField::Genre | ConvertMetadataField::Year => {
            let pair = tag_pair(
                metadata,
                w,
                ConvertMetadataField::Genre,
                "   genre   "@,
                ConvertMetadataField::Year,
                "year   "@,
                focused,
            );
            assert(line == bordered(border, w, pair));
            lemma_bordered(border, w, pair);
            assert(line[at] == pair[at - 1]);
            assert(line[at - 1] == pair[at - 2]);
        },
    }
}

/// The cursor of an edited tag of a single source is on the tag's row, behind its label.
pub proof fn tag_cursor_is_in_its_field(
    area: Rect,
    metadata: MetadataState,
    source: SourceMode,
    focused: bool,
    field: ConvertMetadataField,
)
    requires
        area.wf(),
        30 <= area.width,
        metadata.editing == Some(field),
        !(source is Batch),
        !(source is MultiTrack),
    ensures
        pane_cursor(area, metadata, source, focused) matches Some((x, y)) ==> focused && y == area.y
            + 1 + tag_place(field).0 && x == area.x + 1 + metadata.edit_input.cursor_column(
            tag_columns(area.width as int, field),
        ) + match field {
            ConvertMetadataField::Title | ConvertMetadataField::Artist
            | ConvertMetadataField::Genre => 11int,
            ConvertMetadataField::AlbumArtist => 16,
            ConvertMetadataField::Album | ConvertMetadataField::Year => (area.width - 2) / 2 + 7,
        },
{
}

/// Row `k` of a batch is that of the file `k` behind the first shown: its number and its name,
/// where that fits; the file at the cursor alone stands out, and it is among those shown.
pub proof fn every_batch_file_has_its_row(
    border: Tone,
    w: int,
    paths: Seq<String>,
    cursor: int,
    scroll: int,
    visible: int,
    focused: bool,
    metadata: MetadataState,
    k: int,
) -> (start: int)
    requires
        0 <= cursor < paths.len() <= usize::MAX,
        0 <= scroll,
        0 < visible <= u16::MAX,
        0 <= k < batch_rows(border, w, paths, cursor, scroll, visible, focused, metadata).len(),
    ensures
        ({
            let rows = batch_rows(border, w, paths, cursor, scroll, visible, focused, metadata);
            let line = rows[k];
            let i = start + k;
            let name = name_or_path(paths[i]@);
            &&& 0 <= i < paths.len()
            &&& start <= cursor < start + rows.len()
            &&& (decimal((i + 1) as nat) + ". "@).is_suffix_of(line[2].text)
            &&& (shown_width(name) <= minus(
                minus(w, 2),
                crate::text::plus(
                    crate::text::plus(2, shown_width(line[2].text) as int),
                    crate::draw_metadata::summary_reserve(row_summary(metadata, i == cursor)),
                ),
            ) ==> line[3].text == name)
            &&& (line[3].style.bold <==> i == cursor)
            &&& (scroll <= cursor < scroll + visible <= paths.len() ==> start == scroll)
        }),
{
    let start = held_scroll(scroll, cursor, paths.len() as int, visible);
    let rows = batch_rows(border, w, paths, cursor, scroll, visible, focused, metadata);
    let line = rows[k];
    let number = decimal((start + k + 1) as nat) + ". "@;
    let text = line[2].text;
    assert(number =~= text.subrange(text.len() - number.len(), text.len() as int));
    start
}

/// Row `k` of the tracks of a source is that of the track `k` behind the first shown: its own
/// number, and its title or, without one, its number in words.
pub proof fn every_track_has_its_row(
    border: Tone,
    w: int,
    tracks: Seq<MultiTrackEntry>,
    cursor: int,
    scroll: int,
    visible: int,
    focused: bool,
    metadata: MetadataState,
    k: int,
) -> (start: int)
    requires
        0 <= cursor < tracks.len() <= usize::MAX,
        0 <= scroll,
        0 < visible <= u16::MAX,
        0 <= k < track_rows(border, w, tracks, cursor, scroll, visible, focused, metadata).len(),
    ensures
        ({
            let rows = track_rows(border, w, tracks, cursor, scroll, visible, focused, metadata);
            let line = rows[k];
            let i = start + k;
            let titled = tracks[i].title is Some && tracks[i].title->0@.len() > 0;
            let name = if titled {
                tracks[i].title->0@
            } else {
                "track "@ + decimal(tracks[i].number as nat)
            };
            &&& 0 <= i < tracks.len()
            &&& start <= cursor < start + rows.len()
            &&& (decimal(tracks[i].number as nat) + ". "@).is_suffix_of(line[2].text)
            &&& (shown_width(name) <= minus(
                minus(w, 2),
                crate::text::plus(
                    crate::text::plus(2, shown_width(line[2].text) as int),
                    crate::draw_metadata::summary_reserve(row_summary(metadata, i == cursor)),
                ),
            ) ==> line[3].text == name)
            &&& (line[3].style.bold <==> i == cursor)
            &&& (scroll <= cursor < scroll + visible <= tracks.len() ==> start == scroll)
        }),
{
    let start = held_scroll(scroll, cursor, tracks.len() as int, visible);
    let rows = track_rows(border, w, tracks, cursor, scroll, visible, focused, metadata);
    let line = rows[k];
    let number = decimal(tracks[start + k].number as nat) + ". "@;
    let text = line[2].text;
    assert(number =~= text.subrange(text.len() - number.len(), text.len() as int));
    start
}

/// The summary of a file is its artist and its album, as far as they are known.
pub proof fn summary_is_artist_and_album(metadata: MetadataState)
    ensures
        ({
            let artist = tag_of(metadata, ConvertMetadataField::Artist);
            let album = tag_of(metadata, ConvertMetadataField::Album);
            &&& (artist.len() > 0 && album.len() > 0 ==> summary_text(metadata) == artist + " · "@
                + album)
            &&& (artist.len() > 0 && album.len() == 0 ==> summary_text(metadata) == artist)
            &&& (artist.len() == 0 && album.len() > 0 ==> summary_text(metadata) == album)
        }),
{
    reveal_with_fuel(crate::text::joined_upto, 3);
    reveal_strlit("");
}

/// The settings of conversions are shown each on its row.
pub proof fn conversion_settings_are_on_their_rows(cfg: ConversionConfig)
    ensures
        ({
            let rows = conversion_lines(cfg);
            let word = |on: bool| if on { "Enabled"@ } else { "Disabled"@ };
            &&& rows.len() == 9
            &&& rows[0][1].text == cfg.preferred_backend@
            &&& rows[1][1].text == decimal(cfg.worker_count as nat)
            &&& rows[2][1].text == word(cfg.calculate_replaygain)
            &&& (!cfg.generate_cue_files ==> rows[3][1].text == "Disabled"@)
            &&& (cfg.generate_cue_files ==> rows[3][1].text == "Enabled ("@
                + cfg.cue_generation_mode@ + ")"@)
            &&& rows[4][1].text == word(cfg.write_log_file)
            &&& rows[5][1].text == word(cfg.persist_queue)
            &&& (cfg.default_destination matches Some(path) ==> rows[6][1].text == path@)
            &&& (cfg.default_destination is None ==> rows[6][1].text == "(ask every time)"@)
            &&& (cfg.scratch_directory matches Some(path) ==> rows[7][1].text == path@)
            &&& (cfg.scratch_directory is None ==> rows[7][1].text == "(system default)"@)
            &&& (cfg.scratch_memory_limit_percent <= 90 ==> rows[8][1].text == decimal(
                cfg.scratch_memory_limit_percent as nat,
            ) + "%"@)
            &&& (cfg.scratch_memory_limit_percent > 90 ==> rows[8][1].text == decimal(90) + "%"@)
            &&& (rows[2][1].style.fg == Tone::Green <==> cfg.calculate_replaygain)
            &&& (rows[3][1].style.fg == Tone::Green <==> cfg.generate_cue_files)
            &&& (rows[4][1].style.fg == Tone::Green <==> cfg.write_log_file)
            &&& (rows[5][1].style.fg == Tone::Green <==> cfg.persist_queue)
        }),
{
}

/// The settings of browsing are shown each on its row; a limit of no seconds is no limit.
pub proof fn browsing_settings_are_on_their_rows(cfg: BrowsingConfig)
    ensures
        performance_lines(cfg)[1][2].text == cfg.archive_listing_label@,
        cfg.archive_listing_timeout == 0 ==> performance_lines(cfg)[2][1].text == "Disabled"@,
        cfg.archive_listing_timeout > 0 ==> performance_lines(cfg)[2][1].text == decimal(
            cfg.archive_listing_timeout as nat,
        ) + "s"@,
{
}

proof fn lemma_built_in(choices: Seq<ThemeChoice>, n: nat)
    requires
        n <= choices.len(),
    ensures
        built_in_count(choices, n) == how_many(
            choices.take(n as int),
            |c: ThemeChoice| c.built_in,
        ),
        built_in_count(choices, n) <= n,
        n - built_in_count(choices, n) == how_many(
            choices.take(n as int),
            |c: ThemeChoice| !c.built_in,
        ),
    decreases n,
{
    reveal(Seq::filter);
    if n > 0 {
        lemma_built_in(choices, (n - 1) as nat);
        assert(choices.take(n as int).drop_last() =~= choices.take(n - 1));
        assert(choices.take(n as int).last() == choices[n - 1]);
    } else {
        assert(choices.take(0) =~= Seq::empty());
    }
}

proof fn lemma_ribbon(front: LineV, accents: Seq<Tone>, n: nat)
    requires
        n <= accents.len(),
    ensures
        ribbon(front, accents, n).len() == front.len() + 2 * n,
        forall|k: int| 0 <= k < front.len() ==> #[trigger] ribbon(front, accents, n)[k] == front[k],
        forall|i: int|
            0 <= i < n ==> (#[trigger] ribbon(front, accents, n)[front.len() + 2 * i]).style.fg
                == accents[i],
    decreases n,
{
    if n > 0 {
        lemma_ribbon(front, accents, (n - 1) as nat);
        let less = ribbon(front, accents, (n - 1) as nat);
        let all = ribbon(front, accents, n);
        assert forall|i: int| 0 <= i < n implies (#[trigger] all[front.len() + 2 * i]).style.fg
            == accents[i] by {
            if i < n - 1 {
                assert(all[front.len() + 2 * i] == less[front.len() + 2 * i]);
            }
        }
    }
}

/// The appearance pane names the theme that is active, counts where it stands among all, counts
/// the built-in and the custom ones apart, shows the colours of the active one, and marks the mode
/// on the screen.
pub proof fn appearance_describes_the_active_theme(state: AppearanceState, width: int)
    requires
        state.active_index < state.choices@.len(),
        state.choices@.len() < usize::MAX,
    ensures
        ({
            let rows = appearance_lines(state, width);
            let theme = state.choices@[state.active_index as int];
            let shown = if theme.accents@.len() < 10 { theme.accents@.len() as int } else { 10 };
            &&& rows.len() == 10
            &&& (theme.name@.len() <= name_columns(state, width) ==> rows[1][2].text == theme.name@)
            &&& rows[1].len() == 4 + 2 * shown
            &&& forall|i: int|
                0 <= i < shown ==> (#[trigger] rows[1][4 + 2 * i]).style.fg == theme.accents@[i]
            &&& rows[2][3].text == decimal((state.active_index + 1) as nat) + " / "@ + decimal(
                state.choices@.len(),
            )
            &&& rows[6][1].text == decimal(
                how_many(state.choices@, |c: ThemeChoice| c.built_in),
            ) + " built-in · "@ + decimal(
                how_many(state.choices@, |c: ThemeChoice| !c.built_in),
            ) + " custom"@
            &&& (state.runtime.dark ==> rows[4][1].text == "● Dark"@ && rows[4][3].text
                == "○ Light"@)
            &&& (!state.runtime.dark ==> rows[4][1].text == "○ Dark"@ && rows[4][3].text
                == "● Light"@)
        }),
{
    let theme = state.choices@[state.active_index as int];
    let n = state.choices@.len();
    lemma_built_in(state.choices@, n);
    assert(state.choices@.take(n as int) =~= state.choices@);
    let shown = if theme.accents@.len() < 10 { theme.accents@.len() } else { 10 };
    lemma_ribbon(theme_front(state, width), theme.accents@, shown);
    let rows = appearance_lines(state, width);
    assert(rows[1] == ribbon(theme_front(state, width), theme.accents@, shown));
    assert forall|i: int| 0 <= i < shown implies (#[trigger] rows[1][4 + 2 * i]).style.fg
        == theme.accents@[i] by {
        assert(ribbon(theme_front(state, width), theme.accents@, shown)[theme_front(
            state,
            width,
        ).len() + 2 * i].style.fg == theme.accents@[i]);
    }
}

/// The modes, and the theme before and behind, are clicked where they are drawn.
pub proof fn appearance_is_clicked_where_it_is_drawn(area: Rect, state: AppearanceState)
    requires
        area.wf(),
        area.width >= 60,
        area.height >= 10,
        state.active_index < state.choices@.len(),
        state.choices@[state.active_index as int].name@.len() <= name_columns(
            state,
            area.width as int,
        ),
    ensures
        ({
            let hits = appearance_hits(area, state);
            let rows = appearance_lines(state, area.width as int);
            let dark = rows[4][1].text;
            let light = rows[4][3].text;
            &&& hits[0].0 == TuiButton::ConfigThemePrev
            &&& hits[0].1.x == area.x + rows[1][0].text.len()
            &&& hits[0].1.y == area.y + 1
            &&& hits[1].0 == TuiButton::ConfigThemeNext
            &&& hits[1].1.x == area.x + rows[1][0].text.len() + rows[1][1].text.len()
                + rows[1][2].text.len() + 1
            &&& hits[1].1.y == area.y + 1
            &&& hits[3].0 == TuiButton::ConfigThemeDark
            &&& hits[3].1.x == area.x + rows[4][0].text.len()
            &&& hits[3].1.width == dark.len()
            &&& hits[3].1.y == area.y + 4
            &&& hits[4].0 == TuiButton::ConfigThemeLight
            &&& hits[4].1.x == area.x + rows[4][0].text.len() + dark.len() + rows[4][2].text.len()
            &&& hits[4].1.width == light.len()
            &&& hits[4].1.y == area.y + 4
            &&& hits[5].0 == TuiButton::ConfigThemeBrowse
            &&& hits[5].1.y == area.y + 6
        }),
{
    reveal_strlit("  Theme      ");
    reveal_strlit("◂ ");
    reveal_strlit(" ▸  ");
    reveal_strlit("  Mode       ");
    reveal_strlit("  ");
    reveal_strlit("● Dark");
    reveal_strlit("○ Dark");
    reveal_strlit("● Light");
    reveal_strlit("○ Light");
    reveal_strlit("[ Browse all … ]");
    let theme = state.choices@[state.active_index as int];
    let n = crate::draw_settings::swatches(theme.accents@) as nat;
    let width = area.width as int;
    lemma_ribbon(theme_front(state, width), theme.accents@, n);
    let rows = appearance_lines(state, width);
    let line = ribbon(theme_front(state, width), theme.accents@, n);
    assert(rows[1] == line);
    assert(line[0] == theme_front(state, width)[0]);
    assert(line[1] == theme_front(state, width)[1]);
    assert(line[2] == theme_front(state, width)[2]);
}

proof fn lemma_passwords(state: KeychainState, area: Rect, focused: bool, n: nat)
    requires
        n <= area.height,
        state.passwords@.len() > 0,
    ensures
        ({
            let from = password_scroll(state, area.height as int);
            let rows = password_rows(state, area, focused, n);
            forall|k: int|
                0 <= k < n && from + k < state.passwords@.len() ==> k < rows.len() && (
                #[trigger] rows[k])->Text_rows == seq![
                    crate::draw_settings::password_line(
                        state,
                        from + k,
                        from + k == crate::draw_settings::held_selection(state) && focused,
                    ),
                ] && rows[k]->Text_area.y == crate::geometry::plus16(area.y as int, k)
        }),
        password_scroll(state, area.height as int) + n <= state.passwords@.len() ==> password_rows(
            state,
            area,
            focused,
            n,
        ).len() == n,
    decreases n,
{
    if n > 0 {
        lemma_passwords(state, area, focused, (n - 1) as nat);
    }
}

/// Row `k` of the passwords is that of the password `k` behind the first shown, under its own
/// number, in clear only where passwords are revealed; the one selected alone stands out.
pub proof fn every_password_has_its_row(
    state: KeychainState,
    area: Rect,
    focused: bool,
    k: int,
) -> (i: int)
    requires
        area.wf(),
        area.height >= 2,
        state.load_error is None,
        state.passwords@.len() > 0,
        0 <= k < area.height,
        k < state.passwords@.len() - password_scroll(state, area.height as int),
    ensures
        ({
            let painted = keychain_scene(state, area, focused)[k];
            let line = painted->Text_rows[0][0];
            &&& 0 <= i < state.passwords@.len()
            &&& k > 0 ==> i > 0
            &&& painted->Text_area.y == area.y + k
            &&& ("  "@ + decimal((i + 1) as nat) + " "@).is_prefix_of(line.text)
            &&& (state.reveal ==> line.text == "  "@ + decimal((i + 1) as nat) + " "@
                + state.passwords@[i]@)
            &&& (line.style.bold <==> focused && (i == state.selected || (i
                == state.passwords@.len() - 1 && state.selected >= state.passwords@.len())))
            &&& (state.selected < area.height ==> i == k)
        }),
{
    lemma_passwords(state, area, focused, area.height as nat);
    let i = password_scroll(state, area.height as int) + k;
    let line = keychain_scene(state, area, focused)[k]->Text_rows[0][0];
    let front = "  "@ + decimal((i + 1) as nat) + " "@;
    assert(front =~= line.text.subrange(0, front.len() as int));
    i
}

/// The preset bar names the active preset, and says whether the settings differ from it.
pub proof fn preset_bar_names_the_preset(preset: PresetState)
    ensures
        ({
            let line = preset_left(preset);
            &&& (preset.active_preset matches Some(name) ==> line[1].text == " "@ + name@ + " "@
                && (line.len() == 4 <==> preset.modified) && (preset.modified ==> line[3].text
                == "(modified)"@))
            &&& (preset.active_preset is None ==> line.len() == 2 && line[1].text == "none"@)
        }),
{
}

/// The presets and the saving of one are clicked where their hints stand, at the right.
pub proof fn preset_hints_are_clicked_where_they_stand(preset: PresetState, area: Rect)
    requires
        area.wf(),
        crate::display_width::width_of_line(preset_left(preset)) + 19 <= area.width,
        crate::display_width::width_of_line(preset_left(preset)) >= 0,
    ensures
        ({
            let hits = preset_hits(preset, area);
            let n = hits.len() as int;
            &&& hits[n - 2].0 == TuiButton::PresetsButton
            &&& hits[n - 2].1.x == area.x + area.width - 19
            &&& hits[n - 2].1.width == ("p"@ + " presets"@).len()
            &&& hits[n - 1].0 == TuiButton::SaveButton
            &&& hits[n - 1].1.x == area.x + area.width - 8
            &&& hits[n - 1].1.width == ("s"@ + " save"@).len()
            &&& hits[n - 1].1.y == area.y
            &&& n == if preset.active_preset is Some { 3int } else { 2 }
        }),
{
    reveal_strlit("p");
    reveal_strlit(" presets");
    reveal_strlit("s");
    reveal_strlit(" save");
}

} // verus!
