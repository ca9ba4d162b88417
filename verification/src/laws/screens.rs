//! Screens and panes as a whole.

use crate::app_state::AppState;
use crate::browse::{BrowseState, TabInfo};
use crate::button_map::{Hit, TuiButton};
use crate::convert::{MetadataState, SourceMode};
use crate::draw::{shows_screen, shows_ui};
use crate::draw_browse::explore::{
    explore_frame, explore_hits, explore_scene, tree_drawn, tree_shown, TreeContext,
};
use crate::draw_browse::info::{entry_info, info_hits, info_scene, no_selection_info};
use crate::draw_browse::menus::panel_inside;
use crate::draw_browse::screen::{info_part, inline_of};
use crate::draw_browse::tabs::{
    cell_width, first_tab, tab_strip, tabs_width, visible_tabs, with_tabs, StripV,
};
use crate::draw_metadata::{batch_rows, metadata_lines, single_rows, source_rows, track_rows};
use crate::draw_output_options::{option_button, option_hits, pill_hits, template_hits, OptionGroup};
use crate::draw_settings::{
    appearance_lines, conversion_lines, keychain_scene, performance_lines, settings_panes,
    SettingsState,
};
use crate::geometry::{inside_border, Rect};
use crate::pill::PillState;
use crate::scene::{OpV, Panel, SceneV};
use crate::style::Tone;
use vstd::prelude::*;

verus! {

/// The columns before option `i` of a row of choices: every option before it takes its label and
/// a blank on each side, and two blanks stand between options.
pub open spec fn options_before(pills: PillState, i: nat) -> int
    decreases i,
{
    if i == 0 {
        0
    } else {
        options_before(pills, (i - 1) as nat) + pills.options@[i - 1].label@.len() + 4
    }
}

proof fn lemma_options_before(pills: PillState, a: nat, b: nat)
    requires
        a <= b <= pills.options@.len(),
    ensures
        0 <= options_before(pills, a) <= options_before(pills, b),
        a < b ==> options_before(pills, a) + pills.options@[a as int].label@.len() + 4
            <= options_before(pills, b),
    decreases b,
{
    if a < b {
        lemma_options_before(pills, a, (b - 1) as nat);
    } else if b > 0 {
        lemma_options_before(pills, (b - 1) as nat, (b - 1) as nat);
    }
}

proof fn lemma_option_hits(
    pills: PillState,
    group: OptionGroup,
    y: u16,
    right: int,
    x0: int,
    i: int,
    x: int,
    k: int,
)
    requires
        0 <= i <= k < pills.options@.len(),
        0 <= x0,
        x == if i == 0 { x0 } else { x0 + options_before(pills, i as nat) - 2 },
        x0 + options_before(pills, pills.options@.len()) <= right <= u16::MAX,
    ensures
        ({
            let hits = option_hits(pills, group, y, right, i, x);
            let at = k - i;
            &&& hits.len() == pills.options@.len() - i
            &&& hits[at].0 == option_button(group, k as usize)
            &&& hits[at].1.x == x0 + options_before(pills, k as nat)
            &&& hits[at].1.width == pills.options@[k].label@.len() + 2
            &&& hits[at].1.y == y
        }),
    decreases pills.options@.len() - i,
{
    let n = pills.options@.len();
    lemma_options_before(pills, i as nat, n);
    lemma_options_before(pills, i as nat, (i + 1) as nat);
    lemma_options_before(pills, (i + 1) as nat, n);
    let start = x0 + options_before(pills, i as nat);
    let w = pills.options@[i].label@.len() + 2;
    let rest = option_hits(pills, group, y, right, i + 1, start + w);
    let hits = option_hits(pills, group, y, right, i, x);
    assert(start + w <= right);
    assert(hits == seq![hits[0]] + rest);
    if i + 1 < n {
        lemma_option_hits(
            pills,
            group,
            y,
            right,
            x0,
            i + 1,
            start + w,
            if k > i { k } else { i + 1 },
        );
        if k > i {
            assert(hits[k - i] == rest[k - i - 1]);
        }
    } else {
        assert(rest.len() == 0);
    }
}

/// Each option of a row of choices is clicked where it is drawn, and is chosen by its own number.
pub proof fn option_is_clicked_where_it_is_drawn(
    area: Rect,
    row: int,
    label: Seq<char>,
    pills: PillState,
    group: OptionGroup,
    k: int,
)
    requires
        area.wf(),
        0 <= row < area.height - 1,
        0 <= k < pills.options@.len(),
        area.x + 1 + label.len() + 5 + options_before(pills, pills.options@.len()) <= area.x
            + area.width - 1,
    ensures
        ({
            let hits = pill_hits(area, row, label, pills, group);
            &&& hits.len() == pills.options@.len()
            &&& hits[k].0 == match group {
                OptionGroup::Merge => TuiButton::MergePill(k as usize),
                OptionGroup::ForceEncode => TuiButton::ForceEncodePill(k as usize),
                OptionGroup::DiscSubfolders => TuiButton::DiscSubfoldersPill(k as usize),
                OptionGroup::WriteLog => TuiButton::WriteLogPill(k as usize),
            }
            &&& hits[k].1.x == area.x + 1 + ("   "@ + label + "  "@).len() + options_before(
                pills,
                k as nat,
            )
            &&& hits[k].1.width == (" "@ + pills.options@[k].label@ + " "@).len()
            &&& hits[k].1.y == area.y + row
        }),
{
    reveal_strlit("   ");
    reveal_strlit("  ");
    reveal_strlit(" ");
    let n = pills.options@.len();
    lemma_options_before(pills, 0, n);
    let x0 = area.x + 1 + label.len() + 5;
    lemma_option_hits(
        pills,
        group,
        (area.y + row) as u16,
        area.x + area.width - 1,
        x0,
        0,
        x0,
        k,
    );
}

/// The buttons of a template stand at the right end of its row, before the border: load, a blank,
/// custom; those of the folder's row are for the folder, those of the other for the file name.
pub proof fn template_buttons_are_at_the_right_end(area: Rect, row: int, folder: bool)
    requires
        area.wf(),
        area.width >= 30,
        0 <= row < area.height - 1,
    ensures
        ({
            let hits = template_hits(area, row, folder);
            &&& hits.len() == 2
            &&& hits[0].0 == if folder {
                TuiButton::TemplateLoadFolderButton
            } else {
                TuiButton::TemplateLoadFilenameButton
            }
            &&& hits[1].0 == if folder {
                TuiButton::TemplateBuildFolderButton
            } else {
                TuiButton::TemplateBuildFilenameButton
            }
            &&& hits[0].1.width == " load "@.len()
            &&& hits[1].1.width == " custom "@.len()
            &&& hits[0].1.x + hits[0].1.width + 1 == hits[1].1.x
            &&& hits[1].1.x + hits[1].1.width == area.x + area.width - 1
            &&& hits[0].1.y == area.y + row && hits[1].1.y == area.y + row
        }),
{
    reveal_strlit(" load ");
    reveal_strlit(" custom ");
}

proof fn lemma_tree_placed(area: Rect, browse: BrowseState, ctx: TreeContext, n: nat, k: int, h: int)
    requires
        n == tree_shown(browse, ctx, panel_inside(area)),
        0 <= k < tree_drawn(browse, ctx, panel_inside(area), n).scene.len(),
        0 <= h < tree_drawn(browse, ctx, panel_inside(area), n).hits.len(),
    ensures
        ({
            let tree = tree_drawn(browse, ctx, panel_inside(area), n);
            &&& explore_scene(area, browse, ctx, None)[explore_frame(area).len() + k]
                == tree.scene[k]
            &&& explore_hits(area, browse, ctx, None).len() > 1 + h
            &&& explore_hits(area, browse, ctx, None)[1 + h] == tree.hits[h]
        }),
{
    let tree = tree_drawn(browse, ctx, panel_inside(area), n);
    let frame = explore_frame(area);
    let scene = explore_scene(area, browse, ctx, None);
    let none = Seq::<OpV>::empty();
    assert((frame + tree.scene)[frame.len() + k] == tree.scene[k]);
    assert((frame + tree.scene + none)[frame.len() + k] == tree.scene[k]);
    assert(scene.len() >= frame.len() + tree.scene.len());
}

/// The tree is painted inside its border, below its title, and clicked where it is painted.
pub proof fn tree_is_painted_inside_its_border(
    area: Rect,
    browse: BrowseState,
    ctx: TreeContext,
    k: int,
) -> (h: int)
    requires
        area.wf(),
        area.height >= 3,
        area.width >= 6,
        ctx.inline is None,
        0 <= k < area.height - 2,
        k < browse.nav.tree_nodes@.len() - browse.nav.tree_scroll,
        browse.nav.tree_nodes@[browse.nav.tree_scroll + k].depth <= 10_000,
    ensures
        ({
            let scene = explore_scene(area, browse, ctx, None);
            let hits = explore_hits(area, browse, ctx, None);
            let node = browse.nav.tree_nodes@[browse.nav.tree_scroll + k];
            let painted = scene[explore_frame(area).len() + k];
            &&& painted is Text
            &&& painted->Text_area.y == area.y + 1 + k
            &&& painted->Text_area.x == area.x + 1
            &&& painted->Text_area.width == area.width - 2
            &&& node.name@.is_suffix_of(painted->Text_rows[0][0].text)
            &&& 0 <= h < hits.len()
            &&& hits[h].0 == TuiButton::BrowseTreeNode((browse.nav.tree_scroll + k) as usize)
            &&& hits[h].1 == painted->Text_area
        }),
{
    let inside = panel_inside(area);
    let n = tree_shown(browse, ctx, inside);
    let h = crate::laws::menus::directory_is_clicked_where_it_is_painted(
        browse,
        ctx,
        inside,
        n,
        k,
    );
    let tree = tree_drawn(browse, ctx, inside, n);
    lemma_tree_placed(area, browse, ctx, n, k, h);
    let node = browse.nav.tree_nodes@[browse.nav.tree_scroll + k];
    let text = tree.scene[k]->Text_rows[0][0].text;
    assert(node.name@ =~= text.subrange(text.len() - node.name@.len(), text.len() as int));
    1 + h
}

/// Where all tabs fit, every one is shown and clicked, in order, from the left edge on.
pub proof fn tabs_that_fit_are_all_shown(area: Rect, browse: BrowseState, k: int) -> (h: int)
    requires
        area.wf(),
        area.width > 0,
        0 <= k < browse.nav.tabs@.len(),
        7 * browse.nav.tabs@.len() <= tabs_width(area.width as int, browse.nav.has_closed_tabs),
        browse.nav.active_tab < browse.nav.tabs@.len(),
    ensures
        ({
            let strip = tab_strip(area, browse);
            let painted = strip.scene[k];
            &&& painted->Text_area.y == area.y
            &&& (painted->Text_style.bold <==> browse.nav.tabs@[k].active)
            &&& 0 <= h < strip.hits.len()
            &&& strip.hits[h].0 == TuiButton::BrowseDirTab(browse.nav.tabs@[k].index)
            &&& strip.hits[h].1.x == painted->Text_area.x
            &&& (k == 0 ==> painted->Text_area.x == area.x)
            &&& (k > 0 ==> strip.scene[k - 1]->Text_area.x + strip.scene[k - 1]->Text_area.width
                == painted->Text_area.x)
        }),
{
    let total = browse.nav.tabs@.len() as int;
    let tabs_w = tabs_width(area.width as int, browse.nav.has_closed_tabs);
    let visible = visible_tabs(total, tabs_w);
    assert(visible == total);
    let start = first_tab(total, browse.nav.active_tab as int, visible);
    assert(start == 0);
    let w = cell_width(total, start, visible, tabs_w);
    let begin = StripV {
        scene: Seq::empty(),
        hits: seq![(TuiButton::BrowseDirTabStrip, area)],
        x: area.x as int,
    };
    let n = total as nat;
    assert(7 <= w && n * w <= tabs_w) by {
        let q = tabs_w / total;
        assert(total * q <= tabs_w && q >= 7) by (nonlinear_arith)
            requires
                q == tabs_w / total,
                total > 0,
                7 * total <= tabs_w,
        ;
        assert(w <= q);
        assert(n * w <= total * q) by (nonlinear_arith)
            requires
                n == total,
                0 <= w <= q,
        ;
    }
    let limit = area.x + tabs_w;
    let h = crate::laws::menus::tab_is_clicked_where_it_is_painted(
        begin,
        browse.nav.tabs@,
        0,
        area.y,
        w,
        limit,
        n,
        k,
    );
    let tabs = with_tabs(begin, browse.nav.tabs@, 0, area.y, w, limit, n);
    lemma_controls_keep(tabs, area, browse.nav.has_closed_tabs);
    let strip = tab_strip(area, browse);
    assert(strip == crate::draw_browse::tabs::with_controls(
        tabs,
        area,
        browse.nav.has_closed_tabs,
    ));
    if k > 0 {
        let other = crate::laws::menus::tab_is_clicked_where_it_is_painted(
            begin,
            browse.nav.tabs@,
            0,
            area.y,
            w,
            limit,
            n,
            k - 1,
        );
        assert((k - 1) * w + w == k * w) by (nonlinear_arith);
        assert(strip.scene[k - 1] == tabs.scene[k - 1]);
    } else {
        assert(0 * w == 0) by (nonlinear_arith);
    }
    assert(strip.scene[k] == tabs.scene[k]);
    assert(strip.hits[h] == tabs.hits[h]);
    lemma_tab_row(begin, browse.nav.tabs@, area.y, w, limit, n, k);
    h
}

proof fn lemma_tab_row(
    strip: StripV,
    tabs: Seq<TabInfo>,
    y: u16,
    w: int,
    limit: int,
    n: nat,
    k: int,
)
    requires
        strip.scene.len() == 0,
        0 <= k < n <= tabs.len(),
        0 <= strip.x,
        6 <= w,
        strip.x + n * w <= limit <= 65535,
    ensures
        with_tabs(strip, tabs, 0, y, w, limit, n).scene[k]->Text_area.y == y,
    decreases n,
{
    assert(n * w == (n - 1) * w + w) by (nonlinear_arith);
    crate::laws::menus::tabs_are_side_by_side(strip, tabs, 0, y, w, limit, (n - 1) as nat);
    if k < n - 1 {
        lemma_tab_row(strip, tabs, y, w, limit, (n - 1) as nat, k);
    }
}

proof fn lemma_controls_keep(strip: StripV, area: Rect, has_closed: bool)
    ensures
        ({
            let r = crate::draw_browse::tabs::with_controls(strip, area, has_closed);
            &&& r.scene.len() >= strip.scene.len()
            &&& r.hits.len() >= strip.hits.len()
            &&& forall|i: int|
                0 <= i < strip.scene.len() ==> #[trigger] r.scene[i] == strip.scene[i]
            &&& forall|i: int| 0 <= i < strip.hits.len() ==> #[trigger] r.hits[i] == strip.hits[i]
        }),
{
}

/// The pane of tags shows a single source by its tags; a batch by its files and the tracks of a
/// source by its tracks, scrolled to where they were scrolled, below the row of the album artist.
pub proof fn tags_pane_shows_its_source(
    area: Rect,
    metadata: MetadataState,
    source: SourceMode,
    focused: bool,
    maximized: bool,
    k: int,
)
    requires
        area.height >= 6,
        area.width >= 30,
        0 <= k,
    ensures
        ({
            let lines = metadata_lines(area, metadata, source, focused, maximized);
            let border = if focused { Tone::Purple } else { Tone::TextDim };
            let w = area.width as int;
            let visible = area.height - 3;
            &&& (source is Single && k < 4 ==> lines[1 + k] == single_rows(
                border,
                w,
                metadata,
                focused,
            )[k])
            &&& (source matches SourceMode::Batch { paths, cursor } ==> {
                let rows = batch_rows(
                    border,
                    w,
                    paths@,
                    cursor as int,
                    metadata.file_scroll as int,
                    visible,
                    focused,
                    metadata,
                );
                k < rows.len() ==> lines[2 + k] == rows[k]
            })
            &&& (source matches SourceMode::MultiTrack { tracks, cursor, archive_preview, .. }
                ==> archive_preview is None ==> {
                let rows = track_rows(
                    border,
                    w,
                    tracks@,
                    cursor as int,
                    metadata.file_scroll as int,
                    visible,
                    focused,
                    metadata,
                );
                k < rows.len() ==> lines[2 + k] == rows[k]
            })
        }),
{
    let border = crate::draw_metadata::metadata_border(focused);
    let w = area.width as int;
    let rows = source_rows(border, w, metadata, source, area.height - 2, focused);
    let lines = metadata_lines(area, metadata, source, focused, maximized);
    assert(forall|i: int| 0 <= i < rows.len() ==> lines[1 + i] == #[trigger] rows[i]);
    if let SourceMode::Batch { paths, cursor } = source {
        let list = batch_rows(
            border,
            w,
            paths@,
            cursor as int,
            metadata.file_scroll as int,
            area.height - 3,
            focused,
            metadata,
        );
        if k < list.len() {
            assert(rows[1 + k] == list[k]);
        }
    }
    if let SourceMode::MultiTrack { tracks, cursor, archive_preview, .. } = source {
        if archive_preview is None {
            let list = track_rows(
                border,
                w,
                tracks@,
                cursor as int,
                metadata.file_scroll as int,
                area.height - 3,
                focused,
                metadata,
            );
            if k < list.len() {
                assert(rows[1 + k] == list[k]);
            }
        }
    }
}

/// Every pane of settings has its own place and content, and the border of the one in focus alone
/// stands out.
pub proof fn settings_have_their_panes(state: SettingsState, chunks: Seq<Rect>)
    requires
        chunks.len() == 5,
    ensures
        ({
            let scene = settings_panes(state, chunks);
            &&& scene[0]->Frame_area == chunks[0]
            &&& (scene[0]->Frame_border.fg == Tone::Cyan <==> state.focus is Appearance)
            &&& scene[1]->Text_area == inside_border(chunks[0])
            &&& scene[1]->Text_rows == appearance_lines(
                state.appearance,
                inside_border(chunks[0]).width as int,
            )
            &&& scene[3]->Frame_area == chunks[1]
            &&& (scene[3]->Frame_border.fg == Tone::Cyan <==> state.focus is Conversion)
            &&& scene[4]->Text_area == inside_border(chunks[1])
            &&& scene[4]->Text_rows == conversion_lines(state.conversion)
            &&& scene[5]->Frame_area == chunks[2]
            &&& (scene[5]->Frame_border.fg == Tone::Cyan <==> state.focus is Performance)
            &&& scene[6]->Text_area == inside_border(chunks[2])
            &&& scene[6]->Text_rows == performance_lines(state.browsing)
            &&& scene[7]->Frame_area == chunks[3]
            &&& (scene[7]->Frame_border.fg == Tone::Amber <==> state.focus is Keychain)
            &&& scene.skip(8) == keychain_scene(
                state.keychain,
                inside_border(chunks[3]),
                state.focus is Keychain,
            )
        }),
{
    let scene = settings_panes(state, chunks);
    assert(scene.skip(8) =~= keychain_scene(
        state.keychain,
        inside_border(chunks[3]),
        state.focus is Keychain,
    ));
}

/// The info pane is about the selected entry, and says so where there is none.
pub proof fn info_is_about_the_selected_entry(app: AppState, area: Rect)
    requires
        app.browse.info_enabled,
        !app.browse.nav.info_collapsed,
        area.height >= 4,
        area.width >= 15,
    ensures
        app.browse.selected_index < app.browse.entries@.len() ==> ({
            let info = entry_info(
                app.browse.entries@[app.browse.selected_index as int],
                app.browse.facts,
                (area.width - 2) as usize,
                app.shown.hover_target == Some(TuiButton::BrowseInfoAnalyze),
                app.shown.hover_target == Some(TuiButton::BrowseInfoEditTags),
                app.shown.hover_target == Some(TuiButton::BrowseInfoAudioStreams),
                inline_of(&app),
                app.shown.browse_info_focus,
            );
            &&& info_part(app, area).0 == info_scene(area, info)
            &&& info_part(app, area).1.drop_last() == info_hits(area, info)
        }),
        app.browse.selected_index >= app.browse.entries@.len() ==> info_part(app, area).0
            == info_scene(area, no_selection_info()),
{
    if app.browse.selected_index < app.browse.entries@.len() {
        let info = entry_info(
            app.browse.entries@[app.browse.selected_index as int],
            app.browse.facts,
            (area.width - 2) as usize,
            app.shown.hover_target == Some(TuiButton::BrowseInfoAnalyze),
            app.shown.hover_target == Some(TuiButton::BrowseInfoEditTags),
            app.shown.hover_target == Some(TuiButton::BrowseInfoAudioStreams),
            inline_of(&app),
            app.shown.browse_info_focus,
        );
        assert(info_part(app, area).1.drop_last() =~= info_hits(area, info));
    }
}

/// Only the browse screen remembers anything of being drawn; a screen without a wizard says so, and
/// what the host paints is handed to it over the whole screen. A dialog is painted, and clicked, on
/// top of the screen below it.
pub proof fn dialogs_are_on_top_of_screens(
    app: AppState,
    after: AppState,
    size: Rect,
    scene: SceneV,
    hits: Seq<Hit>,
)
    requires
        shows_ui(app, after, size, scene, hits),
    ensures
        !(app.current_screen is Browse) ==> after == app,
        scene.len() > 0 && scene[0]->Text_area == size,
        app.current_screen is Convert ==> scene[1] == (OpV::Host {
            panel: Panel::ConvertScreen,
            area: size,
        }),
        app.current_screen is Wizard && app.shown.wizard_active ==> scene[1] == (OpV::Host {
            panel: Panel::Wizard,
            area: size,
        }),
        app.current_screen is Convert && app.active_overlay is Closed ==> hits.len() == 0,
        app.shown.bookmarks_open ==> scene.last() == (OpV::Host {
            panel: Panel::Bookmarks,
            area: size,
        }),
{
    let (screen, screen_hits, over, over_hits) = choose|
        screen: SceneV,
        screen_hits: Seq<Hit>,
        over: SceneV,
        over_hits: Seq<Hit>,
    |
        #![trigger shows_screen(app, after, size, screen, screen_hits), crate::draw_overlays::shows_overlay(
            app,
            size,
            over,
            over_hits,
        )]
        shows_screen(app, after, size, screen, screen_hits) && crate::draw_overlays::shows_overlay(
            app,
            size,
            over,
            over_hits,
        ) && scene == seq![crate::draw::background(size)] + screen + over && hits == screen_hits
            + over_hits;
    crate::laws::overlays::side_panels_are_on_top(app, size, over, over_hits);
    if app.current_screen is Convert || app.current_screen is Wizard {
        assert(screen.len() == 1);
        assert(scene[1] == screen[0]);
    }
    if app.shown.bookmarks_open {
        assert(scene.last() == over.last());
    }
}

} // verus!
