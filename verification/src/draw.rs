//! Top-level draw_ui() dispatching by screen.

use crate::app_state::AppState;
use crate::button_map::{ButtonRenderMap, Hit};
use crate::draw_browse::menus::bare;
use crate::draw_browse::screen::{
    draw_browse_screen, list_drawable, message_of, shows_browse, status_of,
};
use crate::draw_footer::{draw_footer, screen_name, shows_footer, AppScreen};
use crate::draw_header::{draw_header, header_scene};
use crate::draw_overlays::{draw_overlay, drawable, shows_overlay};
use crate::draw_settings::{draw_settings_screen, shows_settings};
use crate::geometry::Rect;
use crate::layout::{divides, split, Constraint, Direction};
use crate::scene::{line1, line_op, sp, text_op, LineV, Op, OpV, Panel, Rows, Scene, SceneV};
use crate::style::{bg, muted, on, plain, Tone};
use crate::text::cat3;
use vstd::prelude::*;

verus! {

/// The colours that the wizard paints with.
#[derive(Clone, Copy, Debug, PartialEq, Eq, Structural)]
pub struct WizardTheme {
    pub background: Tone,
    pub surface: Tone,
    pub overlay: Tone,
    pub border: Tone,
    pub title: Tone,
    pub text: Tone,
    pub text_muted: Tone,
    pub text_dim: Tone,
    pub accent: Tone,
    pub selected_bg: Tone,
    pub selected_fg: Tone,
    pub hover_bg: Tone,
    pub focus_bg: Tone,
    pub success: Tone,
    pub warning: Tone,
    pub error: Tone,
    pub error_dim: Tone,
    pub disabled_bg: Tone,
    pub disabled_fg: Tone,
    pub input_bg: Tone,
}

/// The colours of the palette that the wizard paints with.
#[verifier::allow_in_spec]
pub fn wizard_theme_from_tonepoet_theme() -> WizardTheme
    returns
        (WizardTheme {
            background: Tone::Bg,
            surface: Tone::Surface,
            overlay: Tone::DropdownBg,
            border: Tone::Border,
            title: Tone::Title,
            text: Tone::Text,
            text_muted: Tone::TextMuted,
            text_dim: Tone::TextDim,
            accent: Tone::Info,
            selected_bg: Tone::SelectionBg,
            selected_fg: Tone::PanelBg,
            hover_bg: Tone::HoverBg,
            focus_bg: Tone::InputFocusedBg,
            success: Tone::Success,
            warning: Tone::Warning,
            error: Tone::Error,
            error_dim: Tone::ErrorDim,
            disabled_bg: Tone::InputDisabledBg,
            disabled_fg: Tone::TextDim,
            input_bg: Tone::InputUnfocusedBg,
        }),
{
    WizardTheme {
        background: Tone::Bg,
        surface: Tone::Surface,
        overlay: Tone::DropdownBg,
        border: Tone::Border,
        title: Tone::Title,
        text: Tone::Text,
        text_muted: Tone::TextMuted,
        text_dim: Tone::TextDim,
        accent: Tone::Info,
        selected_bg: Tone::SelectionBg,
        selected_fg: Tone::PanelBg,
        hover_bg: Tone::HoverBg,
        focus_bg: Tone::InputFocusedBg,
        success: Tone::Success,
        warning: Tone::Warning,
        error: Tone::Error,
        error_dim: Tone::ErrorDim,
        disabled_bg: Tone::InputDisabledBg,
        disabled_fg: Tone::TextDim,
        input_bg: Tone::InputUnfocusedBg,
    }
}

/// The wizard, or a line that says there is none.
pub open spec fn wizard_scene(active: bool, area: Rect) -> SceneV {
    if active {
        seq![OpV::Host { panel: Panel::Wizard, area }]
    } else {
        seq![
            text_op(
                area,
                bare("No wizard active. Press Esc to return."@),
                on(Tone::Text, Tone::Bg),
            ),
        ]
    }
}

/// Draw the wizard screen.
pub fn draw_wizard_screen(area: Rect, active: bool) -> (r: Scene)
    ensures
        r@ == wizard_scene(active, area),
{
    let mut scene = Scene::new();
    if active {
        scene.push(Op::Host { panel: Panel::Wizard, area });
    } else {
        let rows = Rows::of(line1("No wizard active. Press Esc to return.", plain()));
        proof {
            assert(rows@ =~~= bare("No wizard active. Press Esc to return."@));
        }
        scene.text(area, rows, on(Tone::Text, Tone::Bg));
    }
    scene
}

/// The rows of the placeholder screen.
pub open spec fn placeholder_parts() -> Seq<Constraint> {
    seq![Constraint::Min(10), Constraint::Length(2)]
}

/// What the placeholder screen says.
pub open spec fn placeholder_line(screen: AppScreen) -> LineV {
    seq![sp("  "@ + screen_name(screen) + " — coming soon"@, muted())]
}

/// `scene` and `hits` show a screen in its rows, with `front` above the footer in row
/// `last`.
pub open spec fn shows_with_footer(
    app: AppState,
    front: SceneV,
    last: Rect,
    scene: SceneV,
    hits: Seq<Hit>,
) -> bool {
    exists|footer: SceneV| #[trigger]
        shows_footer(
            last,
            app.current_screen,
            message_of(app),
            app.shown.has_file_task_messages,
            footer,
            hits,
        ) && scene == front + footer
}

fn add_footer(app: &AppState, front: Scene, last: Rect) -> (r: (Scene, ButtonRenderMap))
    requires
        last.wf(),
    ensures
        shows_with_footer(*app, front@, last, r.0@, r.1@),
{
    let mut scene = front;
    let (footer, hits) = draw_footer(
        last,
        app.current_screen,
        status_of(app),
        app.shown.has_file_task_messages,
    );
    proof {
        assert(shows_footer(
            last,
            app.current_screen,
            message_of(*app),
            app.shown.has_file_task_messages,
            footer@,
            hits@,
        ));
    }
    scene.append(footer);
    (scene, hits)
}

/// `scene` and `hits` show the placeholder screen.
pub open spec fn shows_placeholder(app: AppState, area: Rect, scene: SceneV, hits: Seq<Hit>) -> bool {
    exists|chunks: Seq<Rect>| #[trigger]
        divides(Direction::Vertical, placeholder_parts(), area, chunks) && shows_with_footer(
            app,
            seq![line_op(chunks[0], placeholder_line(app.current_screen))],
            chunks[1],
            scene,
            hits,
        )
}

/// Draw a placeholder screen for unimplemented tabs.
pub fn draw_placeholder_screen(area: Rect, app: &AppState) -> (r: (Scene, ButtonRenderMap))
    requires
        area.wf(),
    ensures
        shows_placeholder(*app, area, r.0@, r.1@),
{
    let mut wishes: Vec<Constraint> = Vec::new();
    wishes.push(Constraint::Min(10));
    wishes.push(Constraint::Length(2));
    proof {
        assert(wishes@ =~= placeholder_parts());
    }
    let chunks = split(Direction::Vertical, &wishes, area);
    assert(divides(Direction::Vertical, placeholder_parts(), area, chunks@));
    assert(chunks@[1].within(area));
    let text = cat3("  ", app.current_screen.tab_label(), " — coming soon");
    let line = line1(text.as_str(), muted());
    let mut front = Scene::new();
    front.line(chunks[0], line);
    proof {
        assert(front@ =~= seq![line_op(chunks@[0], placeholder_line(app.current_screen))]);
    }
    add_footer(app, front, chunks[1])
}

/// The rows of the queue screen: header, a blank, statistics, a blank, contents and
/// footer.
pub open spec fn queue_parts() -> Seq<Constraint> {
    seq![
        Constraint::Length(7),
        Constraint::Length(1),
        Constraint::Length(1),
        Constraint::Length(1),
        Constraint::Min(10),
        Constraint::Length(2),
    ]
}

/// The queue screen above its footer.
pub open spec fn queue_front(app: AppState, chunks: Seq<Rect>) -> SceneV {
    header_scene(chunks[0], app.shown.version@) + seq![
        OpV::Host { panel: Panel::QueueStats, area: chunks[2] },
        OpV::Host { panel: Panel::QueueScreen, area: chunks[4] },
    ]
}

/// `scene` and `hits` show the queue screen.
pub open spec fn shows_queue(app: AppState, area: Rect, scene: SceneV, hits: Seq<Hit>) -> bool {
    exists|chunks: Seq<Rect>| #[trigger]
        divides(Direction::Vertical, queue_parts(), area, chunks) && shows_with_footer(
            app,
            queue_front(app, chunks),
            chunks[5],
            scene,
            hits,
        )
}

/// The queue screen.
pub fn draw_queue(area: Rect, app: &AppState) -> (r: (Scene, ButtonRenderMap))
    requires
        area.wf(),
    ensures
        shows_queue(*app, area, r.0@, r.1@),
{
    let mut wishes: Vec<Constraint> = Vec::new();
    wishes.push(Constraint::Length(7));
    wishes.push(Constraint::Length(1));
    wishes.push(Constraint::Length(1));
    wishes.push(Constraint::Length(1));
    wishes.push(Constraint::Min(10));
    wishes.push(Constraint::Length(2));
    proof {
        assert(wishes@ =~= queue_parts());
    }
    let chunks = split(Direction::Vertical, &wishes, area);
    assert(divides(Direction::Vertical, queue_parts(), area, chunks@));
    assert(chunks@[5].within(area));
    let mut front = Scene::new();
    draw_header(&mut front, chunks[0], app.shown.version.as_str());
    front.push(Op::Host { panel: Panel::QueueStats, area: chunks[2] });
    front.push(Op::Host { panel: Panel::QueueScreen, area: chunks[4] });
    proof {
        assert(front@ =~= queue_front(*app, chunks@));
    }
    add_footer(app, front, chunks[5])
}

/// `scene` and `hits` show the screen that is current, and `after` is `app` once it was
/// drawn.
pub open spec fn shows_screen(
    app: AppState,
    after: AppState,
    area: Rect,
    scene: SceneV,
    hits: Seq<Hit>,
) -> bool {
    &&& !(app.current_screen is Browse) ==> after == app
    &&& match app.current_screen {
        AppScreen::Browse => shows_browse(app, after, area, scene, hits),
        AppScreen::Convert => scene == seq![OpV::Host { panel: Panel::ConvertScreen, area }]
            && hits == Seq::<Hit>::empty(),
        AppScreen::Queue => shows_queue(app, area, scene, hits),
        AppScreen::Wizard => scene == wizard_scene(app.shown.wizard_active, area) && hits
            == Seq::<Hit>::empty(),
        AppScreen::Config => shows_settings(
            app.shown.settings,
            area,
            message_of(app),
            app.shown.has_file_task_messages,
            scene,
            hits,
        ),
        AppScreen::Library => shows_placeholder(app, area, scene, hits),
    }
}

/// What the current screen shows is there: on the browse screen, the list is not scrolled
/// past its end where it shows entries or names a new one.
pub open spec fn screen_drawable(app: AppState) -> bool {
    app.current_screen is Browse ==> list_drawable(app)
}

fn draw_screen(area: Rect, app: &mut AppState) -> (r: (Scene, ButtonRenderMap))
    requires
        area.wf(),
        screen_drawable(*old(app)),
    ensures
        shows_screen(*old(app), *final(app), area, r.0@, r.1@),
{
    match app.current_screen {
        AppScreen::Browse => draw_browse_screen(area, app),
        AppScreen::Convert => {
            let mut scene = Scene::new();
            scene.push(Op::Host { panel: Panel::ConvertScreen, area });
            (scene, ButtonRenderMap::new())
        },
        AppScreen::Queue => draw_queue(area, app),
        AppScreen::Wizard => (
            draw_wizard_screen(area, app.shown.wizard_active),
            ButtonRenderMap::new(),
        ),
        AppScreen::Config => draw_settings_screen(
            area,
            &app.shown.settings,
            status_of(app),
            app.shown.has_file_task_messages,
        ),
        AppScreen::Library => draw_placeholder_screen(area, app),
    }
}

/// The background of the whole screen.
pub open spec fn background(size: Rect) -> OpV {
    text_op(size, bare(""@), bg(Tone::Bg))
}

/// `scene` and `hits` show the whole program: the background, the current screen, and
/// the dialog on top of it; `after` is `app` once it was drawn.
pub open spec fn shows_ui(
    app: AppState,
    after: AppState,
    size: Rect,
    scene: SceneV,
    hits: Seq<Hit>,
) -> bool {
    exists|screen: SceneV, screen_hits: Seq<Hit>, over: SceneV, over_hits: Seq<Hit>|
        #![trigger shows_screen(app, after, size, screen, screen_hits), shows_overlay(
            app,
            size,
            over,
            over_hits,
        )]
        shows_screen(app, after, size, screen, screen_hits) && shows_overlay(
            app,
            size,
            over,
            over_hits,
        ) && scene == seq![background(size)] + screen + over && hits == screen_hits + over_hits
}

/// Main draw function dispatching to screen-specific renderers.
pub fn draw_ui(size: Rect, app: &mut AppState) -> (r: (Scene, ButtonRenderMap))
    requires
        size.wf(),
        screen_drawable(*old(app)),
        drawable(old(app).active_overlay),
    ensures
        shows_ui(*old(app), *final(app), size, r.0@, r.1@),
{
    let mut scene = Scene::new();
    let rows = Rows::of(line1("", plain()));
    proof {
        assert(rows@ =~~= bare(""@));
    }
    scene.text(size, rows, bg(Tone::Bg));
    let (over, over_hits) = draw_overlay(size, app);
    let (screen, mut hits) = draw_screen(size, app);
    proof {
        assert(scene@ =~= seq![background(size)]);
        assert(shows_screen(*old(app), *app, size, screen@, hits@));
        assert(shows_overlay(*old(app), size, over@, over_hits@));
    }
    scene.append(screen);
    scene.append(over);
    hits.append(over_hits);
    (scene, hits)
}

} // verus!
