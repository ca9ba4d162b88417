//! Disc actions: what is loaded, what is said, and what keys and clicks change.

use crate::browse::DiscProbeFollowup;
use crate::button_map::TuiButton;
use crate::disc::{
    known_contents, known_error, probe_index, DiscContents, DiscPresentation, DiscProbeCacheEntry,
    DiscProbeOutcome, PresentationId,
};
use crate::disc_browser::DiscBrowserV;
use crate::disc_browser_actions::{
    stream_index, text_of, AppV, ContextAction, EffectV, KeyCode, OverlayV, SourceV,
};
use crate::draw_footer::AppScreen;
use crate::text::{decimal, trimmed};
use std::sync::Arc;
use vstd::prelude::*;

verus! {

/// The convert screen has the tags of the disc: title, artist, genre and year as the disc gives
/// them, and the album of the disc; the label of the disc stands in only where the disc names no
/// album and the label is not blank.
pub open spec fn tagged_by(app: AppV, contents: DiscContents) -> bool {
    let tags = contents.metadata;
    &&& (tags.title matches Some(title) ==> app.tags.title == Some(title@))
    &&& (tags.title is None ==> app.tags.title is None)
    &&& (tags.artist matches Some(artist) ==> app.tags.artist == Some(artist@))
    &&& (tags.artist is None ==> app.tags.artist is None)
    &&& (tags.genre matches Some(genre) ==> app.tags.genre == Some(genre@))
    &&& (tags.genre is None ==> app.tags.genre is None)
    &&& (tags.year matches Some(year) ==> app.tags.year == Some(year@))
    &&& (tags.year is None ==> app.tags.year is None)
    &&& (tags.album matches Some(album) ==> app.tags.album == Some(album@))
    &&& (tags.album is None && trimmed(contents.label@).len() > 0 ==> app.tags.album == Some(
        contents.label@,
    ))
    &&& (tags.album is None && trimmed(contents.label@).len() == 0 ==> app.tags.album is None)
}

/// Stream `i` of the disc is what is to be converted: its own tracks in their order, with their
/// numbers and titles, and its own identity.
pub open spec fn converts(app: AppV, contents: DiscContents, i: int) -> bool {
    let stream = contents.presentations@[i];
    app.source matches SourceV::Stream { tracks, id } && id == stream.id && tracks.len()
        == stream.tracks@.len() && forall|t: int|
        0 <= t < tracks.len() ==> (#[trigger] tracks[t]).number == stream.tracks@[t].number
            && tracks[t].title == text_of(stream.tracks@[t].title)
}

/// `after` is `before` with stream `i` of the disc loaded: the convert screen shows it with the
/// tags of the disc, no dialog is open, the host is asked for the defaults of the source and to
/// remember the disc, and nothing else has changed.
pub open spec fn loaded_from(before: AppV, after: AppV, contents: DiscContents, i: int) -> bool {
    &&& 0 <= i < contents.presentations@.len()
    &&& contents.presentations@[i].load_error is None
    &&& tagged_by(after, contents)
    &&& converts(after, contents, i)
    &&& after.screen == AppScreen::Convert
    &&& after.overlay is Closed
    &&& after.return_target is None
    &&& after.status == Some("Loaded stream: "@ + contents.presentations@[i].label@)
    &&& after.effects.len() == before.effects.len() + 2
    &&& after.effects.take(before.effects.len() as int) == before.effects
    &&& after.effects[before.effects.len() as int] == EffectV::ApplySourceDefaults
    &&& after.effects.last() == EffectV::RecordRecentUse(contents.source_path@)
    &&& after.cache == before.cache
    &&& after.pending == before.pending
    &&& after.followups == before.followups
    &&& after.selected == before.selected
}

/// A stream that can be loaded is loaded, and nothing is reported as failed.
pub proof fn loading_takes_over_stream_and_tags(app: AppV, contents: &DiscContents, i: int)
    requires
        0 <= i < contents.presentations@.len(),
        contents.presentations@[i].load_error is None,
    ensures
        AppV::load_error(*contents, i) is None,
        loaded_from(app, app.loaded(*contents, i), *contents, i),
        forall|words: Seq<char>| #[trigger]
            app.loaded_or_says(*contents, i, words) == app.loaded(*contents, i),
{
    let after = app.loaded(*contents, i);
    assert(after.effects.take(app.effects.len() as int) =~= app.effects);
}

/// A stream that cannot be loaded gives its own error and leaves the source, the screen, the
/// dialog and what the host is asked for as they were; only the tags are those of the disc.
pub proof fn unloadable_stream_gives_its_error(app: AppV, contents: DiscContents, i: int)
    requires
        0 <= i < contents.presentations@.len(),
        contents.presentations@[i].load_error is Some,
    ensures
        AppV::load_error(contents, i) == Some(contents.presentations@[i].load_error->0@),
        tagged_by(app.loaded(contents, i), contents),
        app.loaded(contents, i) == (AppV { tags: app.loaded(contents, i).tags, ..app }),
        forall|words: Seq<char>|
            (#[trigger] app.loaded_or_says(contents, i, words)).status == Some(
                words + contents.presentations@[i].load_error->0@,
            ),
{
}

/// A stream that the disc does not have is an error that names its place, counted from one, and
/// changes nothing.
pub proof fn missing_stream_changes_nothing(app: AppV, contents: DiscContents, i: int)
    requires
        contents.presentations@.len() <= i < usize::MAX,
    ensures
        AppV::load_error(contents, i) == Some(
            "No disc stream at index "@ + decimal((i + 1) as nat),
        ),
        app.loaded(contents, i) == app,
{
}

proof fn lemma_probe_index(cache: Seq<DiscProbeCacheEntry>, path: Seq<char>, from: int)
    requires
        0 <= from <= cache.len(),
    ensures
        from <= probe_index(cache, path, from) <= cache.len(),
        probe_index(cache, path, from) < cache.len() ==> cache[probe_index(
            cache,
            path,
            from,
        )].path@ == path,
        forall|j: int|
            from <= j < probe_index(cache, path, from) ==> (#[trigger] cache[j]).path@ != path,
    decreases cache.len() - from,
{
    if from < cache.len() && cache[from].path@ != path {
        lemma_probe_index(cache, path, from + 1);
    }
}

/// What is known of a disc is the outcome of a probe of that very disc that still holds.
pub proof fn knowledge_comes_from_a_current_probe(cache: Seq<DiscProbeCacheEntry>, path: Seq<char>)
    ensures
        known_contents(cache, path) matches Some(contents) ==> exists|j: int|
            0 <= j < cache.len() && (#[trigger] cache[j]).path@ == path && cache[j].current
                && cache[j].outcome == DiscProbeOutcome::Contents(contents),
        known_error(cache, path) matches Some(error) ==> exists|j: int|
            0 <= j < cache.len() && (#[trigger] cache[j]).path@ == path && cache[j].current
                && (cache[j].outcome matches DiscProbeOutcome::Error(e) && e@ == error),
        !(known_contents(cache, path) is Some && known_error(cache, path) is Some),
        forall|j: int|
            0 <= j < cache.len() && (#[trigger] cache[j]).path@ == path && cache[j].current && (
            forall|k: int| 0 <= k < j ==> (#[trigger] cache[k]).path@ != path) ==> known_contents(
                cache,
                path,
            ) is Some || known_error(cache, path) is Some,
{
    lemma_probe_index(cache, path, 0);
    let i = probe_index(cache, path, 0);
    if i < cache.len() {
        assert(cache[i].path@ == path);
    }
    assert forall|j: int|
        0 <= j < cache.len() && (#[trigger] cache[j]).path@ == path && cache[j].current && (forall|
            k: int,
        |
            0 <= k < j ==> (#[trigger] cache[k]).path@ != path) implies known_contents(
        cache,
        path,
    ) is Some || known_error(cache, path) is Some by {
        if i < j {
            assert(cache[i].path@ != path);
        }
    }
}

/// Converting a disc by default loads its first stream with the tags of the disc, at once where
/// the disc is known and else once it has been probed.
pub proof fn default_conversion_takes_tags_and_first_stream(
    app: AppV,
    path: Seq<char>,
    contents: Arc<DiscContents>,
)
    requires
        known_contents(app.cache, path) == Some(contents),
        contents.presentations@.len() > 0,
        contents.presentations@[0].load_error is None,
    ensures
        loaded_from(app, app.converted_default(path), *contents, 0),
        loaded_from(
            app,
            app.followed_up(path, DiscProbeFollowup::ConvertDefaultStream),
            *contents,
            0,
        ),
{
    loading_takes_over_stream_and_tags(app, &*contents, 0);
}

proof fn lemma_stream(streams: Seq<DiscPresentation>, id: PresentationId, from: int)
    requires
        0 <= from <= streams.len(),
    ensures
        from <= stream_index(streams, id, from) <= streams.len(),
        stream_index(streams, id, from) < streams.len() ==> streams[stream_index(
            streams,
            id,
            from,
        )].id == id,
        forall|j: int|
            from <= j < stream_index(streams, id, from) ==> (#[trigger] streams[j]).id != id,
    decreases streams.len() - from,
{
    if from < streams.len() && streams[from].id != id {
        lemma_stream(streams, id, from + 1);
    }
}

/// Converting a stream by its identity loads the first stream of the disc with that identity; the
/// error says whether the disc is not probed, has no such stream, or the stream does not load.
pub proof fn stream_is_found_by_its_identity(
    app: AppV,
    path: Seq<char>,
    id: PresentationId,
    id_text: Seq<char>,
)
    ensures
        known_contents(app.cache, path) is None ==> app.stream_error(path, id, id_text) == Some(
            "Disc is not probed yet: "@ + path,
        ) && app.converted_stream(path, id) == app,
        known_contents(app.cache, path) matches Some(contents) ==> {
            let streams = contents.presentations@;
            &&& ((forall|j: int| 0 <= j < streams.len() ==> (#[trigger] streams[j]).id != id)
                ==> app.stream_error(path, id, id_text) == Some(
                "Stream is no longer available: "@ + id_text,
            ) && app.converted_stream(path, id) == app)
            &&& forall|i: int|
                0 <= i < streams.len() && (#[trigger] streams[i]).id == id
                    && streams[i].load_error is None && (forall|j: int|
                    0 <= j < i ==> (#[trigger] streams[j]).id != id) ==> loaded_from(
                    app,
                    app.converted_stream(path, id),
                    *contents,
                    i,
                ) && app.stream_error(path, id, id_text) is None
        },
{
    if let Some(contents) = known_contents(app.cache, path) {
        let streams = contents.presentations@;
        lemma_stream(streams, id, 0);
        let at = stream_index(streams, id, 0);
        assert forall|i: int|
            0 <= i < streams.len() && (#[trigger] streams[i]).id == id
                && streams[i].load_error is None && (forall|j: int|
                0 <= j < i ==> (#[trigger] streams[j]).id != id) implies loaded_from(
            app,
            app.converted_stream(path, id),
            *contents,
            i,
        ) && app.stream_error(path, id, id_text) is None by {
            if at < i {
                assert(streams[at].id != id);
            }
            assert(at == i);
            loading_takes_over_stream_and_tags(app, &*contents, i);
        }
    }
}

/// Enter, a double click and the convert button of the disc browser load the stream that the
/// cursor is on, or that was clicked.
pub proof fn disc_browser_loads_the_stream_it_points_at(app: AppV, state: DiscBrowserV, i: usize)
    requires
        app.overlay == OverlayV::DiscBrowser(state),
        state.cursor < state.contents.presentations@.len(),
        i < state.contents.presentations@.len(),
    ensures
        state.contents.presentations@[state.cursor as int].load_error is None ==> loaded_from(
            app,
            app.pressed(KeyCode::Enter),
            *state.contents,
            state.cursor as int,
        ) && loaded_from(
            app,
            app.clicked(TuiButton::DiscBrowserConvert, 1).0,
            *state.contents,
            state.cursor as int,
        ),
        state.contents.presentations@[i as int].load_error is None ==> loaded_from(
            app,
            app.clicked(TuiButton::DiscBrowserStream(i), 2).0,
            *state.contents,
            i as int,
        ),
{
    if state.contents.presentations@[state.cursor as int].load_error is None {
        loading_takes_over_stream_and_tags(app, &*state.contents, state.cursor as int);
    }
    if state.contents.presentations@[i as int].load_error is None {
        let here = app.clicked(TuiButton::DiscBrowserStream(i), 1).0;
        loading_takes_over_stream_and_tags(here, &*state.contents, i as int);
    }
}

/// The disc browser open in `app`.
pub open spec fn browser_in(app: AppV) -> DiscBrowserV {
    app.overlay->DiscBrowser_0
}

/// `after` differs from `before` in the disc browser alone.
pub open spec fn only_browser_changed(before: AppV, after: AppV) -> bool {
    after.overlay is DiscBrowser && after == (AppV { overlay: after.overlay, ..before })
}

/// The cursor keys move the cursor by one stream and stop at the ends; Home and End take it to
/// the first and the last stream. Nothing else changes but, for Home and End, the scrolling.
pub proof fn cursor_keys_move_the_cursor(app: AppV, state: DiscBrowserV)
    requires
        app.overlay == OverlayV::DiscBrowser(state),
        state.cursor < state.contents.presentations@.len() <= usize::MAX,
    ensures
        forall|key: KeyCode|
            #![trigger app.pressed(key)]
            key == KeyCode::Up || key == KeyCode::Char('k') ==> only_browser_changed(
                app,
                app.pressed(key),
            ) && browser_in(app.pressed(key)) == (DiscBrowserV {
                cursor: if state.cursor > 0 {
                    (state.cursor - 1) as usize
                } else {
                    0
                },
                ..state
            }),
        forall|key: KeyCode|
            #![trigger app.pressed(key)]
            key == KeyCode::Down || key == KeyCode::Char('j') ==> only_browser_changed(
                app,
                app.pressed(key),
            ) && browser_in(app.pressed(key)) == (DiscBrowserV {
                cursor: if state.cursor + 1 < state.contents.presentations@.len() {
                    (state.cursor + 1) as usize
                } else {
                    state.cursor
                },
                ..state
            }),
        only_browser_changed(app, app.pressed(KeyCode::Home)),
        browser_in(app.pressed(KeyCode::Home)) == (DiscBrowserV { cursor: 0, scroll: 0, ..state }),
        only_browser_changed(app, app.pressed(KeyCode::End)),
        browser_in(app.pressed(KeyCode::End)) == (DiscBrowserV {
            cursor: (state.contents.presentations@.len() - 1) as usize,
            scroll: browser_in(app.pressed(KeyCode::End)).scroll,
            ..state
        }),
{
}

/// The space bar marks the stream at the cursor or takes its mark away, the arrow to the right
/// shows or hides its details; every other stream stays as it is.
pub proof fn toggles_change_the_stream_at_the_cursor(app: AppV, state: DiscBrowserV)
    requires
        app.overlay == OverlayV::DiscBrowser(state),
        state.cursor < state.expanded.len(),
        state.cursor < state.selected.len(),
    ensures
        only_browser_changed(app, app.pressed(KeyCode::Char(' '))),
        ({
            let marked = browser_in(app.pressed(KeyCode::Char(' ')));
            &&& marked == (DiscBrowserV { selected: marked.selected, ..state })
            &&& marked.selected.len() == state.selected.len()
            &&& forall|i: int|
                0 <= i < state.selected.len() ==> (#[trigger] marked.selected[i] == (
                state.selected[i] != (i == state.cursor)))
        }),
        forall|key: KeyCode|
            #![trigger app.pressed(key)]
            key == KeyCode::Right || key == KeyCode::Char('e') || key == KeyCode::Char('E') ==> {
                let shown = browser_in(app.pressed(key));
                &&& only_browser_changed(app, app.pressed(key))
                &&& shown == (DiscBrowserV { expanded: shown.expanded, ..state })
                &&& shown.expanded.len() == state.expanded.len()
                &&& forall|i: int|
                    0 <= i < state.expanded.len() ==> (#[trigger] shown.expanded[i] == (
                    state.expanded[i] != (i == state.cursor)))
            },
{
}

/// The page keys scroll by ten rows, never above the first and never below the last row.
pub proof fn page_keys_scroll(app: AppV, state: DiscBrowserV)
    requires
        app.overlay == OverlayV::DiscBrowser(state),
        state.scroll + 10 <= usize::MAX,
    ensures
        only_browser_changed(app, app.pressed(KeyCode::PageUp)),
        browser_in(app.pressed(KeyCode::PageUp)) == (DiscBrowserV {
            scroll: if state.scroll > 10 {
                (state.scroll - 10) as usize
            } else {
                0
            },
            ..state
        }),
        only_browser_changed(app, app.pressed(KeyCode::PageDown)),
        ({
            let down = browser_in(app.pressed(KeyCode::PageDown));
            &&& down == (DiscBrowserV { scroll: down.scroll, ..state })
            &&& state.all_rows() > state.scroll + 10 ==> down.scroll == state.scroll + 10
            &&& state.all_rows() <= state.scroll + 10 ==> down.scroll == if state.all_rows() > 0 {
                state.all_rows() - 1
            } else {
                0
            }
        }),
{
}

/// Escape, q and the close button close the disc browser and do nothing else.
pub proof fn closing_only_closes(app: AppV, state: DiscBrowserV)
    requires
        app.overlay == OverlayV::DiscBrowser(state),
    ensures
        app.pressed(KeyCode::Esc) == (AppV { overlay: OverlayV::Closed, ..app }),
        app.pressed(KeyCode::Char('q')) == (AppV { overlay: OverlayV::Closed, ..app }),
        app.pressed(KeyCode::Char('Q')) == (AppV { overlay: OverlayV::Closed, ..app }),
        app.clicked(TuiButton::DiscBrowserClose, 1) == (
            (AppV { overlay: OverlayV::Closed, ..app }),
            true,
        ),
{
}

/// A click on a stream puts the cursor on it, a click on its arrow shows or hides its details as
/// well; nothing else changes.
pub proof fn click_points_at_the_stream(app: AppV, state: DiscBrowserV, i: usize)
    requires
        app.overlay == OverlayV::DiscBrowser(state),
        i < state.contents.presentations@.len(),
        i < state.expanded.len(),
    ensures
        app.clicked(TuiButton::DiscBrowserStream(i), 1).1,
        only_browser_changed(app, app.clicked(TuiButton::DiscBrowserStream(i), 1).0),
        browser_in(app.clicked(TuiButton::DiscBrowserStream(i), 1).0) == (DiscBrowserV {
            cursor: i,
            ..state
        }),
        app.clicked(TuiButton::DiscBrowserExpand(i), 1).1,
        only_browser_changed(app, app.clicked(TuiButton::DiscBrowserExpand(i), 1).0),
        ({
            let shown = browser_in(app.clicked(TuiButton::DiscBrowserExpand(i), 1).0);
            &&& shown == (DiscBrowserV { cursor: i, expanded: shown.expanded, ..state })
            &&& shown.expanded.len() == state.expanded.len()
            &&& forall|j: int|
                0 <= j < state.expanded.len() ==> (#[trigger] shown.expanded[j] == (
                state.expanded[j] != (j == i)))
        }),
{
}

/// The disc browser opens on the streams of the disc, with the cursor on the first, nothing
/// marked and no details shown.
pub proof fn disc_browser_opens_fresh(app: AppV, contents: Arc<DiscContents>, path: Seq<char>)
    ensures
        contents.presentations@.len() > 0 ==> {
            let after = app.opened(contents, path);
            let state = browser_in(after);
            &&& only_browser_changed(app, after)
            &&& state.contents == contents
            &&& state.source_path == path
            &&& state.cursor == 0
            &&& state.scroll == 0
            &&& state.expanded.len() == contents.presentations@.len()
            &&& state.selected.len() == contents.presentations@.len()
            &&& forall|i: int|
                0 <= i < contents.presentations@.len() ==> !(#[trigger] state.expanded[i])
                    && !state.selected[i]
        },
        contents.presentations@.len() == 0 ==> app.opened(contents, path) == (AppV {
            status: Some("Disc contains no selectable audio streams"@),
            ..app
        }),
{
}

/// The commands of the context menu and of the info pane act on the selected entry.
pub proof fn commands_act_on_the_selected_entry(
    app: AppV,
    path: Seq<char>,
    is_disc: bool,
    id: PresentationId,
    id_text: String,
)
    requires
        app.selected == Some((path, is_disc)),
    ensures
        app.acted(ContextAction::ConvertDiscDefault) == (app.converted_default(path), true),
        app.acted(ContextAction::ConvertCustom) == if is_disc {
            (app.converted_default(path), true)
        } else {
            (app, false)
        },
        app.acted(ContextAction::BrowseDiscStreams).1,
        is_disc ==> app.acted(ContextAction::BrowseDiscStreams).0 == app.opened_at(path),
        !is_disc ==> app.acted(ContextAction::BrowseDiscStreams).0 == (AppV {
            status: Some("Selected entry is not a browsable disc source"@),
            ..app
        }),
        app.clicked(TuiButton::BrowseInfoAudioStreams, 1) == app.acted(
            ContextAction::BrowseDiscStreams,
        ),
        app.clicked(TuiButton::BrowseInfoAnalyze, 1) == if is_disc {
            (app.reprobed(path), true)
        } else {
            (app, false)
        },
        app.acted(ContextAction::ConvertDiscStream { id, id_text }).1,
        app.stream_error(path, id, id_text@) is None ==> app.acted(
            ContextAction::ConvertDiscStream { id, id_text },
        ).0 == app.converted_stream(path, id),
        app.stream_error(path, id, id_text@) matches Some(error) ==> app.acted(
            ContextAction::ConvertDiscStream { id, id_text },
        ).0 == (AppV {
            status: Some("Disc stream load failed: "@ + error),
            ..app.converted_stream(path, id)
        }),
        app.acted(ContextAction::Other) == (app, false),
{
}

/// A probe that is asked for is put on the list of those under way and handed to the host, once;
/// nothing else changes but the message.
pub proof fn probe_is_handed_to_the_host(app: AppV, path: Seq<char>)
    ensures
        app.pending.contains(path) ==> app.requested(path) == (AppV {
            status: Some("Disc analysis already in progress..."@),
            ..app
        }),
        !app.pending.contains(path) ==> app.requested(path) == (AppV {
            status: Some("Analyzing disc streams..."@),
            pending: app.pending.push(path),
            effects: app.effects.push(EffectV::SpawnDiscProbe(path)),
            ..app
        }),
        app.reprobed(path).tags == app.tags,
        app.reprobed(path).source == app.source,
        app.reprobed(path).screen == app.screen,
        app.reprobed(path).overlay == app.overlay,
        app.reprobed(path).followups == app.followups,
        known_contents(app.cache, path) is Some ==> app.ensured(path) == app,
        known_error(app.cache, path) matches Some(error) ==> app.ensured(path).status == Some(
            "Disc analysis failed for current source; use Analyze to retry: "@ + error,
        ),
{
}

} // verus!
