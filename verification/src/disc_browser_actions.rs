//! Actions around the disc browser: it opens from the file browser, reacts to keys and
//! buttons, and hands the chosen stream to the convert screen.

use crate::app_state::{kept, kept_by_all, kept_by_nothing, ActiveOverlay, AppState, Effect};
use crate::browse::{DiscFollowup, DiscProbeFollowup};
use crate::button_map::TuiButton;
use crate::convert::{MultiTrackEntry, SourceMode};
use crate::disc::{
    contents_if_current, error_if_current, forget_probe, forgotten_probe_is_unknown, known_contents, known_error, share,
    without_probe, DiscContents, DiscPresentation, DiscProbeCacheEntry, PresentationId,
};
use crate::disc_browser::{flipped, moved, DiscBrowserState, DiscBrowserV};
use crate::draw_footer::AppScreen;
use crate::text::{cat2, dec_len, decimal, least, minus, owned, plus, same, trim, trimmed};
use std::sync::Arc;
use crate::laws::seqs::{lemma_filter_member, lemma_push_member};
use vstd::prelude::*;

verus! {

/// A key of the keyboard.
#[derive(Clone, Copy, Debug, PartialEq, Eq, Structural)]
pub enum KeyCode {
    Up,
    Down,
    Left,
    Right,
    PageUp,
    PageDown,
    Home,
    End,
    Enter,
    Esc,
    Char(char),
    Other,
}

/// An entry of the file browser's context menu.
#[derive(Debug)]
pub enum ContextAction {
    ConvertDiscDefault,
    ConvertCustom,
    BrowseDiscStreams,
    /// `id_text` is how `id` is spelled in messages.
    ConvertDiscStream { id: PresentationId, id_text: String },
    Other,
}

/// A text that may be missing.
pub open spec fn text_of(text: Option<String>) -> Option<Seq<char>> {
    match text {
        Some(text) => Some(text@),
        None => None,
    }
}

fn copy_text(text: &Option<String>) -> (r: Option<String>)
    ensures
        text_of(r) == text_of(*text),
{
    match text {
        Some(text) => Some(owned(text.as_str())),
        None => None,
    }
}

/// The five tags that a disc gives.
pub struct TagsV {
    pub title: Option<Seq<char>>,
    pub artist: Option<Seq<char>>,
    pub album: Option<Seq<char>>,
    pub genre: Option<Seq<char>>,
    pub year: Option<Seq<char>>,
}

/// A track of a source.
pub struct TrackV {
    pub number: u32,
    pub title: Option<Seq<char>>,
}

/// A track of a source.
pub open spec fn track_of(track: MultiTrackEntry) -> TrackV {
    TrackV { number: track.number, title: text_of(track.title) }
}

/// The tracks of a source.
pub open spec fn tracks_of(tracks: Seq<MultiTrackEntry>) -> Seq<TrackV> {
    Seq::new(tracks.len(), |i: int| track_of(tracks[i]))
}

/// What is to be converted: a stream of a disc, or anything else.
pub enum SourceV {
    Stream { tracks: Seq<TrackV>, id: PresentationId },
    Other(SourceMode),
}

/// What is to be converted.
pub open spec fn source_of(mode: SourceMode) -> SourceV {
    match mode {
        SourceMode::MultiTrack {
            tracks,
            cursor,
            archive_preview,
            selected_presentation_id: Some(id),
        } => if cursor == 0 && archive_preview is None {
            SourceV::Stream { tracks: tracks_of(tracks@), id }
        } else {
            SourceV::Other(mode)
        },
        _ => SourceV::Other(mode),
    }
}

/// The overlay: closed, the disc browser, or any other.
pub enum OverlayV {
    Closed,
    DiscBrowser(DiscBrowserV),
    Other(ActiveOverlay),
}

/// The overlay.
pub open spec fn overlay_of(overlay: ActiveOverlay) -> OverlayV {
    match overlay {
        ActiveOverlay::Closed => OverlayV::Closed,
        ActiveOverlay::DiscBrowser(state) => OverlayV::DiscBrowser(state@),
        _ => OverlayV::Other(overlay),
    }
}

/// What the host program is asked to do.
pub enum EffectV {
    SpawnDiscProbe(Seq<char>),
    ApplySourceDefaults,
    RecordRecentUse(Seq<char>),
}

/// What the host program is asked to do.
pub open spec fn effect_of(effect: Effect) -> EffectV {
    match effect {
        Effect::SpawnDiscProbe(path) => EffectV::SpawnDiscProbe(path@),
        Effect::ApplySourceDefaults => EffectV::ApplySourceDefaults,
        Effect::RecordRecentUse(path) => EffectV::RecordRecentUse(path@),
    }
}

/// The part of the program's state that the actions read and change.
pub struct AppV {
    pub status: Option<Seq<char>>,
    pub overlay: OverlayV,
    pub screen: AppScreen,
    pub return_target: Option<AppScreen>,
    pub tags: TagsV,
    pub source: SourceV,
    pub cache: Seq<DiscProbeCacheEntry>,
    pub pending: Seq<Seq<char>>,
    pub followups: Seq<(Seq<char>, DiscProbeFollowup)>,
    pub effects: Seq<EffectV>,
    /// The path of the entry selected in the file browser, and whether it is a disc.
    pub selected: Option<(Seq<char>, bool)>,
}

impl View for AppState {
    type V = AppV;

    open spec fn view(&self) -> AppV {
        AppV {
            status: text_of(self.status),
            overlay: overlay_of(self.active_overlay),
            screen: self.current_screen,
            return_target: self.browse.return_target,
            tags: TagsV {
                title: text_of(self.convert.metadata.title),
                artist: text_of(self.convert.metadata.artist),
                album: text_of(self.convert.metadata.album),
                genre: text_of(self.convert.metadata.genre),
                year: text_of(self.convert.metadata.year),
            },
            source: source_of(self.convert.source),
            cache: self.browse.facts.disc_probe_cache@,
            pending: texts(self.browse.facts.disc_probe_pending@),
            followups: followups_of(self.browse.facts.disc_probe_followup@),
            effects: effects_of(self.effects@),
            selected: match self.browse.selected() {
                Some(entry) => Some((entry.path@, entry.disc_source())),
                None => None,
            },
        }
    }
}

/// A list of texts.
pub open spec fn texts(list: Seq<String>) -> Seq<Seq<char>> {
    Seq::new(list.len(), |i: int| list[i]@)
}

/// A list of follow-ups.
pub open spec fn followups_of(list: Seq<DiscFollowup>) -> Seq<(Seq<char>, DiscProbeFollowup)> {
    Seq::new(list.len(), |i: int| (list[i].path@, list[i].action))
}

/// A list of effects.
pub open spec fn effects_of(list: Seq<Effect>) -> Seq<EffectV> {
    Seq::new(list.len(), |i: int| effect_of(list[i]))
}

broadcast use {kept_by_all, kept_by_nothing};

impl AppV {
    /// The same state with another status message.
    pub open spec fn says(self, status: Seq<char>) -> AppV {
        AppV { status: Some(status), ..self }
    }

    /// A probe of `path` is started, unless one is under way.
    pub open spec fn requested(self, path: Seq<char>) -> AppV {
        if self.pending.contains(path) {
            self.says("Disc analysis already in progress..."@)
        } else {
            AppV {
                pending: self.pending.push(path),
                effects: self.effects.push(EffectV::SpawnDiscProbe(path)),
                status: Some("Analyzing disc streams..."@),
                ..self
            }
        }
    }

    /// What was known of `path` is forgotten, and a new probe is started.
    pub open spec fn reprobed(self, path: Seq<char>) -> AppV {
        AppV { cache: without_probe(self.cache, path), ..self }.requested(path)
    }

    /// What is said of a current error.
    pub open spec fn fails(self, error: Seq<char>) -> AppV {
        self.says("Disc analysis failed for current source; use Analyze to retry: "@ + error)
    }

    /// A probe of `path` is started unless its outcome is known; a known error is said.
    pub open spec fn ensured(self, path: Seq<char>) -> AppV {
        if known_contents(self.cache, path) is Some {
            self
        } else {
            match known_error(self.cache, path) {
                Some(error) => self.fails(error),
                None => self.reprobed(path),
            }
        }
    }

    /// `action` is what is done once `path` has been probed.
    pub open spec fn followed(self, path: Seq<char>, action: DiscProbeFollowup) -> AppV {
        AppV {
            followups: self.followups.filter(
                |entry: (Seq<char>, DiscProbeFollowup)| entry.0 != path,
            ).push((path, action)),
            ..self
        }
    }

    /// The tags of a disc; its label stands in for a missing album.
    pub open spec fn tags_from(contents: DiscContents) -> TagsV {
        TagsV {
            title: text_of(contents.metadata.title),
            artist: text_of(contents.metadata.artist),
            album: if contents.metadata.album is None && trimmed(contents.label@).len() > 0 {
                Some(contents.label@)
            } else {
                text_of(contents.metadata.album)
            },
            genre: text_of(contents.metadata.genre),
            year: text_of(contents.metadata.year),
        }
    }

    /// What loading a stream answers: nothing, or why it failed.
    pub open spec fn load_error(contents: DiscContents, i: int) -> Option<Seq<char>> {
        if i >= contents.presentations@.len() {
            Some("No disc stream at index "@ + decimal(plus(i, 1) as nat))
        } else {
            text_of(contents.presentations@[i].load_error)
        }
    }

    /// A stream of a disc is loaded for conversion. The tags are taken over even where
    /// the stream itself turns out not to load.
    pub open spec fn loaded(self, contents: DiscContents, i: int) -> AppV {
        if i >= contents.presentations@.len() {
            self
        } else {
            let stream = contents.presentations@[i];
            let tagged = AppV { tags: AppV::tags_from(contents), ..self };
            if stream.load_error is Some {
                tagged
            } else {
                AppV {
                    source: SourceV::Stream { tracks: tracks_of(stream.tracks@), id: stream.id },
                    effects: self.effects.push(EffectV::ApplySourceDefaults).push(
                        EffectV::RecordRecentUse(contents.source_path@),
                    ),
                    screen: AppScreen::Convert,
                    overlay: OverlayV::Closed,
                    return_target: None,
                    status: Some("Loaded stream: "@ + stream.label@),
                    ..tagged
                }
            }
        }
    }

    /// A stream is loaded; a failure is said, with `words` before it.
    pub open spec fn loaded_or_says(self, contents: DiscContents, i: int, words: Seq<char>) -> AppV {
        match AppV::load_error(contents, i) {
            Some(error) => self.loaded(contents, i).says(words + error),
            None => self.loaded(contents, i),
        }
    }

    /// The disc browser is opened, unless the disc has no streams.
    pub open spec fn opened(self, contents: Arc<DiscContents>, path: Seq<char>) -> AppV {
        if contents.presentations@.len() == 0 {
            self.says("Disc contains no selectable audio streams"@)
        } else {
            AppV {
                overlay: OverlayV::DiscBrowser(DiscBrowserState::opened(contents, path)),
                ..self
            }
        }
    }

    /// The disc browser is opened for `path`, at once or once it has been probed.
    pub open spec fn opened_at(self, path: Seq<char>) -> AppV {
        match known_contents(self.cache, path) {
            Some(contents) => self.opened(contents, path),
            None => match known_error(self.cache, path) {
                Some(error) => self.fails(error),
                None => self.followed(path, DiscProbeFollowup::OpenDiscBrowser).ensured(path),
            },
        }
    }

    /// The disc browser is opened for the selected entry.
    pub open spec fn opened_selected(self) -> AppV {
        match self.selected {
            None => self.says("No browse entry selected"@),
            Some((path, is_disc)) => if is_disc {
                self.opened_at(path)
            } else {
                self.says("Selected entry is not a browsable disc source"@)
            },
        }
    }

    /// The first stream of `path` is loaded, at once or once it has been probed.
    pub open spec fn converted_default(self, path: Seq<char>) -> AppV {
        match known_contents(self.cache, path) {
            Some(contents) => self.loaded_or_says(*contents, 0, "Default disc stream load failed: "@),
            None => self.followed(path, DiscProbeFollowup::ConvertDefaultStream).ensured(path).says(
                "Analyzing default disc stream..."@,
            ),
        }
    }

    /// What was to be done once `path` has been probed is done.
    pub open spec fn followed_up(self, path: Seq<char>, action: DiscProbeFollowup) -> AppV {
        match (action, known_contents(self.cache, path)) {
            (DiscProbeFollowup::OpenDiscBrowser, None) => self.says(
                "Audio streams are not available after analysis"@,
            ),
            (DiscProbeFollowup::OpenDiscBrowser, Some(contents)) => self.opened(contents, path),
            (DiscProbeFollowup::ConvertDefaultStream, None) => self.says(
                "Default disc stream is not available after analysis"@,
            ),
            (DiscProbeFollowup::ConvertDefaultStream, Some(contents)) => self.loaded_or_says(
                *contents,
                0,
                "Default disc stream load failed: "@,
            ),
        }
    }

    /// What loading stream `id` of `path` answers: nothing, or why it failed.
    pub open spec fn stream_error(self, path: Seq<char>, id: PresentationId, id_text: Seq<char>) -> Option<
        Seq<char>,
    > {
        match known_contents(self.cache, path) {
            None => Some("Disc is not probed yet: "@ + path),
            Some(contents) => {
                let i = stream_index(contents.presentations@, id, 0);
                if i >= contents.presentations@.len() {
                    Some("Stream is no longer available: "@ + id_text)
                } else {
                    AppV::load_error(*contents, i)
                }
            },
        }
    }

    /// Stream `id` of `path` is loaded.
    pub open spec fn converted_stream(self, path: Seq<char>, id: PresentationId) -> AppV {
        match known_contents(self.cache, path) {
            None => self,
            Some(contents) => self.loaded(*contents, stream_index(contents.presentations@, id, 0)),
        }
    }

    /// Stream `id` of `path` is loaded; a failure is said.
    pub open spec fn converted_or_says(
        self,
        path: Seq<char>,
        id: PresentationId,
        id_text: Seq<char>,
    ) -> AppV {
        match self.stream_error(path, id, id_text) {
            Some(error) => self.converted_stream(path, id).says("Disc stream load failed: "@ + error),
            None => self.converted_stream(path, id),
        }
    }

    /// The stream at the disc browser's cursor is loaded.
    pub open spec fn converted_cursor(self) -> AppV {
        match self.overlay {
            OverlayV::DiscBrowser(state) => self.loaded_or_says(
                *state.contents,
                state.cursor as int,
                "Disc stream load failed: "@,
            ),
            _ => self,
        }
    }

    /// The selected entry is probed, where it is a disc.
    pub open spec fn probed_selected(self) -> AppV {
        match self.selected {
            Some((path, true)) => self.ensured(path),
            _ => self,
        }
    }

    /// The same state with another disc browser.
    pub open spec fn shows(self, state: DiscBrowserV) -> AppV {
        AppV { overlay: OverlayV::DiscBrowser(state), ..self }
    }
}

/// The place of stream `id`, at `from` or later; the length where there is none.
pub open spec fn stream_index(streams: Seq<DiscPresentation>, id: PresentationId, from: int) -> int
    decreases streams.len() - from,
{
    if 0 <= from < streams.len() && streams[from].id != id {
        stream_index(streams, id, from + 1)
    } else {
        from
    }
}

/// Sets the status message.
pub fn set_status(app: &mut AppState, status: &str)
    ensures
        final(app)@ == old(app)@.says(status@),
        kept(*old(app), *final(app)),
{
    app.status = Some(owned(status));
    proof {
        reveal(kept);
    }
}

/// The current contents of the disc at `path`.
pub fn cached_disc_contents(app: &AppState, path: &str) -> (r: Option<Arc<DiscContents>>)
    ensures
        r == known_contents(app@.cache, path@),
{
    match contents_if_current(&app.browse.facts.disc_probe_cache, path) {
        Some(contents) => Some(share(contents)),
        None => None,
    }
}

/// The current error of the disc at `path`.
pub fn cached_disc_error<'a>(app: &'a AppState, path: &str) -> (r: Option<&'a str>)
    ensures
        match r {
            Some(error) => known_error(app@.cache, path@) == Some(error@),
            None => known_error(app@.cache, path@) is None,
        },
{
    error_if_current(&app.browse.facts.disc_probe_cache, path)
}

/// Start async probing if this path is not already in flight.
pub fn request_disc_probe(app: &mut AppState, path: &str)
    ensures
        final(app)@ == old(app)@.requested(path@),
        kept(*old(app), *final(app)),
{
    let ghost pending = app@.pending;
    if crate::browse::is_listed(&app.browse.facts.disc_probe_pending, path) {
        proof {
            let list = app.browse.facts.disc_probe_pending@;
            let i = choose|i: int| 0 <= i < list.len() && (#[trigger] list[i])@ == path@;
            assert(pending[i] == path@);
        }
        set_status(app, "Disc analysis already in progress...");
    } else {
        proof {
            let list = app.browse.facts.disc_probe_pending@;
            if pending.contains(path@) {
                let i = choose|i: int| 0 <= i < pending.len() && pending[i] == path@;
                assert(list[i]@ == path@);
            }
        }
        app.browse.facts.disc_probe_pending.push(owned(path));
        proof {
            reveal(kept);
            assert(app@.pending =~= pending.push(path@));
            assert(kept(*old(app), *app));
        }
        add_effect(app, Effect::SpawnDiscProbe(owned(path)));
        set_status(app, "Analyzing disc streams...");
    }
}

/// Explicitly bypass any current success or error entry and schedule a new probe.
pub fn force_disc_reprobe(app: &mut AppState, path: &str)
    ensures
        final(app)@ == old(app)@.reprobed(path@),
        kept(*old(app), *final(app)),
{
    forget_probe(&mut app.browse.facts.disc_probe_cache, path);
    proof {
        reveal(kept);
        assert(kept(*old(app), *app));
    }
    request_disc_probe(app, path);
}

/// Ensure a current probe result exists or is being produced.
///
/// Returns `true` when the cache already contains current contents. Current cached
/// errors are not retried automatically.
pub fn ensure_disc_probe(app: &mut AppState, path: &str) -> (r: bool)
    ensures
        final(app)@ == old(app)@.ensured(path@),
        r == (known_contents(old(app)@.cache, path@) is Some),
        kept(*old(app), *final(app)),
{
    if contents_if_current(&app.browse.facts.disc_probe_cache, path).is_some() {
        return true;
    }
    let failed = match cached_disc_error(app, path) {
        Some(error) => Some(
            cat2("Disc analysis failed for current source; use Analyze to retry: ", error),
        ),
        None => None,
    };
    match failed {
        Some(words) => {
            set_status(app, words.as_str());
        },
        None => {
            force_disc_reprobe(app, path);
        },
    }
    false
}

/// Trigger the async disc probe after the browse cursor/selection changes.
pub fn probe_selected_disc_after_cursor_move(app: &mut AppState)
    ensures
        final(app)@ == old(app)@.probed_selected(),
        kept(*old(app), *final(app)),
{
    match selected_disc(app) {
        Some((path, true)) => {
            let _known = ensure_disc_probe(app, path.as_str());
        },
        _ => {},
    }
}

/// The path of the selected entry, and whether it is a disc.
fn selected_disc(app: &AppState) -> (r: Option<(String, bool)>)
    ensures
        match r {
            Some((path, is_disc)) => app@.selected == Some((path@, is_disc)),
            None => app@.selected is None,
        },
{
    match app.browse.selected_entry() {
        Some(entry) => Some((owned(entry.path.as_str()), entry.is_disc_source())),
        None => None,
    }
}

fn set_followup(app: &mut AppState, path: &str, action: DiscProbeFollowup)
    ensures
        final(app)@ == old(app)@.followed(path@, action),
        kept(*old(app), *final(app)),
{
    let ghost before = app@.followups;
    let ghost keep = |entry: (Seq<char>, DiscProbeFollowup)| entry.0 != path@;
    let mut list: Vec<DiscFollowup> = Vec::new();
    proof {
        reveal(Seq::filter);
        assert(before.take(0) =~= Seq::empty());
        assert(followups_of(list@) =~= before.take(0).filter(keep));
    }
    for i in 0..app.browse.facts.disc_probe_followup.len()
        invariant
            keep == (|entry: (Seq<char>, DiscProbeFollowup)| entry.0 != path@),
            before == followups_of(app.browse.facts.disc_probe_followup@),
            followups_of(list@) == before.take(i as int).filter(keep),
            *app == *old(app),
    {
        let entry = &app.browse.facts.disc_probe_followup[i];
        let ghost so_far = list@;
        proof {
            assert(before.take(i + 1).drop_last() =~= before.take(i as int));
            assert(before.take(i + 1).last() == before[i as int]);
            reveal(Seq::filter);
        }
        if !same(entry.path.as_str(), path) {
            list.push(DiscFollowup { path: owned(entry.path.as_str()), action: entry.action });
            proof {
                assert(followups_of(list@) =~= followups_of(so_far).push(before[i as int]));
            }
        }
    }
    proof {
        assert(before.take(before.len() as int) =~= before);
    }
    let ghost rest = list@;
    list.push(DiscFollowup { path: owned(path), action });
    proof {
        assert(followups_of(list@) =~= followups_of(rest).push((path@, action)));
    }
    app.browse.facts.disc_probe_followup = list;
    proof {
        reveal(kept);
    }
}

fn copy_tracks(tracks: &Vec<MultiTrackEntry>) -> (r: Vec<MultiTrackEntry>)
    ensures
        tracks_of(r@) == tracks_of(tracks@),
{
    let mut copy: Vec<MultiTrackEntry> = Vec::new();
    for i in 0..tracks.len()
        invariant
            tracks_of(copy@) =~= tracks_of(tracks@).take(i as int),
    {
        let track = &tracks[i];
        let ghost before = copy@;
        copy.push(MultiTrackEntry { number: track.number, title: copy_text(&track.title) });
        proof {
            assert(track_of(copy@.last()) == track_of(*track));
            assert(tracks_of(copy@) =~= tracks_of(before).push(track_of(*track)));
        }
    }
    proof {
        assert(tracks_of(copy@) =~= tracks_of(tracks@));
    }
    copy
}

fn take_tags(app: &mut AppState, contents: &DiscContents)
    ensures
        final(app)@ == (AppV { tags: AppV::tags_from(*contents), ..old(app)@ }),
        kept(*old(app), *final(app)),
{
    let album = if contents.metadata.album.is_none() && !trim(
        contents.label.as_str(),
    ).as_str().is_empty() {
        Some(owned(contents.label.as_str()))
    } else {
        copy_text(&contents.metadata.album)
    };
    app.convert.metadata.title = copy_text(&contents.metadata.title);
    app.convert.metadata.artist = copy_text(&contents.metadata.artist);
    app.convert.metadata.album = album;
    app.convert.metadata.genre = copy_text(&contents.metadata.genre);
    app.convert.metadata.year = copy_text(&contents.metadata.year);
    proof {
        reveal(kept);
    }
}

fn add_effect(app: &mut AppState, effect: Effect)
    ensures
        final(app)@ == (AppV { effects: old(app)@.effects.push(effect_of(effect)), ..old(app)@ }),
        kept(*old(app), *final(app)),
{
    app.effects.push(effect);
    proof {
        reveal(kept);
        assert(app@.effects =~= old(app)@.effects.push(effect_of(effect)));
    }
}

fn show_stream(app: &mut AppState, stream: &DiscPresentation)
    ensures
        final(app)@ == (AppV {
            source: SourceV::Stream { tracks: tracks_of(stream.tracks@), id: stream.id },
            screen: AppScreen::Convert,
            overlay: OverlayV::Closed,
            return_target: None,
            ..old(app)@
        }),
        kept(*old(app), *final(app)),
{
    app.convert.source = SourceMode::MultiTrack {
        tracks: copy_tracks(&stream.tracks),
        cursor: 0,
        archive_preview: None,
        selected_presentation_id: Some(stream.id),
    };
    app.current_screen = AppScreen::Convert;
    app.active_overlay = ActiveOverlay::Closed;
    app.browse.return_target = None;
    proof {
        reveal(kept);
    }
}

fn take_stream(app: &mut AppState, contents: &DiscContents, stream: &DiscPresentation)
    ensures
        final(app)@ == (AppV {
            source: SourceV::Stream { tracks: tracks_of(stream.tracks@), id: stream.id },
            effects: old(app)@.effects.push(EffectV::ApplySourceDefaults).push(
                EffectV::RecordRecentUse(contents.source_path@),
            ),
            screen: AppScreen::Convert,
            overlay: OverlayV::Closed,
            return_target: None,
            status: Some("Loaded stream: "@ + stream.label@),
            ..old(app)@
        }),
        kept(*old(app), *final(app)),
{
    show_stream(app, stream);
    add_effect(app, Effect::ApplySourceDefaults);
    add_effect(app, Effect::RecordRecentUse(owned(contents.source_path.as_str())));
    set_status(app, cat2("Loaded stream: ", stream.label.as_str()).as_str());
}

/// Load one presentation into the Convert screen using `SourceMode::MultiTrack`.
pub fn load_disc_presentation_for_convert(
    app: &mut AppState,
    contents: &DiscContents,
    presentation_index: usize,
) -> (r: Result<(), String>)
    ensures
        final(app)@ == old(app)@.loaded(*contents, presentation_index as int),
        match r {
            Ok(()) => AppV::load_error(*contents, presentation_index as int) is None,
            Err(error) => AppV::load_error(*contents, presentation_index as int) == Some(error@),
        },
        kept(*old(app), *final(app)),
{
    if presentation_index >= contents.presentations.len() {
        return Err(
            cat2(
                "No disc stream at index ",
                dec_len(presentation_index.saturating_add(1)).as_str(),
            ),
        );
    }
    let stream = &contents.presentations[presentation_index];
    take_tags(app, contents);
    match &stream.load_error {
        Some(error) => Err(owned(error.as_str())),
        None => {
            take_stream(app, contents, stream);
            Ok(())
        },
    }
}

fn load_or_say(app: &mut AppState, contents: &DiscContents, i: usize, words: &str)
    ensures
        final(app)@ == old(app)@.loaded_or_says(*contents, i as int, words@),
        kept(*old(app), *final(app)),
{
    match load_disc_presentation_for_convert(app, contents, i) {
        Ok(()) => {},
        Err(error) => {
            set_status(app, cat2(words, error.as_str()).as_str());
        },
    }
}

/// Open the modal overlay from already available `DiscContents`.
pub fn open_disc_browser_from_contents(app: &mut AppState, contents: Arc<DiscContents>, path: &str)
    ensures
        final(app)@ == old(app)@.opened(contents, path@),
        kept(*old(app), *final(app)),
{
    if contents.presentations.len() == 0 {
        set_status(app, "Disc contains no selectable audio streams");
        return;
    }
    app.active_overlay = ActiveOverlay::DiscBrowser(DiscBrowserState::new(contents, owned(path)));
    proof {
        reveal(kept);
    }
}

/// Open the Audio Streams overlay for a specific disc path, or start probing it.
pub fn open_disc_browser_for_path(app: &mut AppState, path: &str)
    ensures
        final(app)@ == old(app)@.opened_at(path@),
        kept(*old(app), *final(app)),
{
    match cached_disc_contents(app, path) {
        Some(contents) => {
            open_disc_browser_from_contents(app, contents, path);
            return;
        },
        None => {},
    }
    let failed = match cached_disc_error(app, path) {
        Some(error) => Some(
            cat2("Disc analysis failed for current source; use Analyze to retry: ", error),
        ),
        None => None,
    };
    match failed {
        Some(words) => {
            set_status(app, words.as_str());
        },
        None => {
            set_followup(app, path, DiscProbeFollowup::OpenDiscBrowser);
            let _known = ensure_disc_probe(app, path);
        },
    }
}

/// Open the Audio Streams overlay for the currently highlighted browse entry.
pub fn open_selected_disc_browser(app: &mut AppState)
    ensures
        final(app)@ == old(app)@.opened_selected(),
        kept(*old(app), *final(app)),
{
    match selected_disc(app) {
        None => {
            set_status(app, "No browse entry selected");
        },
        Some((path, is_disc)) => {
            if is_disc {
                open_disc_browser_for_path(app, path.as_str());
            } else {
                set_status(app, "Selected entry is not a browsable disc source");
            }
        },
    }
}

/// Context-menu entry point for `Convert (default stream)`.
pub fn convert_default_disc_stream(app: &mut AppState, path: &str)
    ensures
        final(app)@ == old(app)@.converted_default(path@),
        kept(*old(app), *final(app)),
{
    match cached_disc_contents(app, path) {
        Some(contents) => {
            load_or_say(app, &contents, 0, "Default disc stream load failed: ");
        },
        None => {
            set_followup(app, path, DiscProbeFollowup::ConvertDefaultStream);
            let _known = ensure_disc_probe(app, path);
            set_status(app, "Analyzing default disc stream...");
        },
    }
}

/// Run a one-shot action recorded before an async disc probe.
pub fn handle_disc_probe_followup(app: &mut AppState, path: &str, followup: DiscProbeFollowup)
    ensures
        final(app)@ == old(app)@.followed_up(path@, followup),
        kept(*old(app), *final(app)),
{
    let contents = cached_disc_contents(app, path);
    match followup {
        DiscProbeFollowup::OpenDiscBrowser => match contents {
            Some(contents) => {
                open_disc_browser_from_contents(app, contents, path);
            },
            None => {
                set_status(app, "Audio streams are not available after analysis");
            },
        },
        DiscProbeFollowup::ConvertDefaultStream => match contents {
            Some(contents) => {
                load_or_say(app, &contents, 0, "Default disc stream load failed: ");
            },
            None => {
                set_status(app, "Default disc stream is not available after analysis");
            },
        },
    }
}

fn find_stream(streams: &Vec<DiscPresentation>, id: PresentationId) -> (r: usize)
    ensures
        r == stream_index(streams@, id, 0),
        r <= streams@.len(),
{
    let mut i: usize = 0;
    while i < streams.len() && streams[i].id != id
        invariant
            i <= streams@.len(),
            stream_index(streams@, id, i as int) == stream_index(streams@, id, 0),
        decreases streams@.len() - i,
    {
        i += 1;
    }
    i
}

/// Context-menu entry point for `Convert Stream > ...`.
pub fn convert_selected_disc_stream_by_id(
    app: &mut AppState,
    path: &str,
    id: PresentationId,
    id_text: &str,
) -> (r: Result<(), String>)
    ensures
        final(app)@ == old(app)@.converted_stream(path@, id),
        match r {
            Ok(()) => old(app)@.stream_error(path@, id, id_text@) is None,
            Err(error) => old(app)@.stream_error(path@, id, id_text@) == Some(error@),
        },
        kept(*old(app), *final(app)),
{
    match cached_disc_contents(app, path) {
        None => Err(cat2("Disc is not probed yet: ", path)),
        Some(contents) => {
            let i: usize = find_stream(&contents.presentations, id);
            if i >= contents.presentations.len() {
                Err(cat2("Stream is no longer available: ", id_text))
            } else {
                load_disc_presentation_for_convert(app, &contents, i)
            }
        },
    }
}

/// Convert the currently highlighted overlay stream.
pub fn convert_overlay_cursor(app: &mut AppState)
    ensures
        final(app)@ == old(app)@.converted_cursor(),
        kept(*old(app), *final(app)),
{
    let chosen = match &app.active_overlay {
        ActiveOverlay::DiscBrowser(state) => Some((share(&state.contents), state.cursor)),
        _ => None,
    };
    match chosen {
        Some((contents, cursor)) => {
            load_or_say(app, &contents, cursor, "Disc stream load failed: ");
        },
        None => {},
    }
}

/// Extract the selected presentation id from the Convert source, if present.
pub fn selected_presentation_id(mode: &SourceMode) -> (r: Option<PresentationId>)
    ensures
        r == match *mode {
            SourceMode::MultiTrack { selected_presentation_id, .. } => selected_presentation_id,
            _ => None,
        },
{
    match mode {
        SourceMode::MultiTrack { selected_presentation_id, .. } => *selected_presentation_id,
        _ => None,
    }
}

impl AppV {
    /// An entry of the context menu is chosen; whether that was one of the disc's.
    pub open spec fn acted(self, action: ContextAction) -> (AppV, bool) {
        match (action, self.selected) {
            (ContextAction::ConvertDiscDefault, Some((path, _))) => (
                self.converted_default(path),
                true,
            ),
            (ContextAction::ConvertDiscDefault, None) => (
                self.says("No browse entry selected"@),
                true,
            ),
            (ContextAction::ConvertCustom, Some((path, true))) => (
                self.converted_default(path),
                true,
            ),
            (ContextAction::BrowseDiscStreams, _) => (self.opened_selected(), true),
            (ContextAction::ConvertDiscStream { id, id_text }, Some((path, _))) => (
                self.converted_or_says(path, id, id_text@),
                true,
            ),
            (ContextAction::ConvertDiscStream { .. }, None) => (
                self.says("No browse entry selected"@),
                true,
            ),
            _ => (self, false),
        }
    }

    /// A button is clicked once or more often; whether it was one of the disc's.
    pub open spec fn clicked(self, button: TuiButton, count: int) -> (AppV, bool) {
        match (button, self.overlay) {
            (TuiButton::BrowseInfoAnalyze, _) => match self.selected {
                Some((path, true)) => (self.reprobed(path), true),
                _ => (self, false),
            },
            (TuiButton::BrowseInfoAudioStreams, _) => (self.opened_selected(), true),
            (TuiButton::DiscBrowserStream(i), OverlayV::DiscBrowser(state)) => {
                let here = self.shows(pointed(state, i as int, false));
                (
                    if count >= 2 {
                        here.converted_cursor()
                    } else {
                        here
                    },
                    true,
                )
            },
            (TuiButton::DiscBrowserExpand(i), OverlayV::DiscBrowser(state)) => (
                self.shows(pointed(state, i as int, true)),
                true,
            ),
            (TuiButton::DiscBrowserConvert, _) => (self.converted_cursor(), true),
            (TuiButton::DiscBrowserClose, OverlayV::DiscBrowser(_)) => (
                AppV { overlay: OverlayV::Closed, ..self },
                true,
            ),
            _ => (self, false),
        }
    }

    /// A key is pressed while the disc browser is open.
    pub open spec fn pressed(self, key: KeyCode) -> AppV {
        match self.overlay {
            OverlayV::DiscBrowser(state) => match key {
                KeyCode::Enter => self.converted_cursor(),
                KeyCode::Esc | KeyCode::Char('q') | KeyCode::Char('Q') => AppV {
                    overlay: OverlayV::Closed,
                    ..self
                },
                _ => self.shows(browser_pressed(state, key)),
            },
            _ => self,
        }
    }
}

fn convert_or_say(app: &mut AppState, path: &str, id: PresentationId, id_text: &str)
    ensures
        final(app)@ == old(app)@.converted_or_says(path@, id, id_text@),
        kept(*old(app), *final(app)),
{
    match convert_selected_disc_stream_by_id(app, path, id, id_text) {
        Ok(()) => {},
        Err(error) => {
            set_status(app, cat2("Disc stream load failed: ", error.as_str()).as_str());
        },
    }
}

/// Context-menu dispatcher for disc actions. Returns `true` when it consumed the
/// action.
pub fn handle_disc_context_action(app: &mut AppState, action: &ContextAction) -> (r: bool)
    ensures
        (final(app)@, r) == old(app)@.acted(*action),
        kept(*old(app), *final(app)),
{
    let selected = selected_disc(app);
    match action {
        ContextAction::ConvertDiscDefault => {
            match selected {
                Some((path, _)) => {
                    convert_default_disc_stream(app, path.as_str());
                },
                None => {
                    set_status(app, "No browse entry selected");
                },
            }
            true
        },
        ContextAction::ConvertCustom => match selected {
            Some((path, true)) => {
                convert_default_disc_stream(app, path.as_str());
                true
            },
            _ => false,
        },
        ContextAction::BrowseDiscStreams => {
            open_selected_disc_browser(app);
            true
        },
        ContextAction::ConvertDiscStream { id, id_text } => {
            match selected {
                Some((path, _)) => {
                    convert_or_say(app, path.as_str(), *id, id_text.as_str());
                },
                None => {
                    set_status(app, "No browse entry selected");
                },
            }
            true
        },
        ContextAction::Other => false,
    }
}

/// Mouse/button dispatcher for all disc-browser buttons. Returns `true` when it
/// consumed the button.
pub fn handle_disc_browser_button(app: &mut AppState, button: TuiButton) -> (r: bool)
    ensures
        (final(app)@, r) == old(app)@.clicked(button, 1),
        kept(*old(app), *final(app)),
{
    handle_disc_browser_button_click(app, button, 1)
}

/// Entry point for a repeated row click.
pub fn handle_disc_browser_double_click(app: &mut AppState, button: TuiButton) -> (r: bool)
    ensures
        (final(app)@, r) == old(app)@.clicked(button, 2),
        kept(*old(app), *final(app)),
{
    handle_disc_browser_button_click(app, button, 2)
}

fn close_disc_browser(app: &mut AppState) -> (r: bool)
    ensures
        r == (old(app)@.overlay is DiscBrowser),
        final(app)@ == if r {
            (AppV { overlay: OverlayV::Closed, ..old(app)@ })
        } else {
            old(app)@
        },
        kept(*old(app), *final(app)),
{
    let open = is_disc_browser(&app.active_overlay);
    if open {
        app.active_overlay = ActiveOverlay::Closed;
    }
    proof {
        reveal(kept);
    }
    open
}

fn is_disc_browser(overlay: &ActiveOverlay) -> (r: bool)
    ensures
        r == (overlay_of(*overlay) is DiscBrowser),
{
    match overlay {
        ActiveOverlay::DiscBrowser(_) => true,
        _ => false,
    }
}

/// The disc browser with its cursor on stream `i`, whose details may be turned over.
pub open spec fn pointed(state: DiscBrowserV, i: int, expand: bool) -> DiscBrowserV {
    let here = state.at_cursor(i);
    if expand {
        DiscBrowserV { expanded: flipped(here.expanded, i), ..here }
    } else {
        here
    }
}

fn point_in_overlay(overlay: &mut ActiveOverlay, i: usize, expand: bool) -> (r: bool)
    ensures
        r == (overlay_of(*old(overlay)) is DiscBrowser),
        overlay_of(*final(overlay)) == match overlay_of(*old(overlay)) {
            OverlayV::DiscBrowser(state) => OverlayV::DiscBrowser(pointed(state, i as int, expand)),
            other => other,
        },
{
    match overlay {
        ActiveOverlay::DiscBrowser(state) => {
            state.set_cursor(i);
            if expand {
                state.toggle_expanded(i);
            }
            true
        },
        _ => false,
    }
}

fn point_at(app: &mut AppState, i: usize, expand: bool) -> (r: bool)
    ensures
        r == (old(app)@.overlay is DiscBrowser),
        final(app)@ == match old(app)@.overlay {
            OverlayV::DiscBrowser(state) => old(app)@.shows(pointed(state, i as int, expand)),
            _ => old(app)@,
        },
        kept(*old(app), *final(app)),
{
    let open = point_in_overlay(&mut app.active_overlay, i, expand);
    proof {
        reveal(kept);
    }
    open
}

/// Mouse/button dispatcher with click-count information. One click selects a stream
/// row, two select it and load it for conversion.
pub fn handle_disc_browser_button_click(app: &mut AppState, button: TuiButton, click_count: u8) -> (r:
    bool)
    ensures
        (final(app)@, r) == old(app)@.clicked(button, click_count as int),
        kept(*old(app), *final(app)),
{
    match button {
        TuiButton::BrowseInfoAnalyze => match selected_disc(app) {
            Some((path, true)) => {
                force_disc_reprobe(app, path.as_str());
                true
            },
            _ => false,
        },
        TuiButton::BrowseInfoAudioStreams => {
            open_selected_disc_browser(app);
            true
        },
        TuiButton::DiscBrowserStream(i) => {
            let open = point_at(app, i, false);
            if open && click_count >= 2 {
                convert_overlay_cursor(app);
            }
            open
        },
        TuiButton::DiscBrowserExpand(i) => point_at(app, i, true),
        TuiButton::DiscBrowserConvert => {
            convert_overlay_cursor(app);
            true
        },
        TuiButton::DiscBrowserClose => {
            close_disc_browser(app)
        },
        _ => false,
    }
}

/// What a key does to the disc browser itself.
pub open spec fn browser_pressed(state: DiscBrowserV, key: KeyCode) -> DiscBrowserV {
    match key {
        KeyCode::Up | KeyCode::Char('k') => state.at_cursor(moved(state.cursor as int, -1)),
        KeyCode::Down | KeyCode::Char('j') => state.at_cursor(moved(state.cursor as int, 1)),
        KeyCode::Right | KeyCode::Char('e') | KeyCode::Char('E') => DiscBrowserV {
            expanded: flipped(state.expanded, state.cursor as int),
            ..state
        },
        KeyCode::Char(' ') => DiscBrowserV {
            selected: flipped(state.selected, state.cursor as int),
            ..state
        },
        KeyCode::PageUp => DiscBrowserV {
            scroll: moved(state.scroll as int, -10) as usize,
            ..state
        },
        KeyCode::PageDown => DiscBrowserV {
            scroll: least(moved(state.scroll as int, 10), minus(state.all_rows(), 1)) as usize,
            ..state
        },
        KeyCode::Home => DiscBrowserV { scroll: 0, ..state.at_cursor(0) },
        KeyCode::End => DiscBrowserV {
            scroll: minus(state.all_rows(), 1) as usize,
            ..state.at_cursor(minus(state.len(), 1))
        },
        _ => state,
    }
}

fn press_in_browser(state: &mut DiscBrowserState, key: KeyCode)
    ensures
        final(state)@ == browser_pressed(old(state)@, key),
{
    match key {
        KeyCode::Up | KeyCode::Char('k') => {
            state.move_cursor(-1);
        },
        KeyCode::Down | KeyCode::Char('j') => {
            state.move_cursor(1);
        },
        KeyCode::Right | KeyCode::Char('e') | KeyCode::Char('E') => {
            let cursor: usize = state.cursor;
            state.toggle_expanded(cursor);
        },
        KeyCode::Char(' ') => {
            let cursor: usize = state.cursor;
            state.toggle_selected(cursor);
        },
        KeyCode::PageUp => {
            state.scroll_by_rows(-10);
        },
        KeyCode::PageDown => {
            let last: usize = state.visible_rows().saturating_sub(1);
            state.scroll_by_rows(10);
            if state.scroll > last {
                state.scroll = last;
            }
        },
        KeyCode::Home => {
            state.set_cursor(0);
            state.scroll = 0;
        },
        KeyCode::End => {
            let last: usize = state.len().saturating_sub(1);
            let rows: usize = state.visible_rows();
            state.set_cursor(last);
            state.scroll = rows.saturating_sub(1);
        },
        _ => {},
    }
}

fn press_in_overlay(overlay: &mut ActiveOverlay, key: KeyCode)
    ensures
        overlay_of(*final(overlay)) == match overlay_of(*old(overlay)) {
            OverlayV::DiscBrowser(state) => OverlayV::DiscBrowser(browser_pressed(state, key)),
            other => other,
        },
{
    match overlay {
        ActiveOverlay::DiscBrowser(state) => {
            press_in_browser(state, key);
        },
        _ => {},
    }
}

fn press_key(app: &mut AppState, key: KeyCode)
    ensures
        final(app)@ == match old(app)@.overlay {
            OverlayV::DiscBrowser(state) => old(app)@.shows(browser_pressed(state, key)),
            _ => old(app)@,
        },
        kept(*old(app), *final(app)),
{
    press_in_overlay(&mut app.active_overlay, key);
    proof {
        reveal(kept);
    }
}

/// Key dispatcher for the disc browser.
pub fn handle_disc_browser_key(app: &mut AppState, key: KeyCode)
    ensures
        final(app)@ == old(app)@.pressed(key),
        kept(*old(app), *final(app)),
{
    match key {
        KeyCode::Enter => {
            convert_overlay_cursor(app);
        },
        KeyCode::Esc | KeyCode::Char('q') | KeyCode::Char('Q') => {
            let _open = close_disc_browser(app);
        },
        _ => {
            press_key(app, key);
        },
    }
}

/// A current error is not retried by itself: no probe is started, and the cache stays
/// as it is.
pub proof fn current_error_is_not_retried(app: AppV, path: Seq<char>)
    requires
        known_error(app.cache, path) is Some,
    ensures
        app.ensured(path) == app.fails(known_error(app.cache, path)->0),
        app.opened_at(path) == app.fails(known_error(app.cache, path)->0),
        app.ensured(path).effects == app.effects,
        app.ensured(path).pending == app.pending,
        app.ensured(path).cache == app.cache,
{
}

/// A forced probe forgets contents and errors alike, and a probe is then under way.
pub proof fn forced_probe_bypasses_the_cache(app: AppV, path: Seq<char>)
    ensures
        known_contents(app.reprobed(path).cache, path) is None,
        known_error(app.reprobed(path).cache, path) is None,
        app.reprobed(path).pending.contains(path),
        app.reprobed(path).effects == if app.pending.contains(path) {
            app.effects
        } else {
            app.effects.push(EffectV::SpawnDiscProbe(path))
        },
{
    forgotten_probe_is_unknown(app.cache, path);
    assert(app.pending.push(path)[app.pending.len() as int] == path);
}

/// Asking again for a probe that is under way starts no second one.
pub proof fn probe_is_started_once(app: AppV, path: Seq<char>)
    ensures
        app.requested(path).requested(path).effects == app.requested(path).effects,
        app.requested(path).requested(path).pending == app.requested(path).pending,
{
    assert(app.pending.push(path)[app.pending.len() as int] == path);
}

/// A changed source misses the cache, so that it is probed afresh.
pub proof fn changed_source_is_probed_again(app: AppV, path: Seq<char>)
    requires
        known_contents(app.cache, path) is None,
        known_error(app.cache, path) is None,
    ensures
        app.ensured(path) == app.reprobed(path),
        app.ensured(path).pending.contains(path),
{
    forced_probe_bypasses_the_cache(app, path);
}

/// The default conversion of a disc that is known loads its first stream.
pub proof fn default_is_the_first_stream(app: AppV, path: Seq<char>, contents: Arc<DiscContents>)
    requires
        known_contents(app.cache, path) == Some(contents),
        contents.presentations@.len() > 0,
        contents.presentations@[0].load_error is None,
    ensures
        app.converted_default(path).source == (SourceV::Stream {
            tracks: tracks_of(contents.presentations@[0].tracks@),
            id: contents.presentations@[0].id,
        }),
        app.converted_default(path).screen == AppScreen::Convert,
        app.converted_default(path) == app.followed_up(
            path,
            DiscProbeFollowup::ConvertDefaultStream,
        ),
{
}

/// A disc without streams never opens the overlay.
pub proof fn empty_disc_opens_nothing(app: AppV, contents: Arc<DiscContents>, path: Seq<char>)
    requires
        contents.presentations@.len() == 0,
    ensures
        app.opened(contents, path).overlay == app.overlay,
{
}

/// The overlay opens for a disc that was not known once its probe has succeeded.
pub proof fn overlay_opens_after_the_probe(
    app: AppV,
    later: AppV,
    path: Seq<char>,
    contents: Arc<DiscContents>,
)
    requires
        known_contents(app.cache, path) is None,
        known_error(app.cache, path) is None,
        known_contents(later.cache, path) == Some(contents),
        contents.presentations@.len() > 0,
    ensures
        app.opened_at(path).followups.contains((path, DiscProbeFollowup::OpenDiscBrowser)),
        later.followed_up(path, DiscProbeFollowup::OpenDiscBrowser).overlay
            == OverlayV::DiscBrowser(DiscBrowserState::opened(contents, path)),
{
    let list = app.followed(path, DiscProbeFollowup::OpenDiscBrowser).followups;
    assert(list[list.len() - 1] == (path, DiscProbeFollowup::OpenDiscBrowser));
    assert(app.opened_at(path).followups == list);
}

/// At most one follow-up is recorded for a path: the latest.
pub proof fn latest_followup_replaces_earlier(
    app: AppV,
    path: Seq<char>,
    action: DiscProbeFollowup,
    i: int,
)
    requires
        0 <= i < app.followed(path, action).followups.len(),
        app.followed(path, action).followups[i].0 == path,
    ensures
        app.followed(path, action).followups[i].1 == action,
        i == app.followed(path, action).followups.len() - 1,
{
    broadcast use vstd::seq_lib::group_filter_ensures;

    let keep = |entry: (Seq<char>, DiscProbeFollowup)| entry.0 != path;
    let rest = app.followups.filter(keep);
    if i < rest.len() {
        assert(rest.contains(rest[i]));
        assert(keep(rest[i]));
    }
}

/// Keys do nothing unless the disc browser is open.
pub proof fn keys_need_the_overlay(app: AppV, key: KeyCode)
    requires
        !(app.overlay is DiscBrowser),
    ensures
        app.pressed(key) == app,
{
}

/// A key without a meaning changes nothing.
pub proof fn other_keys_change_nothing(app: AppV, key: KeyCode)
    requires
        key == KeyCode::Left || key == KeyCode::Other || (key matches KeyCode::Char(c) && c != 'k'
            && c != 'j' && c != 'e' && c != 'E' && c != ' ' && c != 'q' && c != 'Q'),
    ensures
        app.pressed(key) == app,
{
}

/// A double click does what a click and then Enter do.
pub proof fn double_click_is_click_and_enter(app: AppV, i: usize)
    requires
        app.overlay is DiscBrowser,
    ensures
        app.clicked(TuiButton::DiscBrowserStream(i), 2).0 == app.clicked(
            TuiButton::DiscBrowserStream(i),
            1,
        ).0.pressed(KeyCode::Enter),
{
}

/// No key moves the cursor off the list of streams.
pub proof fn cursor_stays_on_the_list(app: AppV, key: KeyCode, state: DiscBrowserV)
    requires
        app.overlay == OverlayV::DiscBrowser(state),
        state.cursor < state.len() <= usize::MAX,
    ensures
        app.pressed(key).overlay matches OverlayV::DiscBrowser(next) ==> next.cursor < next.len()
            && next.contents == state.contents,
{
}

/// A stream that fails to load leaves the overlay, the screen and the source as they
/// are.
pub proof fn failed_load_stays_on_the_screen(app: AppV, contents: DiscContents, i: int)
    requires
        AppV::load_error(contents, i) is Some,
    ensures
        app.loaded(contents, i).overlay == app.overlay,
        app.loaded(contents, i).screen == app.screen,
        app.loaded(contents, i).source == app.source,
        app.loaded(contents, i).effects == app.effects,
{
}

proof fn lemma_stream_index(streams: Seq<DiscPresentation>, id: PresentationId, from: int)
    requires
        0 <= from <= streams.len(),
    ensures
        from <= stream_index(streams, id, from) <= streams.len(),
        stream_index(streams, id, from) < streams.len() ==> streams[stream_index(
            streams,
            id,
            from,
        )].id == id,
    decreases streams.len() - from,
{
    if from < streams.len() && streams[from].id != id {
        lemma_stream_index(streams, id, from + 1);
    }
}

/// A stream that loads is the one that was asked for.
pub proof fn loaded_stream_is_the_chosen_one(
    app: AppV,
    path: Seq<char>,
    id: PresentationId,
    id_text: Seq<char>,
)
    requires
        app.stream_error(path, id, id_text) is None,
    ensures
        app.converted_stream(path, id).source matches SourceV::Stream { id: loaded, .. } && loaded
            == id,
{
    let contents = known_contents(app.cache, path)->0;
    lemma_stream_index(contents.presentations@, id, 0);
}

/// The default conversion of a disc that is not known waits for its probe: it is noted for that
/// disc, that is all that is noted for it, and notes on other discs stay.
pub proof fn unknown_disc_is_noted_for_its_probe(app: AppV, path: Seq<char>)
    requires
        known_contents(app.cache, path) is None,
    ensures
        ({
            let after = app.converted_default(path);
            &&& after.status == Some("Analyzing default disc stream..."@)
            &&& after.followups.last() == (path, DiscProbeFollowup::ConvertDefaultStream)
            &&& after.source == app.source
            &&& after.tags == app.tags
            &&& after.screen == app.screen
            &&& after.overlay == app.overlay
        }),
        forall|entry: (Seq<char>, DiscProbeFollowup)|
            entry.0 != path ==> (#[trigger] app.followups.contains(entry)
                <==> app.converted_default(path).followups.contains(entry)),
{
    broadcast use {lemma_filter_member, lemma_push_member};

    let noted = app.followed(path, DiscProbeFollowup::ConvertDefaultStream);
    assert(noted.cache == app.cache);
    assert(app.converted_default(path).followups == noted.followups);
    assert forall|entry: (Seq<char>, DiscProbeFollowup)| entry.0 != path implies (
    #[trigger] app.followups.contains(entry) <==> noted.followups.contains(entry)) by {
    }
}

} // verus!
