//! The state of the program: what is shown, and what the host program is asked to do.

use crate::browse::{
    BookmarksState, BrowseFacts, BrowseInfoFocus, BrowseInlineEditState, BrowseState,
};
use crate::bulk_rename::BulkRenameState;
use crate::button_map::TuiButton;
use crate::context_menu::{MenuLevel, MenuPreview};
use crate::convert::{MetadataState, SourceMode};
use crate::cue_preview::CuePreviewState;
use crate::dialogs::{CompletionState, ConversionItem};
use crate::disc_browser::DiscBrowserState;
use crate::draw_browse::list::ScrollbarMetrics;
use crate::draw_footer::AppScreen;
use crate::draw_settings::SettingsState;
use crate::format_settings::{FormatSettingsFocus, FormatSettingsKind};
use crate::geometry::Rect;
use crate::inline_edit::TextInputState;
use crate::metadata_editor::MetadataEditorState;
use crate::musicbrainz::MbSelectState;
use crate::reports::{AnalysisResult, CompareResult, PreemphasisResult, VerifyResult};
use crate::reviews::{CueImportChange, GnudbMatch, GnudbReviewState};
use crate::rip_checks::{ArBatchResult, ArVerifyState, CtdbVerifyState};
use vstd::prelude::*;

verus! {

/// The dialog on top of the screen.
#[derive(Debug)]
pub enum ActiveOverlay {
    Closed,
    Confirmation { message: String },
    ErrorDetail { error: String },
    ItemInfo { item: ConversionItem },
    FileInput { input: TextInputState },
    CommandInput { input: TextInputState, completion: Option<CompletionState> },
    TextEdit { input: TextInputState, label: String },
    BatchList { scroll: usize },
    /// `areas` holds the place of each level's panel.
    ContextMenu { levels: Vec<MenuLevel>, areas: Vec<Rect>, preview: Option<MenuPreview> },
    BulkRename(BulkRenameState),
    Analysis { scroll: usize },
    Help,
    MetadataEditor(MetadataEditorState),
    CuePreview(CuePreviewState),
    MbSelect(MbSelectState),
    Verify { scroll: usize },
    BitCompare { scroll: usize },
    Preemphasis { scroll: usize },
    CueImportReview { changes: Vec<CueImportChange>, scroll: usize },
    GnudbSelect { matches: Vec<GnudbMatch>, selected: usize, scroll: usize },
    GnudbReview(GnudbReviewState),
    AccurateRipVerify(ArVerifyState),
    CtdbVerify(CtdbVerifyState),
    ArBatchReport { result: ArBatchResult, scroll: usize },
    TemplateBuilder,
    TemplatePicker,
    FormatSettings {
        kind: FormatSettingsKind,
        focus: FormatSettingsFocus,
        help_scroll: Option<usize>,
    },
    DiscBrowser(DiscBrowserState),
}

/// Something that the host program is asked to do.
#[derive(Debug)]
pub enum Effect {
    /// Probe the disc at this path in the background.
    SpawnDiscProbe(String),
    /// Set the output options to the defaults of the new source.
    ApplySourceDefaults,
    /// Remember that this path was used.
    RecordRecentUse(String),
}

/// The convert screen.
#[derive(Debug)]
pub struct ConvertState {
    pub metadata: MetadataState,
    pub source: SourceMode,
}

/// What the screens show besides the browser and the source.
#[derive(Debug)]
pub struct ShownState {
    pub analysis_results: Vec<AnalysisResult>,
    pub verify_results: Vec<VerifyResult>,
    pub compare_results: Vec<CompareResult>,
    pub preemph_results: Vec<PreemphasisResult>,
    pub settings: SettingsState,
    pub bookmarks: BookmarksState,
    pub browse_inline_edit: Option<BrowseInlineEditState>,
    pub browse_info_focus: Option<BrowseInfoFocus>,
    /// The scrollbars of the file list and the directory tree, where there is anything
    /// to scroll.
    pub list_scrollbar: Option<ScrollbarMetrics>,
    pub tree_scrollbar: Option<ScrollbarMetrics>,
    /// The button under the mouse.
    pub hover_target: Option<TuiButton>,
    pub has_file_task_messages: bool,
    pub wizard_active: bool,
    /// The home directory, or nothing.
    pub home: String,
    /// The version of the program.
    pub version: String,
    /// When archives are listed.
    pub archive_listing: String,
    pub presets_open: bool,
    pub recent_open: bool,
    pub bookmarks_open: bool,
}

/// The state of the program.
#[derive(Debug)]
pub struct AppState {
    /// The message in the footer.
    pub status: Option<String>,
    pub active_overlay: ActiveOverlay,
    pub current_screen: AppScreen,
    pub browse: BrowseState,
    pub convert: ConvertState,
    /// What the host program has still to do, first to last.
    pub effects: Vec<Effect>,
    pub shown: ShownState,
}

/// Nothing differs but the status, the overlay, the screen, what is to be converted, what is known
/// of discs, and what the host program is asked to do.
#[verifier::opaque]
pub open spec fn kept(a: AppState, b: AppState) -> bool {
    b == AppState {
        status: b.status,
        active_overlay: b.active_overlay,
        current_screen: b.current_screen,
        browse: BrowseState {
            return_target: b.browse.return_target,
            facts: BrowseFacts {
                disc_probe_cache: b.browse.facts.disc_probe_cache,
                disc_probe_pending: b.browse.facts.disc_probe_pending,
                disc_probe_followup: b.browse.facts.disc_probe_followup,
                ..a.browse.facts
            },
            ..a.browse
        },
        convert: ConvertState {
            metadata: MetadataState {
                title: b.convert.metadata.title,
                artist: b.convert.metadata.artist,
                album: b.convert.metadata.album,
                genre: b.convert.metadata.genre,
                year: b.convert.metadata.year,
                ..a.convert.metadata
            },
            source: b.convert.source,
        },
        effects: b.effects,
        ..a
    }
}

/// What every step keeps, all steps together keep.
pub broadcast proof fn kept_by_all(a: AppState, b: AppState, c: AppState)
    requires
        #[trigger] kept(a, b),
        #[trigger] kept(b, c),
    ensures
        kept(a, c),
{
    reveal(kept);
}

/// Doing nothing keeps everything.
pub broadcast proof fn kept_by_nothing(a: AppState)
    ensures
        #[trigger] kept(a, a),
{
    reveal(kept);
}

} // verus!
