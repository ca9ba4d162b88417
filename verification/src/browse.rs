//! State of the file browser that the screens read.

use crate::button_map::{BrowseColumn, MetadataField, SortDir};
use crate::draw_footer::AppScreen;
use crate::disc::DiscProbeCacheEntry;
use crate::geometry::Rect;
use crate::inline_edit::TextInputState;
use crate::text::same;
use vstd::prelude::*;

verus! {

/// What a row of the file list stands for.
#[derive(Debug)]
pub enum EntryKind {
    ParentDir,
    Directory,
    /// An audio file, with the name of its format.
    AudioFile(String),
    Archive,
    SacdIso,
    DvdAudioIso,
    DvdAudioDir,
    DvdVideoIso,
    DvdVideoDir,
    BlurayIso,
    BlurayDir,
    OtherFile,
}

/// A row of the file list.
#[derive(Debug)]
pub struct BrowseEntry {
    pub path: String,
    pub name: String,
    pub kind: EntryKind,
    pub size: u64,
    /// When it was last changed, in words; empty where that is not known.
    pub date_label: String,
    /// Its type in words.
    pub type_label: String,
    pub is_symlink: bool,
    pub is_broken_symlink: bool,
}

impl BrowseEntry {
    /// The entry is an audio file.
    pub open spec fn audio(self) -> bool {
        self.kind is AudioFile
    }

    /// The entry is a disc image or a disc directory.
    pub open spec fn disc_source(self) -> bool {
        match self.kind {
            EntryKind::SacdIso | EntryKind::DvdAudioIso | EntryKind::DvdAudioDir
            | EntryKind::DvdVideoIso | EntryKind::DvdVideoDir | EntryKind::BlurayIso
            | EntryKind::BlurayDir => true,
            _ => false,
        }
    }

    /// Whether the entry is an audio file.
    pub fn is_audio(&self) -> (r: bool)
        ensures
            r == self.audio(),
    {
        match &self.kind {
            EntryKind::AudioFile(_) => true,
            _ => false,
        }
    }

    /// Whether the entry is a disc image or a disc directory.
    pub fn is_disc_source(&self) -> (r: bool)
        ensures
            r == self.disc_source(),
    {
        match &self.kind {
            EntryKind::SacdIso | EntryKind::DvdAudioIso | EntryKind::DvdAudioDir
            | EntryKind::DvdVideoIso | EntryKind::DvdVideoDir | EntryKind::BlurayIso
            | EntryKind::BlurayDir => true,
            _ => false,
        }
    }
}

/// How sure a pre-emphasis finding is.
#[derive(Clone, Copy, Debug, PartialEq, Eq, Structural)]
pub enum PreemphasisConfidence {
    Detected,
    StrongCandidate,
    Possible,
    NotDetected,
    Indeterminate,
}

/// A pre-emphasis finding.
#[derive(Debug)]
pub struct PreemphasisAdvisory {
    pub confidence: PreemphasisConfidence,
    /// The catalog number that the finding rests on.
    pub catalog: Option<String>,
    pub detail: String,
}

/// Technical facts of an audio source, with their wording.
#[derive(Debug)]
pub struct SourceInfo {
    pub format_name: String,
    pub codec: String,
    pub codec_display: String,
    pub bit_depth: Option<u32>,
    pub sample_rate: u32,
    pub sample_rate_display: String,
    pub channels: u32,
    pub channels_display: String,
    /// The duration in words, where it is known to be positive.
    pub duration_display: Option<String>,
    pub file_size: u64,
    pub size_display: String,
}

/// Tags of an audio source.
#[derive(Debug)]
pub struct SourceMetadata {
    pub title: Option<String>,
    pub artist: Option<String>,
    pub album: Option<String>,
    pub genre: Option<String>,
    pub year: Option<String>,
    pub catalog_number: Option<String>,
    pub rg_track_gain: Option<String>,
    pub rg_track_peak: Option<String>,
    pub rg_album_gain: Option<String>,
    pub rg_album_peak: Option<String>,
    pub r128_track_gain: Option<String>,
    pub r128_album_gain: Option<String>,
    pub hdcd_detail: Option<String>,
    pub preemphasis_metadata: Option<PreemphasisAdvisory>,
}

/// A probed audio source.
#[derive(Debug)]
pub struct CachedInfo {
    pub source: SourceInfo,
    pub metadata: SourceMetadata,
}

/// Counts and sizes of a directory tree.
#[derive(Clone, Copy, Debug)]
pub struct DirStats {
    pub folder_count: usize,
    pub file_count: usize,
    pub total_size: u64,
    pub audio_count: usize,
    pub audio_size: u64,
}

/// The probed tracks of a folder taken together.
#[derive(Debug)]
pub struct ProbeRollup {
    /// Sample formats with the number of tracks in each.
    pub profile_counts: Vec<(String, usize)>,
    pub mixed_profiles: bool,
    pub dominant_profile: Option<String>,
    /// The total duration in words, where it is positive.
    pub total_duration: Option<String>,
    pub probed_count: usize,
}

/// The audio files of a folder.
#[derive(Debug)]
pub struct FolderAudioSummary {
    pub track_count: usize,
    pub dominant_format: Option<String>,
    pub mixed_format: bool,
    pub rollup: ProbeRollup,
    pub probe_work_in_flight: bool,
}

/// What a folder holds.
#[derive(Clone, Copy, Debug, PartialEq, Eq, Structural)]
pub enum FolderClassificationKind {
    Album,
    Disc,
    MultiDisc,
    Collection,
    Unknown,
}

/// One disc of a multi-disc folder.
#[derive(Debug)]
pub struct FolderUnitSummary {
    pub name: String,
    /// The kind of disc in words, where it is a disc.
    pub disc_marker: Option<String>,
    pub audio: FolderAudioSummary,
}

/// What a folder holds, in detail.
#[derive(Debug)]
pub struct FolderContentClassification {
    pub kind: FolderClassificationKind,
    pub audio: FolderAudioSummary,
    pub units: Vec<FolderUnitSummary>,
    pub unit_count: usize,
    pub disc_marker: Option<String>,
    /// The disc image inside the folder, where the disc is not the folder itself.
    pub disc_image: Option<String>,
}

/// When summaries of directories may be computed.
#[derive(Clone, Copy, Debug, PartialEq, Eq, Structural)]
pub enum BrowseDirectorySummaryColdWorkPolicy {
    Eager,
    CachedOnly,
    AfterDescendOnly,
}

/// A file inside an archive.
#[derive(Debug)]
pub struct ArchiveEntry {
    pub path: String,
    pub packed_size: u64,
    pub encrypted: bool,
}

/// What an inline editor edits.
#[derive(Debug)]
pub enum BrowseInlineEditTarget {
    /// A tag of the file at `path`.
    Metadata { path: String, field: MetadataField },
    /// The name of the entry at `path`.
    Rename { path: String },
    /// The name of a new entry of `dir`.
    Create { dir: String },
}

/// An open inline editor.
#[derive(Debug)]
pub struct BrowseInlineEditState {
    pub target: BrowseInlineEditTarget,
    pub input: TextInputState,
}

/// The part of the info pane that has the keyboard.
#[derive(Clone, Copy, Debug, PartialEq, Eq, Structural)]
pub enum BrowseInfoFocus {
    Metadata(MetadataField),
    Analyze,
    EditTags,
    AudioStreams,
}

/// What is done once a disc has been probed.
#[derive(Clone, Copy, Debug, PartialEq, Eq, Structural)]
pub enum DiscProbeFollowup {
    OpenDiscBrowser,
    ConvertDefaultStream,
}

/// What is done once the disc at `path` has been probed.
#[derive(Debug)]
pub struct DiscFollowup {
    pub path: String,
    pub action: DiscProbeFollowup,
}

/// What is known of the selected entry and of the entries around it.
#[derive(Debug)]
pub struct BrowseFacts {
    pub in_archive: bool,
    pub archive_staging_active: bool,
    pub archive_entries: Vec<ArchiveEntry>,
    pub cached_info: Option<CachedInfo>,
    pub dir_stats: Option<DirStats>,
    pub dir_stats_pending: Vec<String>,
    pub classification: Option<FolderContentClassification>,
    pub classification_pending: Vec<String>,
    pub disc_probe_cache: Vec<DiscProbeCacheEntry>,
    pub disc_probe_pending: Vec<String>,
    /// What is done once a disc has been probed, at most one entry for each path.
    pub disc_probe_followup: Vec<DiscFollowup>,
    pub cold_work_policy: BrowseDirectorySummaryColdWorkPolicy,
}

/// `path` is one of `list`.
pub open spec fn listed(list: Seq<String>, path: Seq<char>) -> bool {
    exists|i: int| 0 <= i < list.len() && (#[trigger] list[i])@ == path
}

/// Whether `path` is one of `list`.
pub fn is_listed(list: &Vec<String>, path: &str) -> (r: bool)
    ensures
        r == listed(list@, path@),
{
    for i in 0..list.len()
        invariant
            forall|j: int| 0 <= j < i ==> (#[trigger] list@[j])@ != path@,
    {
        if same(list[i].as_str(), path) {
            return true;
        }
    }
    false
}

/// The place of the archive entry at `path`, at `from` or later; the length where
/// there is none.
pub open spec fn archive_index(entries: Seq<ArchiveEntry>, path: Seq<char>, from: int) -> int
    decreases entries.len() - from,
{
    if 0 <= from < entries.len() && entries[from].path@ != path {
        archive_index(entries, path, from + 1)
    } else {
        from
    }
}

/// The place of the archive entry at `path`; the length where there is none.
pub fn find_archive_entry(entries: &Vec<ArchiveEntry>, path: &str) -> (r: usize)
    ensures
        r == archive_index(entries@, path@, 0),
        r <= entries@.len(),
{
    let mut i: usize = 0;
    while i < entries.len() && !same(entries[i].path.as_str(), path)
        invariant
            i <= entries@.len(),
            archive_index(entries@, path@, i as int) == archive_index(entries@, path@, 0),
        decreases entries@.len() - i,
    {
        i += 1;
    }
    i
}

/// The search panel.
#[derive(Debug)]
pub struct SearchState {
    pub active: bool,
    pub input: TextInputState,
    pub input_focused: bool,
    pub recursive: bool,
    pub mode_label: String,
    pub sort_label: String,
    pub sort_dir: SortDir,
    pub audio_only: bool,
}

/// What a probe found in the file at `path`.
#[derive(Debug)]
pub struct EntryProbe {
    pub path: String,
    pub info: CachedInfo,
}

/// An archive that is being browsed.
#[derive(Debug)]
pub struct ArchiveView {
    pub archive_path: String,
    pub inner_path: String,
    pub modified: bool,
}

/// The options menu.
#[derive(Clone, Copy, Debug, PartialEq, Eq, Structural)]
pub enum BrowseOptionsMenu {
    Closed,
    Root,
    Layout,
    Columns,
    Sort,
    Filter,
    ArchiveListing,
}

/// A column and its name.
#[derive(Debug)]
pub struct ColumnChoice {
    pub column: BrowseColumn,
    pub label: String,
}

/// A directory in the tree.
#[derive(Debug)]
pub struct BrowseTreeNode {
    pub path: String,
    pub name: String,
    pub depth: usize,
    pub has_children: bool,
    pub expanded: bool,
}

/// A directory that is open in a tab.
#[derive(Debug)]
pub struct TabInfo {
    pub index: usize,
    pub label: String,
    pub active: bool,
    pub loading: bool,
    pub has_selection: bool,
}

/// Whether a bookmarked directory can be opened.
#[derive(Clone, Copy, Debug, PartialEq, Eq, Structural)]
pub enum BookmarkTargetStatus {
    Present,
    Missing,
    Unavailable,
}

/// A bookmark.
#[derive(Debug)]
pub struct BookmarkEntry {
    pub name: String,
    /// Whether its directory can be opened, where that is known.
    pub status: Option<BookmarkTargetStatus>,
}

/// The bookmarks.
#[derive(Debug)]
pub struct BookmarksState {
    pub entries: Vec<BookmarkEntry>,
    pub dropdown_open: bool,
    pub dropdown_selected: usize,
    pub dropdown_scroll: usize,
    /// The rows that the dropdown can show bookmarks on.
    pub dropdown_visible_rows: usize,
}

/// How the browser moves about: its tree, its tabs and its history.
#[derive(Debug)]
pub struct BrowseNavigation {
    pub explore_collapsed: bool,
    pub info_collapsed: bool,
    pub can_go_back: bool,
    pub can_go_forward: bool,
    pub tree_nodes: Vec<BrowseTreeNode>,
    pub tree_cursor: usize,
    pub tree_scroll: usize,
    /// The rows that the tree can show directories on.
    pub tree_visible_height: usize,
    pub tree_navigation_active: bool,
    pub tabs: Vec<TabInfo>,
    pub active_tab: usize,
    pub has_closed_tabs: bool,
}

/// The options menu and what it offers.
#[derive(Debug)]
pub struct BrowseOptions {
    pub options_menu: BrowseOptionsMenu,
    /// The row of the open menu that the keyboard is on.
    pub options_menu_highlight: Option<usize>,
    pub default_sort_by: BrowseColumn,
    pub default_sort_dir: SortDir,
    /// The columns that can be shown.
    pub column_choices: Vec<ColumnChoice>,
    /// The columns that the list can be sorted by.
    pub sort_choices: Vec<ColumnChoice>,
    /// The names of the format filters, and the one that is on.
    pub filter_choices: Vec<String>,
    pub format_filter: usize,
}

/// The file browser.
#[derive(Debug)]
pub struct BrowseState {
    pub current_dir: String,
    pub entries: Vec<BrowseEntry>,
    pub selected_index: usize,
    pub scroll_offset: usize,
    /// The rows that the list can show entries on.
    pub visible_height: usize,
    pub columns: Vec<BrowseColumn>,
    pub sort_by: BrowseColumn,
    pub sort_dir: SortDir,
    pub error: Option<String>,
    pub scan_pending: bool,
    pub scan_discovered_count: usize,
    pub multi_selected: Vec<String>,
    /// The first entry of a range being selected, and the first behind it.
    pub range_preview: Option<(usize, usize)>,
    pub files_navigation_active: bool,
    pub search: SearchState,
    pub filter_input: Option<TextInputState>,
    pub filter_text: String,
    pub type_ahead_active: bool,
    pub type_ahead_buffer: String,
    pub path_input: Option<TextInputState>,
    pub archive: Option<ArchiveView>,
    pub probes: Vec<EntryProbe>,
    pub facts: BrowseFacts,
    pub show_hidden: bool,
    pub explore_enabled: bool,
    pub info_enabled: bool,
    pub nav: BrowseNavigation,
    pub options: BrowseOptions,
    /// The screen that a file is being chosen for, where there is one.
    pub return_target: Option<AppScreen>,
    /// Where the screen was drawn last.
    pub last_render_area: Option<Rect>,
}

/// The place of the probe of `path`, at `from` or later; the length where there is
/// none.
pub open spec fn entry_probe_index(probes: Seq<EntryProbe>, path: Seq<char>, from: int) -> int
    decreases probes.len() - from,
{
    if 0 <= from < probes.len() && probes[from].path@ != path {
        entry_probe_index(probes, path, from + 1)
    } else {
        from
    }
}

/// What a probe found in an entry.
pub open spec fn known_info<'a>(browse: &'a BrowseState, entry: BrowseEntry) -> Option<
    &'a CachedInfo,
> {
    let i = entry_probe_index(browse.probes@, entry.path@, 0);
    if i < browse.probes@.len() {
        Some(&browse.probes@[i].info)
    } else {
        None
    }
}

/// What a probe found in an entry.
pub fn cached_info_for_entry<'a>(browse: &'a BrowseState, entry: &BrowseEntry) -> (r: Option<
    &'a CachedInfo,
>)
    ensures
        r == known_info(browse, *entry),
{
    let mut i: usize = 0;
    while i < browse.probes.len() && !same(browse.probes[i].path.as_str(), entry.path.as_str())
        invariant
            i <= browse.probes@.len(),
            entry_probe_index(browse.probes@, entry.path@, i as int) == entry_probe_index(
                browse.probes@,
                entry.path@,
                0,
            ),
        decreases browse.probes@.len() - i,
    {
        i += 1;
    }
    if i < browse.probes.len() {
        Some(&browse.probes[i].info)
    } else {
        None
    }
}

impl BrowseState {
    /// The list is not scrolled past its end.
    pub open spec fn wf(self) -> bool {
        self.scroll_offset <= self.entries@.len()
    }

    /// The list shows entries: there are some, and no error in their place.
    pub open spec fn lists_entries(self) -> bool {
        self.error is None && self.entries@.len() > 0
    }

    /// The selected entry, where there is one.
    pub open spec fn selected(self) -> Option<BrowseEntry> {
        if self.selected_index < self.entries@.len() {
            Some(self.entries@[self.selected_index as int])
        } else {
            None
        }
    }

    /// The selected entry, where there is one.
    pub fn selected_entry(&self) -> (r: Option<&BrowseEntry>)
        ensures
            match r {
                Some(entry) => self.selected() == Some(*entry),
                None => self.selected() is None,
            },
    {
        if self.selected_index < self.entries.len() {
            Some(&self.entries[self.selected_index])
        } else {
            None
        }
    }

    /// Entry `i` is in the range being selected.
    pub open spec fn in_range_preview(self, i: int) -> bool {
        match self.range_preview {
            Some((from, to)) => from <= i < to,
            None => false,
        }
    }

    /// Whether entry `i` is in the range being selected.
    pub fn is_range_preview_index(&self, i: usize) -> (r: bool)
        ensures
            r == self.in_range_preview(i as int),
    {
        match self.range_preview {
            Some((from, to)) => from <= i && i < to,
            None => false,
        }
    }
}

} // verus!
