//! Clickable areas: which button is where on the screen.

use crate::geometry::Rect;
use vstd::prelude::*;

verus! {

/// A column of the file list.
#[derive(Clone, Copy, Debug, PartialEq, Eq, Structural)]
pub enum BrowseColumn {
    Name,
    Size,
    Date,
    Type,
    Format,
    Codec,
    SampleRate,
    Channels,
    Duration,
    Artist,
    Album,
}

/// Sort direction.
#[derive(Clone, Copy, Debug, PartialEq, Eq, Structural)]
pub enum SortDir {
    Asc,
    Desc,
}

/// A pane of the browse screen.
#[derive(Clone, Copy, Debug, PartialEq, Eq, Structural)]
pub enum BrowsePaneId {
    Explore,
    Browse,
    Info,
}

/// A list with a scrollbar.
#[derive(Clone, Copy, Debug, PartialEq, Eq, Structural)]
pub enum ScrollbarSurface {
    BrowseTree,
    BrowseList,
}

/// An editable tag of an audio file.
#[derive(Clone, Copy, Debug, PartialEq, Eq, Structural)]
pub enum MetadataField {
    Title,
    Artist,
    Album,
    Genre,
    Year,
}

/// Something that can be clicked.
#[derive(Clone, Copy, Debug, PartialEq, Eq, Structural)]
pub enum TuiButton {
    Tab(u8),
    PresetsButton,
    SaveButton,
    FileTaskMessages,
    OverlayConfirm,
    OverlayCancel,
    DestPathField,
    FolderTemplateField,
    FilenameTemplateField,
    TemplateLoadFolderButton,
    TemplateBuildFolderButton,
    TemplateLoadFilenameButton,
    TemplateBuildFilenameButton,
    ForceEncodePill(usize),
    DiscSubfoldersPill(usize),
    WriteLogPill(usize),
    MergePill(usize),
    CompanionExtensionsField,
    CompanionFoldersField,
    ExcludeFilesField,
    ActionsPipelineField,
    MetadataEntryView(usize),
    MetadataEntryRevert(usize),
    MetadataDetailRevert,
    MetadataDetailRestore,
    MbSelectRow(usize),
    MbSelectAccept,
    MbSelectCancel,
    FormatSettingsVerify(usize),
    FormatSettingsMd5(usize),
    FormatSettingsAacProfile(usize),
    FormatSettingsAacQuality(usize),
    FormatSettingsOpusContentType(usize),
    FormatSettingsOpusQuality(usize),
    FormatSettingsMp3Mode(usize),
    FormatSettingsMp3Preset(usize),
    FormatSettingsWavPackMode(usize),
    FormatSettingsWavPackHybrid(usize),
    FormatSettingsWavPackCorrection(usize),
    FormatSettingsSsrcPdf(usize),
    FormatSettingsSsrcMinPhase(usize),
    FormatSettingsSoxSincPhase(usize),
    FormatSettingsSoxChebyshev(usize),
    FormatSettingsSoxAliasing(usize),
    FormatSettingsSoxrChebyshev(usize),
    DiscBrowserStream(usize),
    DiscBrowserExpand(usize),
    DiscBrowserConvert,
    DiscBrowserClose,
    CuePreviewTop,
    CuePreviewBottom,
    CuePreviewSave,
    CuePreviewCancel,
    CuePreviewLine(usize),
    CuePreviewEditCommit,
    CuePreviewEditCancel,
    ConfigThemePrev,
    ConfigThemeNext,
    ConfigThemeMode,
    ConfigThemeLight,
    ConfigThemeDark,
    ConfigThemeBrowse,
    BrowseToolbarBack,
    BrowseToolbarForward,
    BrowseToolbarUp,
    BrowseToolbarRefresh,
    BrowseToolbarSearch,
    BrowseToolbarOptions,
    BrowseSearchToggle,
    BrowseSearchInput,
    BrowseSearchMode,
    BrowseSearchRecursive,
    BrowseSearchAudioOnly,
    BrowseSearchSort,
    BrowseFilterInput,
    BrowsePathInlineEdit,
    BrowsePathGo,
    BrowseBreadcrumb,
    BrowsePaneToggle(BrowsePaneId),
    BrowsePaneTitle(BrowsePaneId),
    BrowseOptionsShowHidden,
    BrowseOptionsLayout,
    BrowseOptionsColumns,
    BrowseOptionsSort,
    BrowseOptionsFilter,
    BrowseOptionsArchiveListing,
    BrowseOptionsSaveLayout,
    BrowseOptionsRestoreDefaults,
    BrowseOptionsToggleExplore,
    BrowseOptionsToggleInfo,
    BrowseOptionsColumn(BrowseColumn),
    BrowseOptionsSortChoice(BrowseColumn, SortDir),
    BrowseOptionsFilterChoice(usize),
    BrowseOptionsArchiveChoice(usize),
    BrowseBookmarksToggle,
    BrowseBookmarkDropdownRow(usize),
    BrowseBookmarkDropdownAdd,
    BrowseBookmarkDropdownManage,
    BrowseList,
    BrowseEntry(usize),
    BrowseEntryGutter(usize),
    BrowseCreateRow,
    BrowseFileInlineEdit,
    BrowseColumn(BrowseColumn),
    BrowseInfoMeta(MetadataField),
    BrowseInfoAnalyze,
    BrowseInfoEditTags,
    BrowseInfoAudioStreams,
    BrowseTreeNode(usize),
    BrowseTreeDisclosure(usize),
    BrowseTreeInlineEdit,
    BrowseDirTabStrip,
    BrowseDirTab(usize),
    BrowseDirTabClose(usize),
    BrowseDirTabNew,
    BrowseDirTabReopenClosed,
    ScrollbarTrack(ScrollbarSurface),
    ScrollbarThumb(ScrollbarSurface),
}

/// A button and its place.
pub type Hit = (TuiButton, Rect);

/// Buttons in the order in which they were put on the screen. Where areas
/// overlap, the one recorded last is on top.
#[derive(Debug)]
pub struct ButtonRenderMap {
    pub hits: Vec<Hit>,
}

impl View for ButtonRenderMap {
    type V = Seq<Hit>;

    open spec fn view(&self) -> Seq<Hit> {
        self.hits@
    }
}

/// The button on top at column `x`, row `y`, among the first `n` recorded.
pub open spec fn topmost(hits: Seq<Hit>, x: int, y: int, n: nat) -> Option<TuiButton>
    decreases n,
{
    if n == 0 || n > hits.len() {
        None
    } else if hits[n - 1].1.holds(x, y) {
        Some(hits[n - 1].0)
    } else {
        topmost(hits, x, y, (n - 1) as nat)
    }
}

/// The area recorded last for `button`, among the first `n` recorded.
pub open spec fn latest_rect(hits: Seq<Hit>, button: TuiButton, n: nat) -> Option<Rect>
    decreases n,
{
    if n == 0 || n > hits.len() {
        None
    } else if hits[n - 1].0 == button {
        Some(hits[n - 1].1)
    } else {
        latest_rect(hits, button, (n - 1) as nat)
    }
}

/// `hit` alone where `shown`, else nothing.
pub open spec fn hit_if(shown: bool, button: TuiButton, area: Rect) -> Seq<Hit> {
    if shown {
        seq![(button, area)]
    } else {
        Seq::empty()
    }
}

impl ButtonRenderMap {
    /// No buttons.
    pub fn new() -> (r: ButtonRenderMap)
        ensures
            r@ == Seq::<Hit>::empty(),
    {
        ButtonRenderMap { hits: Vec::new() }
    }

    /// Forgets every button.
    pub fn clear(&mut self)
        ensures
            final(self)@ == Seq::<Hit>::empty(),
    {
        self.hits.clear();
        proof {
            assert(self.hits@ =~= Seq::<Hit>::empty());
        }
    }

    /// Puts `button` on top of what is at `area`.
    pub fn record_button(&mut self, button: TuiButton, area: Rect)
        ensures
            final(self)@ == old(self)@.push((button, area)),
    {
        self.hits.push((button, area));
    }

    /// Puts the buttons of `other` on top, in their order.
    pub fn append(&mut self, other: ButtonRenderMap)
        ensures
            final(self)@ == old(self)@ + other@,
    {
        let mut tail = other.hits;
        self.hits.append(&mut tail);
    }

    /// Puts `button` on top where `shown`.
    pub fn record_if(&mut self, shown: bool, button: TuiButton, area: Rect)
        ensures
            final(self)@ == old(self)@ + hit_if(shown, button, area),
    {
        if shown {
            self.hits.push((button, area));
        }
        proof {
            assert(self.hits@ =~= old(self)@ + hit_if(shown, button, area));
        }
    }

    /// All buttons with their areas, in the order in which they were recorded.
    pub fn recorded_buttons(&self) -> (r: &Vec<Hit>)
        ensures
            r@ == self@,
    {
        &self.hits
    }

    /// The button on top at column `x`, row `y`.
    pub fn find_button_at(&self, x: u16, y: u16) -> (r: Option<TuiButton>)
        ensures
            r == topmost(self@, x as int, y as int, self@.len()),
    {
        let mut n: usize = self.hits.len();
        while n > 0
            invariant
                n <= self@.len(),
                topmost(self@, x as int, y as int, n as nat) == topmost(
                    self@,
                    x as int,
                    y as int,
                    self@.len(),
                ),
            decreases n,
        {
            let hit = self.hits[n - 1];
            if hit.1.contains(x, y) {
                return Some(hit.0);
            }
            n -= 1;
        }
        None
    }

    /// The area recorded last for `button`.
    pub fn find_button_rect(&self, button: &TuiButton) -> (r: Option<Rect>)
        ensures
            r == latest_rect(self@, *button, self@.len()),
    {
        let mut n: usize = self.hits.len();
        while n > 0
            invariant
                n <= self@.len(),
                latest_rect(self@, *button, n as nat) == latest_rect(
                    self@,
                    *button,
                    self@.len(),
                ),
            decreases n,
        {
            let hit = self.hits[n - 1];
            if hit.0 == *button {
                return Some(hit.1);
            }
            n -= 1;
        }
        None
    }
}

/// Where two recorded areas overlap, the one recorded later takes the click, unless
/// something still later covers the cell too.
pub proof fn later_button_wins(hits: Seq<Hit>, i: int, x: int, y: int)
    requires
        0 <= i < hits.len(),
        hits[i].1.holds(x, y),
        forall|j: int| i < j < hits.len() ==> !(#[trigger] hits[j]).1.holds(x, y),
    ensures
        topmost(hits, x, y, hits.len()) == Some(hits[i].0),
{
    lemma_topmost_skips(hits, i, x, y, hits.len());
}

proof fn lemma_topmost_skips(hits: Seq<Hit>, i: int, x: int, y: int, n: nat)
    requires
        0 <= i < n <= hits.len(),
        hits[i].1.holds(x, y),
        forall|j: int| i < j < hits.len() ==> !(#[trigger] hits[j]).1.holds(x, y),
    ensures
        topmost(hits, x, y, n) == Some(hits[i].0),
    decreases n,
{
    if n - 1 != i {
        lemma_topmost_skips(hits, i, x, y, (n - 1) as nat);
    }
}

} // verus!
