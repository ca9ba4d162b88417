//! What is to be converted: the source and its tags.

use crate::disc::PresentationId;
use crate::inline_edit::TextInputState;
use vstd::prelude::*;

verus! {

/// A tag of the conversion.
#[derive(Clone, Copy, Debug, PartialEq, Eq, Structural)]
pub enum ConvertMetadataField {
    Title,
    Artist,
    Album,
    AlbumArtist,
    Genre,
    Year,
}

/// The tags of the conversion, and how they are being edited.
#[derive(Debug)]
pub struct MetadataState {
    pub title: Option<String>,
    pub artist: Option<String>,
    pub album: Option<String>,
    pub genre: Option<String>,
    pub year: Option<String>,
    pub album_artist_for_conversion: Option<String>,
    pub field_focus: ConvertMetadataField,
    pub editing: Option<ConvertMetadataField>,
    pub edit_input: TextInputState,
    /// The first file shown in the list of files.
    pub file_scroll: usize,
}

/// The text of a tag; nothing where it is not set.
pub open spec fn tag_text(tag: Option<String>) -> Seq<char> {
    match tag {
        Some(text) => text@,
        None => ""@,
    }
}

/// The text of a tag; nothing where it is not set.
pub fn tag_str(tag: &Option<String>) -> (r: &str)
    ensures
        r@ == tag_text(*tag),
{
    match tag {
        Some(text) => text.as_str(),
        None => "",
    }
}

impl MetadataState {
    /// The text of a tag.
    pub open spec fn value(self, field: ConvertMetadataField) -> Seq<char> {
        match field {
            ConvertMetadataField::Title => tag_text(self.title),
            ConvertMetadataField::Artist => tag_text(self.artist),
            ConvertMetadataField::Album => tag_text(self.album),
            ConvertMetadataField::AlbumArtist => tag_text(self.album_artist_for_conversion),
            ConvertMetadataField::Genre => tag_text(self.genre),
            ConvertMetadataField::Year => tag_text(self.year),
        }
    }

    /// The text of a tag.
    pub fn value_of(&self, field: ConvertMetadataField) -> (r: &str)
        ensures
            r@ == self.value(field),
    {
        match field {
            ConvertMetadataField::Title => tag_str(&self.title),
            ConvertMetadataField::Artist => tag_str(&self.artist),
            ConvertMetadataField::Album => tag_str(&self.album),
            ConvertMetadataField::AlbumArtist => tag_str(&self.album_artist_for_conversion),
            ConvertMetadataField::Genre => tag_str(&self.genre),
            ConvertMetadataField::Year => tag_str(&self.year),
        }
    }

    /// The tag is being edited.
    pub open spec fn edits(self, field: ConvertMetadataField) -> bool {
        self.editing == Some(field)
    }

    /// Whether the tag is being edited.
    pub fn is_editing(&self, field: ConvertMetadataField) -> (r: bool)
        ensures
            r == self.edits(field),
    {
        match self.editing {
            Some(edited) => edited == field,
            None => false,
        }
    }
}

/// One track of a source that holds several.
#[derive(Debug)]
pub struct MultiTrackEntry {
    pub number: u32,
    pub title: Option<String>,
}

/// A track found in an archive.
#[derive(Debug)]
pub struct ArchivePreviewTrack {
    pub original_name: String,
}

/// What an archive holds.
#[derive(Debug)]
pub struct ArchivePreview {
    pub tracks: Vec<ArchivePreviewTrack>,
}

/// What is to be converted.
#[derive(Debug)]
pub enum SourceMode {
    Empty,
    Single { path: String },
    Batch { paths: Vec<String>, cursor: usize },
    MultiTrack {
        tracks: Vec<MultiTrackEntry>,
        cursor: usize,
        archive_preview: Option<ArchivePreview>,
        selected_presentation_id: Option<PresentationId>,
    },
}

} // verus!
