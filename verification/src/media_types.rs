//! The physical source formats, each carrying what its image's tags say.

use vstd::prelude::*;
use little_exif::metadata::Metadata;
use crate::outcome::outcome_view;
use crate::photo_media_data::{
    photo_data_of_container, PhotoMediaData, PhotoMediaDataError, PhotoMediaDataErrorView,
};
use crate::text::{owned, same_text};

verus! {

/// The physical source of a scan, with the summary of the image's tags.
#[derive(Debug, Clone, Copy, PartialEq, Eq, Structural)]
pub enum MediaType {
    Prints(PhotoMediaData),
    Slides(PhotoMediaData),
    Negatives(PhotoMediaData),
}

impl View for MediaType {
    type V = MediaType;

    open spec fn view(&self) -> MediaType {
        *self
    }
}

/// Why a field gave no media type.
#[derive(Debug)]
pub enum MediaTypeError {
    CouldNotReadPath(String),
    PhotoMediaDataError(PhotoMediaDataError),
    UnrecognizedMediaType(String),
}

/// A failure to read a media type, with texts read as sequences of characters.
pub enum MediaTypeErrorView {
    CouldNotReadPath(Seq<char>),
    PhotoMediaDataError(PhotoMediaDataErrorView),
    UnrecognizedMediaType(Seq<char>),
}

impl View for MediaTypeError {
    type V = MediaTypeErrorView;

    open spec fn view(&self) -> MediaTypeErrorView {
        match self {
            MediaTypeError::CouldNotReadPath(path) => MediaTypeErrorView::CouldNotReadPath(path@),
            MediaTypeError::PhotoMediaDataError(error) => MediaTypeErrorView::PhotoMediaDataError(error@),
            MediaTypeError::UnrecognizedMediaType(word) => MediaTypeErrorView::UnrecognizedMediaType(word@),
        }
    }
}

/// A physical source of scans, without the data of any one file.
#[derive(Debug, Clone, Copy, PartialEq, Eq, Structural)]
pub enum MediaKind {
    Prints,
    Slides,
    Negatives,
}

/// The kind that a label in a file name stands for, if it is one of the three labels.
pub open spec fn kind_of_label(word: Seq<char>) -> Option<MediaKind> {
    if word == "Prints"@ {
        Some(MediaKind::Prints)
    } else if word == "Slides"@ {
        Some(MediaKind::Slides)
    } else if word == "Negs"@ {
        Some(MediaKind::Negatives)
    } else {
        None
    }
}

impl MediaKind {
    /// The media type of this kind that carries `data`.
    pub open spec fn with(self, data: PhotoMediaData) -> MediaType {
        match self {
            MediaKind::Prints => MediaType::Prints(data),
            MediaKind::Slides => MediaType::Slides(data),
            MediaKind::Negatives => MediaType::Negatives(data),
        }
    }
}

/// Reads a word as a media type: an unknown label fails before the image is looked
/// at, a known one fails as reading the image's tags did.
pub open spec fn media_type_of_word(
    word: Seq<char>,
    photo: Result<PhotoMediaData, PhotoMediaDataErrorView>,
) -> Result<MediaType, MediaTypeErrorView> {
    match kind_of_label(word) {
        None => Err(MediaTypeErrorView::UnrecognizedMediaType(word)),
        Some(kind) => match photo {
            Ok(data) => Ok(kind.with(data)),
            Err(error) => Err(MediaTypeErrorView::PhotoMediaDataError(error)),
        },
    }
}

/// The name by which a media type is shown to the operator.
pub open spec fn media_type_label(media_type: MediaType) -> Seq<char> {
    match media_type {
        MediaType::Prints(_) => "Prints"@,
        MediaType::Slides(_) => "Slides"@,
        MediaType::Negatives(_) => "Negatives"@,
    }
}

impl MediaType {
    /// The tag summary that this media type carries.
    pub open spec fn data(self) -> PhotoMediaData {
        match self {
            MediaType::Prints(data) => data,
            MediaType::Slides(data) => data,
            MediaType::Negatives(data) => data,
        }
    }

    /// The kind of this media type.
    pub open spec fn kind(self) -> MediaKind {
        match self {
            MediaType::Prints(_) => MediaKind::Prints,
            MediaType::Slides(_) => MediaKind::Slides,
            MediaType::Negatives(_) => MediaKind::Negatives,
        }
    }

    /// The kind of this media type.
    pub fn media_kind(&self) -> (r: MediaKind)
        ensures
            r == self.kind(),
    {
        match self {
            MediaType::Prints(_) => MediaKind::Prints,
            MediaType::Slides(_) => MediaKind::Slides,
            MediaType::Negatives(_) => MediaKind::Negatives,
        }
    }

    /// The tag summary that this media type carries.
    pub fn photo_data(&self) -> (r: PhotoMediaData)
        ensures
            r == self.data(),
    {
        match self {
            MediaType::Prints(data) => *data,
            MediaType::Slides(data) => *data,
            MediaType::Negatives(data) => *data,
        }
    }

    /// Reads the media label `word` of the file at `path` and attaches the summary of
    /// the file's tags, taken from `container` (`None`: it could not be read).
    pub fn from_path(word: &str, path: &String, container: &Option<Metadata>) -> (r: Result<MediaType, MediaTypeError>)
        ensures
            outcome_view(r) == media_type_of_word(word@, photo_data_of_container(path@, *container)),
    {
        let kind = if same_text(word, "Prints") {
            MediaKind::Prints
        } else if same_text(word, "Slides") {
            MediaKind::Slides
        } else if same_text(word, "Negs") {
            MediaKind::Negatives
        } else {
            return Err(MediaTypeError::UnrecognizedMediaType(owned(word)));
        };
        match PhotoMediaData::from_path(path, container) {
            Err(error) => Err(MediaTypeError::PhotoMediaDataError(error)),
            Ok(data) => Ok(
                match kind {
                    MediaKind::Prints => MediaType::Prints(data),
                    MediaKind::Slides => MediaType::Slides(data),
                    MediaKind::Negatives => MediaType::Negatives(data),
                },
            ),
        }
    }

    /// The name by which this media type is shown to the operator.
    pub fn to_string(&self) -> (r: String)
        ensures
            r@ == media_type_label(*self),
    {
        match self {
            MediaType::Prints(_) => owned("Prints"),
            MediaType::Slides(_) => owned("Slides"),
            MediaType::Negatives(_) => owned("Negatives"),
        }
    }
}

} // verus!
