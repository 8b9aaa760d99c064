//! Everything that can fail a final check.

use vstd::prelude::*;
use crate::file_extension_type::FileExtensionType;
use crate::media_file::{MediaFile, MediaFileParseError, MediaFileParseErrorView, MediaFileView};
use crate::media_groups::{MediaGroupsError, MediaGroupsErrorView};
use crate::media_types::MediaType;

verus! {

/// The first violation that a final check found. Where two values are given, the
/// expected one comes first.
#[derive(Debug)]
pub enum FCError {
    /// The request could not be read; holds the reader's message.
    DeserializeError(String),
    InvalidRequest(String),
    /// The group number and the precision that is too small for it.
    InsufficientGroupNumberPrecision(u64, u64),
    GroupNumberPrecisionTooHigh(u64),
    /// The directory pattern was refused; holds the message.
    InvalidDirectory(String),
    NoFilesInDirectory(String),
    /// A path of the directory could not be read; holds the message.
    InvalidFile(String),
    MediaGroupingError(MediaGroupsError),
    /// The path of the file and why its name could not be read.
    MediaFileParseError(String, MediaFileParseError),
    IncorrectMediaCount(MediaGroupsError),
    IncompatibleFileExtension(MediaType, FileExtensionType, MediaFile),
    OutOfPlaceMediaType(MediaType),
    IncorrectLastName(String, String, MediaFile),
    IncorrectFirstInitial(char, char, MediaFile),
    IncorrectDpi(u64, u64, MediaFile),
    NotCorrected(MediaFile),
    MissingGroupNumber(u64, MediaFile),
    IncorrectGroupNumber(u64, u64, MediaFile),
    MissingGroupChar(char, MediaFile),
    IncorrectGroupChar(char, char, MediaFile),
    IncorrectGroupNumberPrecision(u64, u64, MediaFile),
    /// The index number, the file that repeats it, and the file that had it first.
    RepeatedIndexNumber(u32, String, String),
    IncorrectIndexNumberPrecision(u64, u64, MediaFile),
    FolderSkippedIndexNumber(u32),
}

/// A failed final check, with texts read as sequences of characters.
pub enum FCErrorView {
    DeserializeError(Seq<char>),
    InvalidRequest(Seq<char>),
    InsufficientGroupNumberPrecision(u64, u64),
    GroupNumberPrecisionTooHigh(u64),
    InvalidDirectory(Seq<char>),
    NoFilesInDirectory(Seq<char>),
    InvalidFile(Seq<char>),
    MediaGroupingError(MediaGroupsErrorView),
    MediaFileParseError(Seq<char>, MediaFileParseErrorView),
    IncorrectMediaCount(MediaGroupsErrorView),
    IncompatibleFileExtension(MediaType, FileExtensionType, MediaFileView),
    OutOfPlaceMediaType(MediaType),
    IncorrectLastName(Seq<char>, Seq<char>, MediaFileView),
    IncorrectFirstInitial(char, char, MediaFileView),
    IncorrectDpi(u64, u64, MediaFileView),
    NotCorrected(MediaFileView),
    MissingGroupNumber(u64, MediaFileView),
    IncorrectGroupNumber(u64, u64, MediaFileView),
    MissingGroupChar(char, MediaFileView),
    IncorrectGroupChar(char, char, MediaFileView),
    IncorrectGroupNumberPrecision(u64, u64, MediaFileView),
    RepeatedIndexNumber(u32, Seq<char>, Seq<char>),
    IncorrectIndexNumberPrecision(u64, u64, MediaFileView),
    FolderSkippedIndexNumber(u32),
}

impl View for FCError {
    type V = FCErrorView;

    open spec fn view(&self) -> FCErrorView {
        match self {
            FCError::DeserializeError(message) => FCErrorView::DeserializeError(message@),
            FCError::InvalidRequest(message) => FCErrorView::InvalidRequest(message@),
            FCError::InsufficientGroupNumberPrecision(number, precision) => FCErrorView::InsufficientGroupNumberPrecision(*number, *precision),
            FCError::GroupNumberPrecisionTooHigh(precision) => FCErrorView::GroupNumberPrecisionTooHigh(*precision),
            FCError::InvalidDirectory(message) => FCErrorView::InvalidDirectory(message@),
            FCError::NoFilesInDirectory(directory) => FCErrorView::NoFilesInDirectory(directory@),
            FCError::InvalidFile(message) => FCErrorView::InvalidFile(message@),
            FCError::MediaGroupingError(error) => FCErrorView::MediaGroupingError(error@),
            FCError::MediaFileParseError(path, error) => FCErrorView::MediaFileParseError(path@, error@),
            FCError::IncorrectMediaCount(error) => FCErrorView::IncorrectMediaCount(error@),
            FCError::IncompatibleFileExtension(media_type, extension, file) => FCErrorView::IncompatibleFileExtension(*media_type, *extension, file@),
            FCError::OutOfPlaceMediaType(media_type) => FCErrorView::OutOfPlaceMediaType(*media_type),
            FCError::IncorrectLastName(expected, got, file) => FCErrorView::IncorrectLastName(expected@, got@, file@),
            FCError::IncorrectFirstInitial(expected, got, file) => FCErrorView::IncorrectFirstInitial(*expected, *got, file@),
            FCError::IncorrectDpi(expected, got, file) => FCErrorView::IncorrectDpi(*expected, *got, file@),
            FCError::NotCorrected(file) => FCErrorView::NotCorrected(file@),
            FCError::MissingGroupNumber(expected, file) => FCErrorView::MissingGroupNumber(*expected, file@),
            FCError::IncorrectGroupNumber(expected, got, file) => FCErrorView::IncorrectGroupNumber(*expected, *got, file@),
            FCError::MissingGroupChar(expected, file) => FCErrorView::MissingGroupChar(*expected, file@),
            FCError::IncorrectGroupChar(expected, got, file) => FCErrorView::IncorrectGroupChar(*expected, *got, file@),
            FCError::IncorrectGroupNumberPrecision(expected, got, file) => FCErrorView::IncorrectGroupNumberPrecision(*expected, *got, file@),
            FCError::RepeatedIndexNumber(index_number, file_name, first_file_name) => FCErrorView::RepeatedIndexNumber(*index_number, file_name@, first_file_name@),
            FCError::IncorrectIndexNumberPrecision(expected, got, file) => FCErrorView::IncorrectIndexNumberPrecision(*expected, *got, file@),
            FCError::FolderSkippedIndexNumber(index_number) => FCErrorView::FolderSkippedIndexNumber(*index_number),
        }
    }
}

} // verus!
