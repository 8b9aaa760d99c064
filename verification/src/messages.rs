//! The words in which every failure is told to the operator.

use vstd::prelude::*;
use crate::error::{FCError, FCErrorView};
use crate::file_extension_type::extension_label;
use crate::media_file::{MediaFileParseError, MediaFileParseErrorView};
use crate::media_groups::{MediaGroupsError, MediaGroupsErrorView};
use crate::media_types::{media_type_label, MediaTypeError, MediaTypeErrorView};
use crate::photo_media_data::{PhotoMediaDataError, PhotoMediaDataErrorView};
use crate::scan_type::scan_type_label;
use crate::text::{decimal_text, owned, push_char, push_decimal};

verus! {

/// A word between double quotes.
pub open spec fn quoted(word: Seq<char>) -> Seq<char> {
    seq!['"'] + word + seq!['"']
}

/// What is told of a failure to summarise an image's tags.
pub open spec fn photo_media_data_message(error: PhotoMediaDataErrorView) -> Seq<char> {
    match error {
        PhotoMediaDataErrorView::CouldNotReadPath(path) => "could not read "@ + path,
        PhotoMediaDataErrorView::IncorrectDpi(expected, found) => "expected "@ + decimal_text(expected as nat)
            + " dpi, photo had "@ + decimal_text(found as nat) + " dpi"@,
        PhotoMediaDataErrorView::NotCorrected => "was not corrected"@,
        PhotoMediaDataErrorView::DifferentXYDpi(x, y) => "different dpi values found along the X ("@
            + decimal_text(x as nat) + ") and Y ("@ + decimal_text(y as nat) + ") dimensions"@,
        PhotoMediaDataErrorView::NoDpiFound => "no dpi tag found"@,
        PhotoMediaDataErrorView::BadlyFormattedExifTag(tag_name) => "badly formatted "@ + tag_name
            + " couldn't be read"@,
    }
}

/// What is told of a failure to read a media type.
pub open spec fn media_type_message(error: MediaTypeErrorView) -> Seq<char> {
    match error {
        MediaTypeErrorView::CouldNotReadPath(path) => "could not read "@ + path,
        MediaTypeErrorView::PhotoMediaDataError(inner) => "error creating photo media data: "@
            + photo_media_data_message(inner),
        MediaTypeErrorView::UnrecognizedMediaType(word) => "unrecognized media type "@ + word,
    }
}

/// What is told of a failure to read a file's name.
pub open spec fn media_file_parse_message(error: MediaFileParseErrorView) -> Seq<char> {
    match error {
        MediaFileParseErrorView::NameShort(word) => "name "@ + quoted(word) + " was too short"@,
        MediaFileParseErrorView::NotAFile(path) => "path "@ + quoted(path) + " is not a file"@,
        MediaFileParseErrorView::MediaTypeError(inner) => media_type_message(inner),
        MediaFileParseErrorView::ExpectedGroupOrIndexNumber(word) => "unrecognized text "@ + quoted(word)
            + " where a group or index number should have been"@,
        MediaFileParseErrorView::NoIndexNumber => "no index number could be found"@,
        MediaFileParseErrorView::InvalidExtension(word) => "invalid extension "@ + quoted(word),
        MediaFileParseErrorView::ExpectedEnd(word) => "unexpected additional field "@ + quoted(word),
    }
}

/// What is told of a failure to count or to match the counts of a folder.
pub open spec fn media_groups_message(error: MediaGroupsErrorView) -> Seq<char> {
    match error {
        MediaGroupsErrorView::IncorrectMediaAndScanTypeCount(name, counted, expected) => "expected "@
            + decimal_text(expected as nat) + " "@ + name + ", counted "@ + decimal_text(counted as nat),
        MediaGroupsErrorView::InvalidScanTypeMediaGroupCombo(scan_type, media_type, file_name) => file_name
            + " can't be of type "@ + media_type_label(media_type) + " and be scanned as a/an "@
            + scan_type_label(scan_type),
        MediaGroupsErrorView::NoneOfFileTypeFound(name) => "expected "@ + name + ", but found none"@,
        MediaGroupsErrorView::OutOfPlaceMediaType(name) => "found "@ + name + ", but wasn't expecting any"@,
    }
}

/// What is told of a value of a file that is not the expected one.
pub open spec fn mismatch_message(
    file_name: Seq<char>,
    what: Seq<char>,
    got: Seq<char>,
    expected: Seq<char>,
) -> Seq<char> {
    "file "@ + file_name + " had "@ + what + " "@ + got + " when it should have been "@ + expected
}

/// What is told of a value that a file lacks.
pub open spec fn missing_message(file_name: Seq<char>, what: Seq<char>, expected: Seq<char>) -> Seq<char> {
    "file "@ + file_name + " had no "@ + what + " when it should have been "@ + expected
}

/// What is told of a failed final check.
pub open spec fn fc_message(error: FCErrorView) -> Seq<char> {
    match error {
        FCErrorView::DeserializeError(message) => "could not deserialize request: "@ + message,
        FCErrorView::InvalidRequest(message) => "invalid request: "@ + message,
        FCErrorView::InsufficientGroupNumberPrecision(number, precision) => "requested a group number "@
            + decimal_text(number as nat) + " with only "@ + decimal_text(precision as nat)
            + " digits of precision"@,
        FCErrorView::GroupNumberPrecisionTooHigh(precision) => "group number precision of "@ + decimal_text(
            precision as nat,
        ) + " is higher than the maximum 6"@,
        FCErrorView::InvalidDirectory(message) => "invalid directory: "@ + message,
        FCErrorView::NoFilesInDirectory(directory) => "no files could be found in/at "@ + directory,
        FCErrorView::InvalidFile(message) => "invalid file path: "@ + message,
        FCErrorView::MediaGroupingError(inner) => "error grouping media files: "@ + media_groups_message(inner),
        FCErrorView::MediaFileParseError(path, inner) => "error parsing "@ + path + ": "@
            + media_file_parse_message(inner),
        FCErrorView::IncorrectMediaCount(inner) => "incorrect media count: "@ + media_groups_message(inner),
        FCErrorView::IncompatibleFileExtension(media_type, extension, file) => "file "@ + file.raw_file_name
            + " has a media type of "@ + media_type_label(media_type)
            + " but an incompatible file extension of "@ + extension_label(extension),
        FCErrorView::OutOfPlaceMediaType(media_type) => "found a file with "@ + media_type_label(media_type)
            + ", but wasn't expecting any"@,
        FCErrorView::IncorrectLastName(expected, got, file) => "file "@ + file.raw_file_name
            + " had last name "@ + got + " when it should be "@ + expected,
        FCErrorView::IncorrectFirstInitial(expected, got, file) => mismatch_message(
            file.raw_file_name,
            "a first initial"@,
            seq![got],
            seq![expected],
        ),
        FCErrorView::IncorrectDpi(expected, got, file) => mismatch_message(
            file.raw_file_name,
            "dpi"@,
            decimal_text(got as nat),
            decimal_text(expected as nat),
        ),
        FCErrorView::NotCorrected(file) => "file "@ + file.raw_file_name + " has not been corrected"@,
        FCErrorView::MissingGroupNumber(expected, file) => missing_message(
            file.raw_file_name,
            "group number"@,
            decimal_text(expected as nat),
        ),
        FCErrorView::IncorrectGroupNumber(expected, got, file) => mismatch_message(
            file.raw_file_name,
            "group number"@,
            decimal_text(got as nat),
            decimal_text(expected as nat),
        ),
        FCErrorView::MissingGroupChar(expected, file) => missing_message(
            file.raw_file_name,
            "group character"@,
            seq![expected],
        ),
        FCErrorView::IncorrectGroupChar(expected, got, file) => mismatch_message(
            file.raw_file_name,
            "group character"@,
            seq![got],
            seq![expected],
        ),
        FCErrorView::IncorrectGroupNumberPrecision(expected, got, file) => mismatch_message(
            file.raw_file_name,
            "a group number precision of"@,
            decimal_text(got as nat) + " digits"@,
            decimal_text(expected as nat) + " digits"@,
        ),
        FCErrorView::RepeatedIndexNumber(index_number, file_name, first_file_name) => "files "@ + file_name
            + " and "@ + first_file_name + " have the same index number "@ + decimal_text(index_number as nat),
        FCErrorView::IncorrectIndexNumberPrecision(expected, got, file) => mismatch_message(
            file.raw_file_name,
            "an index number precision of"@,
            decimal_text(got as nat) + " digits"@,
            decimal_text(expected as nat),
        ),
        FCErrorView::FolderSkippedIndexNumber(index_number) => "folder skipped index number "@ + decimal_text(
            index_number as nat,
        ),
    }
}

/// A value as it is written in a message.
enum Shown<'a> {
    Text(&'a str),
    Number(u64),
    /// A number of digits.
    Digits(u64),
    Character(char),
}

impl<'a> Shown<'a> {
    /// The characters that write the value.
    spec fn text(self) -> Seq<char> {
        match self {
            Shown::Text(text) => text@,
            Shown::Number(number) => decimal_text(number as nat),
            Shown::Digits(number) => decimal_text(number as nat) + " digits"@,
            Shown::Character(character) => seq![character],
        }
    }
}

/// Writes a value at the end of `text`.
fn push_shown(text: &mut String, value: &Shown)
    ensures
        final(text)@ == old(text)@ + value.text(),
{
    match value {
        Shown::Text(words) => text.append(words),
        Shown::Number(number) => push_decimal(text, *number),
        Shown::Digits(number) => {
            push_decimal(text, *number);
            text.append(" digits");
            assert(final(text)@ =~= old(text)@ + (decimal_text(*number as nat) + " digits"@));
        },
        Shown::Character(character) => {
            push_char(text, *character);
            assert(old(text)@.push(*character) =~= old(text)@ + seq![*character]);
        },
    }
}

/// A word between double quotes, after `before`.
fn with_quoted(before: &str, word: &str) -> (r: String)
    ensures
        r@ == before@ + quoted(word@),
{
    let mut text = owned(before);
    push_char(&mut text, '"');
    text.append(word);
    push_char(&mut text, '"');
    assert(text@ =~= before@ + quoted(word@));
    text
}

/// Tells that a value of a file is not the expected one.
fn tell_mismatch(file_name: &str, what: &str, got: Shown, expected: Shown) -> (r: String)
    ensures
        r@ == mismatch_message(file_name@, what@, got.text(), expected.text()),
{
    let mut text = owned("file ");
    text.append(file_name);
    text.append(" had ");
    text.append(what);
    text.append(" ");
    push_shown(&mut text, &got);
    text.append(" when it should have been ");
    push_shown(&mut text, &expected);
    text
}

/// Tells that a file lacks a value.
fn tell_missing(file_name: &str, what: &str, expected: Shown) -> (r: String)
    ensures
        r@ == missing_message(file_name@, what@, expected.text()),
{
    let mut text = owned("file ");
    text.append(file_name);
    text.append(" had no ");
    text.append(what);
    text.append(" when it should have been ");
    push_shown(&mut text, &expected);
    text
}

impl PhotoMediaDataError {
    /// What is told of this failure.
    pub fn to_string(&self) -> (r: String)
        ensures
            r@ == photo_media_data_message(self@),
    {
        match self {
            PhotoMediaDataError::CouldNotReadPath(path) => {
                let mut text = owned("could not read ");
                text.append(path.as_str());
                text
            },
            PhotoMediaDataError::IncorrectDpi(expected, found) => {
                let mut text = owned("expected ");
                push_decimal(&mut text, *expected);
                text.append(" dpi, photo had ");
                push_decimal(&mut text, *found as u64);
                text.append(" dpi");
                text
            },
            PhotoMediaDataError::NotCorrected => owned("was not corrected"),
            PhotoMediaDataError::DifferentXYDpi(x, y) => {
                let mut text = owned("different dpi values found along the X (");
                push_decimal(&mut text, *x as u64);
                text.append(") and Y (");
                push_decimal(&mut text, *y as u64);
                text.append(") dimensions");
                text
            },
            PhotoMediaDataError::NoDpiFound => owned("no dpi tag found"),
            PhotoMediaDataError::BadlyFormattedExifTag(tag_name) => {
                let mut text = owned("badly formatted ");
                text.append(tag_name.as_str());
                text.append(" couldn't be read");
                text
            },
        }
    }
}

impl MediaTypeError {
    /// What is told of this failure.
    pub fn to_string(&self) -> (r: String)
        ensures
            r@ == media_type_message(self@),
    {
        match self {
            MediaTypeError::CouldNotReadPath(path) => {
                let mut text = owned("could not read ");
                text.append(path.as_str());
                text
            },
            MediaTypeError::PhotoMediaDataError(inner) => {
                let mut text = owned("error creating photo media data: ");
                text.append(inner.to_string().as_str());
                text
            },
            MediaTypeError::UnrecognizedMediaType(word) => {
                let mut text = owned("unrecognized media type ");
                text.append(word.as_str());
                text
            },
        }
    }
}

impl MediaFileParseError {
    /// What is told of this failure.
    pub fn to_string(&self) -> (r: String)
        ensures
            r@ == media_file_parse_message(self@),
    {
        match self {
            MediaFileParseError::NameShort(word) => {
                let mut text = with_quoted("name ", word.as_str());
                text.append(" was too short");
                text
            },
            MediaFileParseError::NotAFile(path) => {
                let mut text = with_quoted("path ", path.as_str());
                text.append(" is not a file");
                text
            },
            MediaFileParseError::MediaTypeError(inner) => inner.to_string(),
            MediaFileParseError::ExpectedGroupOrIndexNumber(word) => {
                let mut text = with_quoted("unrecognized text ", word.as_str());
                text.append(" where a group or index number should have been");
                text
            },
            MediaFileParseError::NoIndexNumber => owned("no index number could be found"),
            MediaFileParseError::InvalidExtension(word) => with_quoted("invalid extension ", word.as_str()),
            MediaFileParseError::ExpectedEnd(word) => with_quoted("unexpected additional field ", word.as_str()),
        }
    }
}

impl MediaGroupsError {
    /// What is told of this failure.
    pub fn to_string(&self) -> (r: String)
        ensures
            r@ == media_groups_message(self@),
    {
        match self {
            MediaGroupsError::IncorrectMediaAndScanTypeCount(name, counted, expected) => {
                let mut text = owned("expected ");
                push_decimal(&mut text, *expected);
                text.append(" ");
                text.append(name.as_str());
                text.append(", counted ");
                push_decimal(&mut text, *counted);
                text
            },
            MediaGroupsError::InvalidScanTypeMediaGroupCombo(scan_type, media_type, file_name) => {
                let mut text = file_name.clone();
                text.append(" can't be of type ");
                text.append(media_type.to_string().as_str());
                text.append(" and be scanned as a/an ");
                text.append(scan_type.to_string().as_str());
                text
            },
            MediaGroupsError::NoneOfFileTypeFound(name) => {
                let mut text = owned("expected ");
                text.append(name.as_str());
                text.append(", but found none");
                text
            },
            MediaGroupsError::OutOfPlaceMediaType(name) => {
                let mut text = owned("found ");
                text.append(name.as_str());
                text.append(", but wasn't expecting any");
                text
            },
        }
    }
}

impl FCError {
    /// What is told of this failure.
    pub fn to_string(&self) -> (r: String)
        ensures
            r@ == fc_message(self@),
    {
        match self {
            FCError::DeserializeError(message) => {
                let mut text = owned("could not deserialize request: ");
                text.append(message.as_str());
                text
            },
            FCError::InvalidRequest(message) => {
                let mut text = owned("invalid request: ");
                text.append(message.as_str());
                text
            },
            FCError::InsufficientGroupNumberPrecision(number, precision) => {
                let mut text = owned("requested a group number ");
                push_decimal(&mut text, *number);
                text.append(" with only ");
                push_decimal(&mut text, *precision);
                text.append(" digits of precision");
                text
            },
            FCError::GroupNumberPrecisionTooHigh(precision) => {
                let mut text = owned("group number precision of ");
                push_decimal(&mut text, *precision);
                text.append(" is higher than the maximum 6");
                text
            },
            FCError::InvalidDirectory(message) => {
                let mut text = owned("invalid directory: ");
                text.append(message.as_str());
                text
            },
            FCError::NoFilesInDirectory(directory) => {
                let mut text = owned("no files could be found in/at ");
                text.append(directory.as_str());
                text
            },
            FCError::InvalidFile(message) => {
                let mut text = owned("invalid file path: ");
                text.append(message.as_str());
                text
            },
            FCError::MediaGroupingError(inner) => {
                let mut text = owned("error grouping media files: ");
                text.append(inner.to_string().as_str());
                text
            },
            FCError::MediaFileParseError(path, inner) => {
                let mut text = owned("error parsing ");
                text.append(path.as_str());
                text.append(": ");
                text.append(inner.to_string().as_str());
                text
            },
            FCError::IncorrectMediaCount(inner) => {
                let mut text = owned("incorrect media count: ");
                text.append(inner.to_string().as_str());
                text
            },
            FCError::IncompatibleFileExtension(media_type, extension, media_file) => {
                let mut text = owned("file ");
                text.append(media_file.raw_file_name.as_str());
                text.append(" has a media type of ");
                text.append(media_type.to_string().as_str());
                text.append(" but an incompatible file extension of ");
                text.append(extension.to_string().as_str());
                text
            },
            FCError::OutOfPlaceMediaType(media_type) => {
                let mut text = owned("found a file with ");
                text.append(media_type.to_string().as_str());
                text.append(", but wasn't expecting any");
                text
            },
            FCError::IncorrectLastName(expected, got, media_file) => {
                let mut text = owned("file ");
                text.append(media_file.raw_file_name.as_str());
                text.append(" had last name ");
                text.append(got.as_str());
                text.append(" when it should be ");
                text.append(expected.as_str());
                text
            },
            FCError::IncorrectFirstInitial(expected, got, media_file) => tell_mismatch(
                media_file.raw_file_name.as_str(),
                "a first initial",
                Shown::Character(*got),
                Shown::Character(*expected),
            ),
            FCError::IncorrectDpi(expected, got, media_file) => tell_mismatch(
                media_file.raw_file_name.as_str(),
                "dpi",
                Shown::Number(*got),
                Shown::Number(*expected),
            ),
            FCError::NotCorrected(media_file) => {
                let mut text = owned("file ");
                text.append(media_file.raw_file_name.as_str());
                text.append(" has not been corrected");
                text
            },
            FCError::MissingGroupNumber(expected, media_file) => tell_missing(
                media_file.raw_file_name.as_str(),
                "group number",
                Shown::Number(*expected),
            ),
            FCError::IncorrectGroupNumber(expected, got, media_file) => tell_mismatch(
                media_file.raw_file_name.as_str(),
                "group number",
                Shown::Number(*got),
                Shown::Number(*expected),
            ),
            FCError::MissingGroupChar(expected, media_file) => tell_missing(
                media_file.raw_file_name.as_str(),
                "group character",
                Shown::Character(*expected),
            ),
            FCError::IncorrectGroupChar(expected, got, media_file) => tell_mismatch(
                media_file.raw_file_name.as_str(),
                "group character",
                Shown::Character(*got),
                Shown::Character(*expected),
            ),
            FCError::IncorrectGroupNumberPrecision(expected, got, media_file) => tell_mismatch(
                media_file.raw_file_name.as_str(),
                "a group number precision of",
                Shown::Digits(*got),
                Shown::Digits(*expected),
            ),
            FCError::RepeatedIndexNumber(index_number, file_name, first_file_name) => {
                let mut text = owned("files ");
                text.append(file_name.as_str());
                text.append(" and ");
                text.append(first_file_name.as_str());
                text.append(" have the same index number ");
                push_decimal(&mut text, *index_number as u64);
                text
            },
            FCError::IncorrectIndexNumberPrecision(expected, got, media_file) => tell_mismatch(
                media_file.raw_file_name.as_str(),
                "an index number precision of",
                Shown::Digits(*got),
                Shown::Number(*expected),
            ),
            FCError::FolderSkippedIndexNumber(index_number) => {
                let mut text = owned("folder skipped index number ");
                push_decimal(&mut text, *index_number as u64);
                text
            },
        }
    }
}

} // verus!
