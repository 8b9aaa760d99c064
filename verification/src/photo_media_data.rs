//! What the tags embedded in an image say about how it was scanned.

use vstd::prelude::*;
use little_exif::endian::Endian;
use little_exif::metadata::Metadata;
use crate::outcome::outcome_view;
use crate::scan_type::ScanType;
use crate::text::owned;

verus! {

/// Tag number of the horizontal resolution.
pub const X_RESOLUTION_TAG: u16 = 0x011a;

/// Tag number of the vertical resolution.
pub const Y_RESOLUTION_TAG: u16 = 0x011b;

/// Tag number of the software that last wrote the image.
pub const SOFTWARE_TAG: u16 = 0x0131;

/// Tag number of the model of the capturing device.
pub const MODEL_TAG: u16 = 0x0110;

/// Summary of an image's embedded tags.
#[derive(Debug, Clone, Copy, PartialEq, Eq, Structural)]
pub struct PhotoMediaData {
    /// Resolution in dots per inch, the same in both directions.
    pub dpi: u64,
    /// Whether photo-editing software wrote the image.
    pub is_corrected: bool,
    /// The scan type that the capturing device implies, where it is known.
    pub true_scan_type: Option<ScanType>,
}

impl View for PhotoMediaData {
    type V = PhotoMediaData;

    open spec fn view(&self) -> PhotoMediaData {
        *self
    }
}

/// Why an image's tags gave no summary.
#[derive(Debug)]
pub enum PhotoMediaDataError {
    CouldNotReadPath(String),
    IncorrectDpi(u64, u32),
    NotCorrected,
    DifferentXYDpi(u32, u32),
    NoDpiFound,
    BadlyFormattedExifTag(String),
}

/// A failure to summarise tags, with texts read as sequences of characters.
pub enum PhotoMediaDataErrorView {
    CouldNotReadPath(Seq<char>),
    IncorrectDpi(u64, u32),
    NotCorrected,
    DifferentXYDpi(u32, u32),
    NoDpiFound,
    BadlyFormattedExifTag(Seq<char>),
}

impl View for PhotoMediaDataError {
    type V = PhotoMediaDataErrorView;

    open spec fn view(&self) -> PhotoMediaDataErrorView {
        match self {
            PhotoMediaDataError::CouldNotReadPath(path) => PhotoMediaDataErrorView::CouldNotReadPath(path@),
            PhotoMediaDataError::IncorrectDpi(expected, found) => PhotoMediaDataErrorView::IncorrectDpi(*expected, *found),
            PhotoMediaDataError::NotCorrected => PhotoMediaDataErrorView::NotCorrected,
            PhotoMediaDataError::DifferentXYDpi(x, y) => PhotoMediaDataErrorView::DifferentXYDpi(*x, *y),
            PhotoMediaDataError::NoDpiFound => PhotoMediaDataErrorView::NoDpiFound,
            PhotoMediaDataError::BadlyFormattedExifTag(tag_name) => PhotoMediaDataErrorView::BadlyFormattedExifTag(tag_name@),
        }
    }
}

/// The unsigned number that four bytes write, least significant byte first.
pub open spec fn le_u32(bytes: Seq<u8>, at: int) -> nat {
    (bytes[at] + bytes[at + 1] * 0x100 + bytes[at + 2] * 0x1_0000 + bytes[at + 3] * 0x100_0000) as nat
}

/// The resolution that a rational tag value gives: numerator, then denominator, each
/// in four bytes, divided and rounded down. A value of fewer than eight bytes, or with
/// denominator zero, is badly formatted.
pub open spec fn resolution_of_value(value: Option<Seq<u8>>) -> Result<u32, PhotoMediaDataErrorView> {
    match value {
        None => Err(PhotoMediaDataErrorView::NoDpiFound),
        Some(bytes) => if bytes.len() < 8 || le_u32(bytes, 4) == 0 {
            Err(PhotoMediaDataErrorView::BadlyFormattedExifTag("dpi"@))
        } else {
            Ok((le_u32(bytes, 0) / le_u32(bytes, 4)) as u32)
        },
    }
}

/// A byte with ASCII capitals turned into small letters.
pub open spec fn lowered(byte: u8) -> u8 {
    if 0x41 <= byte <= 0x5a {
        (byte + 0x20) as u8
    } else {
        byte
    }
}

/// Whether `word` stands in `text` at offset `at`, capitals and small letters alike.
pub open spec fn found_at(text: Seq<u8>, word: Seq<char>, at: int) -> bool {
    &&& 0 <= at
    &&& at + word.len() <= text.len()
    &&& forall|j: int| 0 <= j < word.len() ==> #[trigger] word[j] == lowered(text[at + j]) as char
}

/// Whether `word`, written in small ASCII letters, occurs somewhere in `text`.
pub open spec fn mentions(text: Seq<u8>, word: Seq<char>) -> bool {
    exists|at: int| found_at(text, word, at)
}

/// Whether an optional tag value mentions `word`; a missing tag mentions nothing.
pub open spec fn tag_mentions(value: Option<Seq<u8>>, word: Seq<char>) -> bool {
    match value {
        Some(text) => mentions(text, word),
        None => false,
    }
}

/// The summary that four tag values give: both resolutions must be present, well
/// formatted and equal; the software tag decides `is_corrected`, the model tag the
/// implied scan type.
pub open spec fn photo_data_of_values(
    x_resolution: Option<Seq<u8>>,
    y_resolution: Option<Seq<u8>>,
    software: Option<Seq<u8>>,
    model: Option<Seq<u8>>,
) -> Result<PhotoMediaData, PhotoMediaDataErrorView> {
    match resolution_of_value(x_resolution) {
        Err(error) => Err(error),
        Ok(horizontal) => match resolution_of_value(y_resolution) {
            Err(error) => Err(error),
            Ok(vertical) => if horizontal != vertical {
                Err(PhotoMediaDataErrorView::DifferentXYDpi(horizontal, vertical))
            } else {
                Ok(
                    PhotoMediaData {
                        dpi: horizontal as u64,
                        is_corrected: tag_mentions(software, "photoshop"@),
                        true_scan_type: if tag_mentions(model, "powerslide"@) {
                            Some(ScanType::Default)
                        } else {
                            None
                        },
                    },
                )
            },
        },
    }
}

/// The view of an optional byte vector.
pub open spec fn value_view(value: Option<Vec<u8>>) -> Option<Seq<u8>> {
    match value {
        Some(bytes) => Some(bytes@),
        None => None,
    }
}

/// little_exif's `Metadata`, the tags of one image, declared so that a container can
/// be handed through the library. Nothing inside it is visible here: what it holds
/// is named by `metadata_tags`.
#[verifier::external_type_specification]
#[verifier::external_body]
pub struct ExMetadata(Metadata);

/// The tags that a metadata container holds: for each tag number in it, the bytes of
/// the first tag with that number, numbers written least significant byte first.
pub uninterp spec fn metadata_tags(metadata: Metadata) -> Map<u16, Seq<u8>>;

/// The value of one tag, if the container holds it.
pub open spec fn tag_of(metadata: Metadata, tag: u16) -> Option<Seq<u8>> {
    if metadata_tags(metadata).contains_key(tag) {
        Some(metadata_tags(metadata)[tag])
    } else {
        None
    }
}

/// Looks a tag up with little_exif's `Metadata::get_tag_by_hex` and takes its bytes with
/// `ExifTag::value_as_u8_vec` in little-endian order. Trusted: the result is what
/// `metadata_tags` names for this container and tag number, and nothing when the
/// container has no such tag.
#[verifier::external_body]
fn tag_value(metadata: &Metadata, tag: u16) -> (value: Option<Vec<u8>>)
    ensures
        value is Some <==> metadata_tags(*metadata).contains_key(tag),
        value is Some ==> value->0@ == metadata_tags(*metadata)[tag],
{
    match metadata.get_tag_by_hex(tag) {
        Some(found) => Some(found.value_as_u8_vec(&Endian::Little)),
        None => None,
    }
}

/// The summary that a container's tags give.
pub open spec fn photo_data_of_metadata(metadata: Metadata) -> Result<PhotoMediaData, PhotoMediaDataErrorView> {
    photo_data_of_values(
        tag_of(metadata, X_RESOLUTION_TAG),
        tag_of(metadata, Y_RESOLUTION_TAG),
        tag_of(metadata, SOFTWARE_TAG),
        tag_of(metadata, MODEL_TAG),
    )
}

/// The summary for the file at `path`, given its container, or nothing where the
/// container could not be read.
pub open spec fn photo_data_of_container(path: Seq<char>, container: Option<Metadata>) -> Result<
    PhotoMediaData,
    PhotoMediaDataErrorView,
> {
    match container {
        Some(metadata) => photo_data_of_metadata(metadata),
        None => Err(PhotoMediaDataErrorView::CouldNotReadPath(path)),
    }
}

/// Reads four bytes, least significant first.
fn read_le_u32(bytes: &Vec<u8>, at: usize) -> (r: u32)
    requires
        at + 4 <= bytes.len(),
    ensures
        r == le_u32(bytes@, at as int),
{
    let b0: u32 = bytes[at] as u32;
    let b1: u32 = bytes[at + 1] as u32;
    let b2: u32 = bytes[at + 2] as u32;
    let b3: u32 = bytes[at + 3] as u32;
    b0 + b1 * 0x100 + b2 * 0x1_0000 + b3 * 0x100_0000
}

/// The resolution in a rational tag value.
pub fn get_dpi(value: &Option<Vec<u8>>) -> (r: Result<u32, PhotoMediaDataError>)
    ensures
        outcome_view(r) == resolution_of_value(value_view(*value)),
{
    match value {
        None => Err(PhotoMediaDataError::NoDpiFound),
        Some(bytes) => {
            if bytes.len() < 8 {
                return Err(PhotoMediaDataError::BadlyFormattedExifTag(owned("dpi")));
            }
            let numerator = read_le_u32(bytes, 0);
            let denominator = read_le_u32(bytes, 4);
            if denominator == 0 {
                return Err(PhotoMediaDataError::BadlyFormattedExifTag(owned("dpi")));
            }
            Ok(numerator / denominator)
        },
    }
}

/// A byte with an ASCII capital turned into its small letter.
fn lower_byte(byte: u8) -> (r: u8)
    ensures
        r == lowered(byte),
{
    if 0x41 <= byte && byte <= 0x5a {
        byte + 0x20
    } else {
        byte
    }
}

/// The characters of a string slice, in order.
fn letters_of(word: &str) -> (letters: Vec<char>)
    ensures
        letters@ == word@,
{
    let n = word.unicode_len();
    let mut letters: Vec<char> = Vec::new();
    let mut i: usize = 0;
    while i < n
        invariant
            n == word@.len(),
            i <= n,
            letters@ == word@.take(i as int),
        decreases n - i,
    {
        letters.push(word.get_char(i));
        assert(word@.take(i + 1) =~= word@.take(i as int).push(word@[i as int]));
        i += 1;
    }
    assert(word@.take(n as int) =~= word@);
    letters
}

/// Whether a tag's text mentions `word`, whatever the case of its ASCII letters.
pub fn text_mentions(text: &Vec<u8>, word: &str) -> (r: bool)
    ensures
        r == mentions(text@, word@),
{
    let letters = letters_of(word);
    let n = text.len();
    let m = letters.len();
    if m > n {
        assert forall|at: int| !found_at(text@, word@, at) by {}
        return false;
    }
    let mut at: usize = 0;
    while at <= n - m
        invariant
            n == text@.len(),
            m == word@.len(),
            m <= n,
            letters@ == word@,
            at <= n - m + 1,
            forall|a: int| 0 <= a < at ==> !found_at(text@, word@, a),
        decreases n - m + 1 - at,
    {
        let mut j: usize = 0;
        while j < m && lower_byte(text[at + j]) as char == letters[j]
            invariant
                n == text@.len(),
                m == word@.len(),
                letters@ == word@,
                at + m <= n,
                j <= m,
                forall|k: int| 0 <= k < j ==> #[trigger] word@[k] == lowered(text@[at + k]) as char,
            decreases m - j,
        {
            j += 1;
        }
        if j == m {
            assert(found_at(text@, word@, at as int));
            return true;
        }
        assert(!found_at(text@, word@, at as int)) by {
            assert(word@[j as int] != lowered(text@[at + j]) as char);
        }
        at += 1;
    }
    assert forall|a: int| !found_at(text@, word@, a) by {}
    false
}

impl PhotoMediaData {
    /// Summarises the values of the four tags that matter.
    pub fn from_tag_values(
        x_resolution: &Option<Vec<u8>>,
        y_resolution: &Option<Vec<u8>>,
        software: &Option<Vec<u8>>,
        model: &Option<Vec<u8>>,
    ) -> (r: Result<PhotoMediaData, PhotoMediaDataError>)
        ensures
            outcome_view(r) == photo_data_of_values(
                value_view(*x_resolution),
                value_view(*y_resolution),
                value_view(*software),
                value_view(*model),
            ),
    {
        let horizontal = match get_dpi(x_resolution) {
            Ok(dpi) => dpi,
            Err(error) => { return Err(error); },
        };
        let vertical = match get_dpi(y_resolution) {
            Ok(dpi) => dpi,
            Err(error) => { return Err(error); },
        };
        if horizontal != vertical {
            return Err(PhotoMediaDataError::DifferentXYDpi(horizontal, vertical));
        }
        let is_corrected = match software {
            Some(text) => text_mentions(text, "photoshop"),
            None => false,
        };
        let from_scanner = match model {
            Some(text) => text_mentions(text, "powerslide"),
            None => false,
        };
        let true_scan_type = if from_scanner { Some(ScanType::Default) } else { None };
        Ok(PhotoMediaData { dpi: horizontal as u64, is_corrected, true_scan_type })
    }

    /// Summarises the tags of a metadata container.
    pub fn from_metadata(metadata: &Metadata) -> (r: Result<PhotoMediaData, PhotoMediaDataError>)
        ensures
            outcome_view(r) == photo_data_of_metadata(*metadata),
    {
        let x_resolution = tag_value(metadata, X_RESOLUTION_TAG);
        let y_resolution = tag_value(metadata, Y_RESOLUTION_TAG);
        let software = tag_value(metadata, SOFTWARE_TAG);
        let model = tag_value(metadata, MODEL_TAG);
        PhotoMediaData::from_tag_values(&x_resolution, &y_resolution, &software, &model)
    }

    /// Summarises the image at `path`, whose container the caller has tried to read:
    /// `None` stands for a container that could not be read.
    pub fn from_path(path: &String, container: &Option<Metadata>) -> (r: Result<PhotoMediaData, PhotoMediaDataError>)
        ensures
            outcome_view(r) == photo_data_of_container(path@, *container),
    {
        match container {
            Some(metadata) => PhotoMediaData::from_metadata(metadata),
            None => Err(PhotoMediaDataError::CouldNotReadPath(path.clone())),
        }
    }
}

} // verus!
