//! Counting the files of a folder by media type and scan type.

use vstd::prelude::*;
use crate::error::{FCError, FCErrorView};
use crate::media_file::{file_views, MediaFile, MediaFileView};
use crate::media_types::{MediaKind, MediaType};
use crate::outcome::{first_failure, outcome_view};
use crate::photo_group_options::{dpi_check, PhotoGroupOptions};
use crate::scan_type::ScanType;
use crate::text::owned;

verus! {

/// One entry per media type; a media type that is not expected, or of which no file
/// was found, has none.
#[derive(Debug, Clone, Copy, PartialEq, Eq, Structural)]
pub struct MediaGroupValues {
    pub slides: Option<PhotoGroupOptions>,
    pub prints: Option<PhotoGroupOptions>,
    pub negatives: Option<PhotoGroupOptions>,
}

impl View for MediaGroupValues {
    type V = MediaGroupValues;

    open spec fn view(&self) -> MediaGroupValues {
        *self
    }
}

/// Why a folder could not be counted, or how its counts differ from the expected ones.
#[derive(Debug)]
pub enum MediaGroupsError {
    /// The media and scan type counted, how many were counted, how many expected.
    IncorrectMediaAndScanTypeCount(String, u64, u64),
    /// A file, named last, whose media type cannot be scanned that way.
    InvalidScanTypeMediaGroupCombo(ScanType, MediaType, String),
    /// The media type that was expected and of which no file was found.
    NoneOfFileTypeFound(String),
    /// The media type of which files were found and none was expected.
    OutOfPlaceMediaType(String),
}

/// A failure of counting, with texts read as sequences of characters.
pub enum MediaGroupsErrorView {
    IncorrectMediaAndScanTypeCount(Seq<char>, u64, u64),
    InvalidScanTypeMediaGroupCombo(ScanType, MediaType, Seq<char>),
    NoneOfFileTypeFound(Seq<char>),
    OutOfPlaceMediaType(Seq<char>),
}

impl View for MediaGroupsError {
    type V = MediaGroupsErrorView;

    open spec fn view(&self) -> MediaGroupsErrorView {
        match self {
            MediaGroupsError::IncorrectMediaAndScanTypeCount(name, counted, expected) => MediaGroupsErrorView::IncorrectMediaAndScanTypeCount(name@, *counted, *expected),
            MediaGroupsError::InvalidScanTypeMediaGroupCombo(scan_type, media_type, file_name) => MediaGroupsErrorView::InvalidScanTypeMediaGroupCombo(*scan_type, *media_type, file_name@),
            MediaGroupsError::NoneOfFileTypeFound(name) => MediaGroupsErrorView::NoneOfFileTypeFound(name@),
            MediaGroupsError::OutOfPlaceMediaType(name) => MediaGroupsErrorView::OutOfPlaceMediaType(name@),
        }
    }
}

/// The word for a media kind in a count.
pub open spec fn kind_name(kind: MediaKind) -> Seq<char> {
    match kind {
        MediaKind::Slides => "slides"@,
        MediaKind::Prints => "prints"@,
        MediaKind::Negatives => "negatives"@,
    }
}

/// The words for one count of a media kind.
pub open spec fn count_name(kind: MediaKind, scan_type: ScanType) -> Seq<char> {
    match (kind, scan_type) {
        (MediaKind::Slides, ScanType::Default) => "scanner slides"@,
        (MediaKind::Slides, ScanType::HandScan) => "handscan slides"@,
        (MediaKind::Slides, ScanType::OversizedHandScan) => "oversized slides"@,
        (MediaKind::Prints, ScanType::Default) => "scanner prints"@,
        (MediaKind::Prints, ScanType::HandScan) => "handscan prints"@,
        (MediaKind::Prints, ScanType::OversizedHandScan) => "oversized prints"@,
        (MediaKind::Negatives, ScanType::Default) => "scanner negatives"@,
        (MediaKind::Negatives, ScanType::HandScan) => "handscan negatives"@,
        (MediaKind::Negatives, ScanType::OversizedHandScan) => "oversized negatives"@,
    }
}

/// One count against its expectation.
pub open spec fn count_agrees(counted: u64, expected: u64, name: Seq<char>) -> Result<(), MediaGroupsErrorView> {
    if counted == expected {
        Ok(())
    } else {
        Err(MediaGroupsErrorView::IncorrectMediaAndScanTypeCount(name, counted, expected))
    }
}

/// The counts of one media kind against what was expected of it. A kind must be
/// counted exactly where it is expected; then its scanner and hand-scan counts must
/// be the expected ones, and for prints the oversized count too.
pub open spec fn group_agrees(
    counted: Option<PhotoGroupOptions>,
    expected: Option<PhotoGroupOptions>,
    kind: MediaKind,
) -> Result<(), MediaGroupsErrorView> {
    match (counted, expected) {
        (None, None) => Ok(()),
        (None, Some(_)) => Err(MediaGroupsErrorView::NoneOfFileTypeFound(kind_name(kind))),
        (Some(_), None) => Err(MediaGroupsErrorView::OutOfPlaceMediaType(kind_name(kind))),
        (Some(found), Some(wanted)) => first_failure(
            count_agrees(found.scanner, wanted.scanner, count_name(kind, ScanType::Default)),
            first_failure(
                count_agrees(found.hs, wanted.hs, count_name(kind, ScanType::HandScan)),
                if kind is Prints {
                    count_agrees(found.oshs, wanted.oshs, count_name(kind, ScanType::OversizedHandScan))
                } else {
                    Ok(())
                },
            ),
        ),
    }
}

/// What was counted against what was expected: slides first, then prints, then
/// negatives; the first disagreement is the one told.
pub open spec fn counts_agree(counted: MediaGroupValues, expected: MediaGroupValues) -> Result<
    (),
    MediaGroupsErrorView,
> {
    first_failure(
        group_agrees(counted.slides, expected.slides, MediaKind::Slides),
        first_failure(
            group_agrees(counted.prints, expected.prints, MediaKind::Prints),
            group_agrees(counted.negatives, expected.negatives, MediaKind::Negatives),
        ),
    )
}

/// How many of `files` are of `kind` and scanned as `scan_type`.
pub open spec fn count_files(files: Seq<MediaFileView>, kind: MediaKind, scan_type: ScanType) -> nat
    decreases files.len(),
{
    if files.len() == 0 {
        0
    } else {
        count_files(files.drop_last(), kind, scan_type) + if files.last().media_type.kind() == kind
            && files.last().scan_type == scan_type {
            1nat
        } else {
            0nat
        }
    }
}

/// How many of `files` are of `kind`.
pub open spec fn count_kind(files: Seq<MediaFileView>, kind: MediaKind) -> nat
    decreases files.len(),
{
    if files.len() == 0 {
        0
    } else {
        count_kind(files.drop_last(), kind) + if files.last().media_type.kind() == kind {
            1nat
        } else {
            0nat
        }
    }
}

/// Only prints can be oversized hand scans.
pub open spec fn invalid_combo(file: MediaFileView) -> bool {
    file.scan_type is OversizedHandScan && !(file.media_type is Prints)
}

/// The position of the first file whose media type cannot be scanned as the file says.
pub open spec fn first_invalid_combo(files: Seq<MediaFileView>) -> Option<int>
    decreases files.len(),
{
    if files.len() == 0 {
        None
    } else {
        match first_invalid_combo(files.drop_last()) {
            Some(position) => Some(position),
            None => if invalid_combo(files.last()) {
                Some(files.len() - 1)
            } else {
                None
            },
        }
    }
}

/// The entry counted for one media kind: none without a file of that kind, else the
/// number of its files by scan type, everything else left as in a new entry.
pub open spec fn counted_group(files: Seq<MediaFileView>, kind: MediaKind) -> Option<PhotoGroupOptions> {
    if count_kind(files, kind) == 0 {
        None
    } else {
        Some(
            PhotoGroupOptions {
                scanner: count_files(files, kind, ScanType::Default) as u64,
                hs: count_files(files, kind, ScanType::HandScan) as u64,
                oshs: count_files(files, kind, ScanType::OversizedHandScan) as u64,
                ..PhotoGroupOptions::blank()
            },
        )
    }
}

/// What counting a folder gives: the first file with an impossible pair of media and
/// scan type fails it; otherwise one entry per media kind that has a file.
pub open spec fn media_groups_of(files: Seq<MediaFileView>) -> Result<MediaGroupValues, MediaGroupsErrorView> {
    match first_invalid_combo(files) {
        Some(position) => Err(
            MediaGroupsErrorView::InvalidScanTypeMediaGroupCombo(
                files[position].scan_type,
                files[position].media_type,
                files[position].raw_file_name,
            ),
        ),
        None => Ok(
            MediaGroupValues {
                slides: counted_group(files, MediaKind::Slides),
                prints: counted_group(files, MediaKind::Prints),
                negatives: counted_group(files, MediaKind::Negatives),
            },
        ),
    }
}

/// The entry of `groups` for a media kind.
pub open spec fn options_for(groups: MediaGroupValues, kind: MediaKind) -> Option<PhotoGroupOptions> {
    match kind {
        MediaKind::Slides => groups.slides,
        MediaKind::Prints => groups.prints,
        MediaKind::Negatives => groups.negatives,
    }
}

/// A file's tags against what is expected of its media type: the type must be
/// expected at all, the resolution must be the one asked for where one is, and the
/// file must be corrected where that is asked for. A corrected file passes where no
/// correction is asked for.
pub open spec fn metadata_check(expected: MediaGroupValues, file: MediaFileView) -> Result<(), FCErrorView> {
    match options_for(expected, file.media_type.kind()) {
        None => Err(FCErrorView::OutOfPlaceMediaType(file.media_type)),
        Some(options) => first_failure(
            dpi_check(options, file),
            if options.is_corrected && !file.media_type.data().is_corrected {
                Err(FCErrorView::NotCorrected(file))
            } else {
                Ok(())
            },
        ),
    }
}

/// Counts never exceed the number of files.
pub proof fn lemma_count_files_bounded(files: Seq<MediaFileView>, kind: MediaKind, scan_type: ScanType)
    ensures
        count_files(files, kind, scan_type) <= count_kind(files, kind) <= files.len(),
    decreases files.len(),
{
    if files.len() > 0 {
        lemma_count_files_bounded(files.drop_last(), kind, scan_type);
    }
}

/// Where no file has an impossible pair, only prints are counted as oversized.
pub proof fn lemma_no_oversized(files: Seq<MediaFileView>, kind: MediaKind)
    requires
        first_invalid_combo(files) is None,
        !(kind is Prints),
    ensures
        count_files(files, kind, ScanType::OversizedHandScan) == 0,
    decreases files.len(),
{
    if files.len() > 0 {
        lemma_no_oversized(files.drop_last(), kind);
    }
}

/// The word for a media kind in a count.
fn name_of_kind(kind: MediaKind) -> (r: String)
    ensures
        r@ == kind_name(kind),
{
    match kind {
        MediaKind::Slides => owned("slides"),
        MediaKind::Prints => owned("prints"),
        MediaKind::Negatives => owned("negatives"),
    }
}

/// The words for one count of a media kind.
fn name_of_count(kind: MediaKind, scan_type: ScanType) -> (r: String)
    ensures
        r@ == count_name(kind, scan_type),
{
    match (kind, scan_type) {
        (MediaKind::Slides, ScanType::Default) => owned("scanner slides"),
        (MediaKind::Slides, ScanType::HandScan) => owned("handscan slides"),
        (MediaKind::Slides, ScanType::OversizedHandScan) => owned("oversized slides"),
        (MediaKind::Prints, ScanType::Default) => owned("scanner prints"),
        (MediaKind::Prints, ScanType::HandScan) => owned("handscan prints"),
        (MediaKind::Prints, ScanType::OversizedHandScan) => owned("oversized prints"),
        (MediaKind::Negatives, ScanType::Default) => owned("scanner negatives"),
        (MediaKind::Negatives, ScanType::HandScan) => owned("handscan negatives"),
        (MediaKind::Negatives, ScanType::OversizedHandScan) => owned("oversized negatives"),
    }
}

/// Compares one count with its expectation.
fn equals_or_err(counted: u64, expected: u64, kind: MediaKind, scan_type: ScanType) -> (r: Result<
    (),
    MediaGroupsError,
>)
    ensures
        outcome_view(r) == count_agrees(counted, expected, count_name(kind, scan_type)),
{
    if counted == expected {
        Ok(())
    } else {
        Err(MediaGroupsError::IncorrectMediaAndScanTypeCount(name_of_count(kind, scan_type), counted, expected))
    }
}

/// Compares what was counted of one media kind with what was expected of it.
fn group_counts_equal(
    counted: &Option<PhotoGroupOptions>,
    expected: &Option<PhotoGroupOptions>,
    kind: MediaKind,
) -> (r: Result<(), MediaGroupsError>)
    ensures
        outcome_view(r) == group_agrees(*counted, *expected, kind),
{
    match (counted, expected) {
        (None, None) => Ok(()),
        (None, Some(_)) => Err(MediaGroupsError::NoneOfFileTypeFound(name_of_kind(kind))),
        (Some(_), None) => Err(MediaGroupsError::OutOfPlaceMediaType(name_of_kind(kind))),
        (Some(found), Some(wanted)) => {
            match equals_or_err(found.scanner, wanted.scanner, kind, ScanType::Default) {
                Err(error) => { return Err(error); },
                Ok(_) => {},
            }
            match equals_or_err(found.hs, wanted.hs, kind, ScanType::HandScan) {
                Err(error) => { return Err(error); },
                Ok(_) => {},
            }
            match kind {
                MediaKind::Prints => equals_or_err(found.oshs, wanted.oshs, kind, ScanType::OversizedHandScan),
                _ => Ok(()),
            }
        },
    }
}

impl MediaGroupValues {
    /// Compares these counts with what was expected.
    pub fn counts_equal(&self, expected_media: MediaGroupValues) -> (r: Result<(), MediaGroupsError>)
        ensures
            outcome_view(r) == counts_agree(*self, expected_media),
    {
        match group_counts_equal(&self.slides, &expected_media.slides, MediaKind::Slides) {
            Err(error) => { return Err(error); },
            Ok(_) => {},
        }
        match group_counts_equal(&self.prints, &expected_media.prints, MediaKind::Prints) {
            Err(error) => { return Err(error); },
            Ok(_) => {},
        }
        group_counts_equal(&self.negatives, &expected_media.negatives, MediaKind::Negatives)
    }

    /// Counts the files of a folder by media type and scan type.
    pub fn from_media_files(media_files: &Vec<MediaFile>) -> (r: Result<MediaGroupValues, MediaGroupsError>)
        ensures
            outcome_view(r) == media_groups_of(file_views(media_files@)),
    {
        let mut slides = PhotoGroupOptions::new();
        let mut prints = PhotoGroupOptions::new();
        let mut negatives = PhotoGroupOptions::new();
        let mut include_slides = false;
        let mut include_prints = false;
        let mut include_negatives = false;
        let ghost all = file_views(media_files@);

        let mut i: usize = 0;
        while i < media_files.len()
            invariant
                i <= media_files.len(),
                all == file_views(media_files@),
                first_invalid_combo(all.take(i as int)) is None,
                include_slides == (count_kind(all.take(i as int), MediaKind::Slides) > 0),
                include_prints == (count_kind(all.take(i as int), MediaKind::Prints) > 0),
                include_negatives == (count_kind(all.take(i as int), MediaKind::Negatives) > 0),
                slides == (PhotoGroupOptions {
                    scanner: count_files(all.take(i as int), MediaKind::Slides, ScanType::Default) as u64,
                    hs: count_files(all.take(i as int), MediaKind::Slides, ScanType::HandScan) as u64,
                    ..PhotoGroupOptions::blank()
                }),
                prints == (PhotoGroupOptions {
                    scanner: count_files(all.take(i as int), MediaKind::Prints, ScanType::Default) as u64,
                    hs: count_files(all.take(i as int), MediaKind::Prints, ScanType::HandScan) as u64,
                    oshs: count_files(all.take(i as int), MediaKind::Prints, ScanType::OversizedHandScan) as u64,
                    ..PhotoGroupOptions::blank()
                }),
                negatives == (PhotoGroupOptions {
                    scanner: count_files(all.take(i as int), MediaKind::Negatives, ScanType::Default) as u64,
                    hs: count_files(all.take(i as int), MediaKind::Negatives, ScanType::HandScan) as u64,
                    ..PhotoGroupOptions::blank()
                }),
            decreases media_files.len() - i,
        {
            let media_file = &media_files[i];
            proof {
                assert(all.take(i + 1).drop_last() =~= all.take(i as int));
                assert(all.take(i + 1).last() == media_file@);
                lemma_count_files_bounded(all.take(i as int), MediaKind::Slides, ScanType::Default);
                lemma_count_files_bounded(all.take(i as int), MediaKind::Slides, ScanType::HandScan);
                lemma_count_files_bounded(all.take(i as int), MediaKind::Prints, ScanType::Default);
                lemma_count_files_bounded(all.take(i as int), MediaKind::Prints, ScanType::HandScan);
                lemma_count_files_bounded(all.take(i as int), MediaKind::Prints, ScanType::OversizedHandScan);
                lemma_count_files_bounded(all.take(i as int), MediaKind::Negatives, ScanType::Default);
                lemma_count_files_bounded(all.take(i as int), MediaKind::Negatives, ScanType::HandScan);
            }
            match media_file.media_type {
                MediaType::Slides(_) => {
                    include_slides = true;
                    match media_file.scan_type {
                        ScanType::Default => slides.scanner += 1,
                        ScanType::HandScan => slides.hs += 1,
                        _ => {
                            proof {
                                lemma_first_invalid_combo_found(all, i as int);
                            }
                            return Err(
                                MediaGroupsError::InvalidScanTypeMediaGroupCombo(
                                    media_file.scan_type,
                                    media_file.media_type,
                                    media_file.raw_file_name.clone(),
                                ),
                            );
                        },
                    }
                },
                MediaType::Prints(_) => {
                    include_prints = true;
                    match media_file.scan_type {
                        ScanType::Default => prints.scanner += 1,
                        ScanType::HandScan => prints.hs += 1,
                        ScanType::OversizedHandScan => prints.oshs += 1,
                    }
                },
                MediaType::Negatives(_) => {
                    include_negatives = true;
                    match media_file.scan_type {
                        ScanType::Default => negatives.scanner += 1,
                        ScanType::HandScan => negatives.hs += 1,
                        _ => {
                            proof {
                                lemma_first_invalid_combo_found(all, i as int);
                            }
                            return Err(
                                MediaGroupsError::InvalidScanTypeMediaGroupCombo(
                                    media_file.scan_type,
                                    media_file.media_type,
                                    media_file.raw_file_name.clone(),
                                ),
                            );
                        },
                    }
                },
            }
            i += 1;
        }
        proof {
            assert(all.take(i as int) =~= all);
            lemma_no_oversized(all, MediaKind::Slides);
            lemma_no_oversized(all, MediaKind::Negatives);
        }
        let slides = if include_slides { Some(slides) } else { None };
        let prints = if include_prints { Some(prints) } else { None };
        let negatives = if include_negatives { Some(negatives) } else { None };

        Ok(MediaGroupValues { slides, prints, negatives })
    }

    /// Checks a file's tags against what these expectations say of its media type.
    pub fn check_file_metadata(&self, media_file: &MediaFile) -> (r: Result<(), FCError>)
        ensures
            outcome_view(r) == metadata_check(*self, media_file@),
    {
        let expected = match media_file.media_type {
            MediaType::Slides(_) => self.slides,
            MediaType::Prints(_) => self.prints,
            MediaType::Negatives(_) => self.negatives,
        };
        match expected {
            None => Err(FCError::OutOfPlaceMediaType(media_file.media_type)),
            Some(options) => {
                match options.verify_dpi(media_file) {
                    Err(error) => { return Err(error); },
                    Ok(_) => {},
                }
                if options.is_corrected && !media_file.media_type.photo_data().is_corrected {
                    Err(FCError::NotCorrected(media_file.clone()))
                } else {
                    Ok(())
                }
            },
        }
    }
}

/// A file with an impossible pair, after files that have none, is the first such file.
pub proof fn lemma_first_invalid_combo_found(files: Seq<MediaFileView>, position: int)
    requires
        0 <= position < files.len(),
        first_invalid_combo(files.take(position)) is None,
        invalid_combo(files[position]),
    ensures
        first_invalid_combo(files) == Some(position),
    decreases files.len(),
{
    if position == files.len() - 1 {
        assert(files.drop_last() =~= files.take(position));
    } else {
        assert(files.drop_last().take(position) =~= files.take(position));
        lemma_first_invalid_combo_found(files.drop_last(), position);
    }
}

/// Whether the counts of one media kind are the expected ones: the kind is counted
/// exactly where it is expected, with the expected scanner and hand-scan counts and,
/// for prints, the expected oversized count.
pub open spec fn group_matches(
    counted: Option<PhotoGroupOptions>,
    expected: Option<PhotoGroupOptions>,
    kind: MediaKind,
) -> bool {
    match (counted, expected) {
        (None, None) => true,
        (Some(found), Some(wanted)) => found.scanner == wanted.scanner && found.hs == wanted.hs && (kind
            is Prints ==> found.oshs == wanted.oshs),
        _ => false,
    }
}

/// The counts agree exactly where every media kind matches its expectation: a kind
/// that is expected and was not found fails, a kind that was found and is not
/// expected fails, and so does any count that differs.
pub proof fn lemma_counts_agree_when_all_match(counted: MediaGroupValues, expected: MediaGroupValues)
    ensures
        counts_agree(counted, expected) is Ok <==> group_matches(counted.slides, expected.slides, MediaKind::Slides)
            && group_matches(counted.prints, expected.prints, MediaKind::Prints) && group_matches(
            counted.negatives,
            expected.negatives,
            MediaKind::Negatives,
        ),
{
}

/// A count that differs from its expectation is told with both values: the counted
/// one, then the expected one.
pub proof fn lemma_count_failure_tells_both(counted: u64, expected: u64, name: Seq<char>)
    requires
        counted != expected,
    ensures
        count_agrees(counted, expected, name) == Err::<(), MediaGroupsErrorView>(
            MediaGroupsErrorView::IncorrectMediaAndScanTypeCount(name, counted, expected),
        ),
{
}

} // verus!
