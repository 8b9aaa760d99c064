//! What the operator expects of a folder, and the check of a folder against it.

use std::collections::HashMap;
use vstd::prelude::*;
use crate::error::{FCError, FCErrorView};
use crate::file_extension_type::FileExtensionType;
use crate::media_file::{file_views, MediaFile, MediaFileView};
use crate::media_folder::{MediaFolder, MediaFolderView};
use crate::media_groups::{counts_agree, metadata_check, MediaGroupValues};
use crate::outcome::{first_failure, outcome_view};
use crate::text::{owned, same_text};

verus! {

broadcast use vstd::std_specs::hash::group_hash_axioms;

/// The operator's expectation of one folder.
#[derive(Debug)]
pub struct FinalCheckRequest {
    pub first_name: String,
    pub last_name: String,
    pub custom_group_name: Option<String>,
    pub group_num: Option<u64>,
    pub group_char: Option<char>,
    /// How many digits write the group number; at most 6 in a valid request.
    pub group_num_precision: u64,
    /// How many digits write every index number.
    pub index_num_precision: u64,
    /// One entry per media type that the folder is to hold.
    pub media_group_values: MediaGroupValues,
}

/// A request, with texts read as sequences of characters.
pub struct FinalCheckRequestView {
    pub first_name: Seq<char>,
    pub last_name: Seq<char>,
    pub custom_group_name: Option<Seq<char>>,
    pub group_num: Option<u64>,
    pub group_char: Option<char>,
    pub group_num_precision: u64,
    pub index_num_precision: u64,
    pub media_group_values: MediaGroupValues,
}

impl View for FinalCheckRequest {
    type V = FinalCheckRequestView;

    open spec fn view(&self) -> FinalCheckRequestView {
        FinalCheckRequestView {
            first_name: self.first_name@,
            last_name: self.last_name@,
            custom_group_name: match self.custom_group_name {
                Some(name) => Some(name@),
                None => None,
            },
            group_num: self.group_num,
            group_char: self.group_char,
            group_num_precision: self.group_num_precision,
            index_num_precision: self.index_num_precision,
            media_group_values: self.media_group_values,
        }
    }
}

/// The group-number precision that a request leaves out.
pub fn default_2() -> (r: u64)
    ensures
        r == 2,
{
    2
}

/// What is told of a request that names no first name.
pub open spec fn no_first_name() -> Seq<char> {
    "invalid first name specified"@
}

/// The first check of a folder: what was counted of each media type against what the
/// request expects of it.
pub open spec fn media_check(request: FinalCheckRequestView, counted: MediaGroupValues) -> Result<(), FCErrorView> {
    match counts_agree(counted, request.media_group_values) {
        Err(error) => Err(FCErrorView::IncorrectMediaCount(error)),
        Ok(_) => Ok(()),
    }
}

/// A file must have been read to its extension.
pub open spec fn extension_check(file: MediaFileView) -> Result<(), FCErrorView> {
    if file.file_extension is Unset {
        Err(FCErrorView::IncompatibleFileExtension(file.media_type, file.file_extension, file))
    } else {
        Ok(())
    }
}

/// A file must carry the client's last name and the first letter of the client's
/// first name.
pub open spec fn client_check(request: FinalCheckRequestView, file: MediaFileView) -> Result<(), FCErrorView> {
    if file.last_name != request.last_name {
        Err(FCErrorView::IncorrectLastName(request.last_name, file.last_name, file))
    } else if request.first_name.len() == 0 {
        Err(FCErrorView::InvalidRequest(no_first_name()))
    } else if file.first_name_initial != request.first_name[0] {
        Err(FCErrorView::IncorrectFirstInitial(request.first_name[0], file.first_name_initial, file))
    } else {
        Ok(())
    }
}

/// Where the request names a group number, a file must have that number, written
/// with as many digits as the request says.
pub open spec fn group_number_check(request: FinalCheckRequestView, file: MediaFileView) -> Result<
    (),
    FCErrorView,
> {
    match request.group_num {
        None => Ok(()),
        Some(expected) => match file.group_number {
            None => Err(FCErrorView::MissingGroupNumber(expected, file)),
            Some(got) => if got as u64 != expected {
                Err(FCErrorView::IncorrectGroupNumber(expected, got as u64, file))
            } else if request.group_num_precision != file.group_number_precision->0 {
                Err(
                    FCErrorView::IncorrectGroupNumberPrecision(
                        request.group_num_precision,
                        file.group_number_precision->0 as u64,
                        file,
                    ),
                )
            } else {
                Ok(())
            },
        },
    }
}

/// Where the request names a group character, a file must have that character.
pub open spec fn group_char_check(request: FinalCheckRequestView, file: MediaFileView) -> Result<(), FCErrorView> {
    match request.group_char {
        None => Ok(()),
        Some(expected) => match file.group_character {
            None => Err(FCErrorView::MissingGroupChar(expected, file)),
            Some(got) => if got != expected {
                Err(FCErrorView::IncorrectGroupChar(expected, got, file))
            } else {
                Ok(())
            },
        },
    }
}

/// The position of the first of the files before `upto` that has `index_number`.
pub open spec fn earlier_with_index(files: Seq<MediaFileView>, upto: int, index_number: u32) -> Option<int>
    decreases upto,
{
    if upto <= 0 {
        None
    } else {
        match earlier_with_index(files, upto - 1, index_number) {
            Some(position) => Some(position),
            None => if files[upto - 1].index_number == index_number {
                Some(upto - 1)
            } else {
                None
            },
        }
    }
}

/// No file before this one may have its index number.
pub open spec fn repeat_check(files: Seq<MediaFileView>, position: int) -> Result<(), FCErrorView> {
    match earlier_with_index(files, position, files[position].index_number) {
        Some(first) => Err(
            FCErrorView::RepeatedIndexNumber(
                files[position].index_number,
                files[position].raw_file_name,
                files[first].raw_file_name,
            ),
        ),
        None => Ok(()),
    }
}

/// A file's index number must be written with as many digits as the request says.
pub open spec fn index_precision_check(request: FinalCheckRequestView, file: MediaFileView) -> Result<
    (),
    FCErrorView,
> {
    if file.index_number_precision != request.index_num_precision {
        Err(
            FCErrorView::IncorrectIndexNumberPrecision(
                request.index_num_precision,
                file.index_number_precision as u64,
                file,
            ),
        )
    } else {
        Ok(())
    }
}

/// Everything that is checked of one file, in the order in which it is checked.
pub open spec fn file_check(request: FinalCheckRequestView, files: Seq<MediaFileView>, position: int) -> Result<
    (),
    FCErrorView,
> {
    let file = files[position];
    first_failure(
        metadata_check(request.media_group_values, file),
        first_failure(
            extension_check(file),
            first_failure(
                client_check(request, file),
                first_failure(
                    group_number_check(request, file),
                    first_failure(
                        group_char_check(request, file),
                        first_failure(repeat_check(files, position), index_precision_check(request, file)),
                    ),
                ),
            ),
        ),
    )
}

/// The check of the files before `upto`, in order: the first file that fails is the
/// one told.
pub open spec fn files_check(request: FinalCheckRequestView, files: Seq<MediaFileView>, upto: int) -> Result<
    (),
    FCErrorView,
>
    decreases upto,
{
    if upto <= 0 {
        Ok(())
    } else {
        first_failure(files_check(request, files, upto - 1), file_check(request, files, upto - 1))
    }
}

/// Whether some file has `index_number`.
pub open spec fn has_index(files: Seq<MediaFileView>, index_number: u32) -> bool {
    earlier_with_index(files, files.len() as int, index_number) is Some
}

/// The least number from `from` up to the number of files that no file has as its
/// index number.
pub open spec fn first_missing(files: Seq<MediaFileView>, from: nat) -> Option<u32>
    decreases files.len() + 1 - from,
{
    if from > files.len() || from > u32::MAX {
        None
    } else if !has_index(files, from as u32) {
        Some(from as u32)
    } else {
        first_missing(files, from + 1)
    }
}

/// The index numbers of a folder must be 1, 2, 3 and so on, as many as there are
/// files: the first number that is missing is the one told.
pub open spec fn numbering_check(files: Seq<MediaFileView>) -> Result<(), FCErrorView> {
    match first_missing(files, 1) {
        Some(index_number) => Err(FCErrorView::FolderSkippedIndexNumber(index_number)),
        None => Ok(()),
    }
}

/// The verdict on a folder: first the counts, then the files one by one in their
/// order, then the numbering of the whole folder.
pub open spec fn folder_check(request: FinalCheckRequestView, folder: MediaFolderView) -> Result<(), FCErrorView> {
    first_failure(
        media_check(request, folder.group_options),
        first_failure(
            files_check(request, folder.files, folder.files.len() as int),
            numbering_check(folder.files),
        ),
    )
}

/// Checks that a file was read to its extension.
pub fn check_extension(media_file: &MediaFile) -> (r: Result<(), FCError>)
    ensures
        outcome_view(r) == extension_check(media_file@),
{
    match media_file.file_extension {
        FileExtensionType::Tiff | FileExtensionType::Jpeg => Ok(()),
        FileExtensionType::Unset => Err(
            FCError::IncompatibleFileExtension(media_file.media_type, media_file.file_extension, media_file.clone()),
        ),
    }
}

/// Checks a file's client against the request's.
pub fn check_client_name(request: &FinalCheckRequest, media_file: &MediaFile) -> (r: Result<(), FCError>)
    ensures
        outcome_view(r) == client_check(request@, media_file@),
{
    if !same_text(media_file.last_name.as_str(), request.last_name.as_str()) {
        return Err(
            FCError::IncorrectLastName(request.last_name.clone(), media_file.last_name.clone(), media_file.clone()),
        );
    }
    if request.first_name.as_str().unicode_len() == 0 {
        return Err(FCError::InvalidRequest(owned("invalid first name specified")));
    }
    let expected_first_initial = request.first_name.as_str().get_char(0);
    if media_file.first_name_initial != expected_first_initial {
        return Err(
            FCError::IncorrectFirstInitial(expected_first_initial, media_file.first_name_initial, media_file.clone()),
        );
    }
    Ok(())
}

/// Checks a file's group number against the request's.
pub fn check_group_number(request: &FinalCheckRequest, media_file: &MediaFile) -> (r: Result<(), FCError>)
    requires
        media_file.wf(),
    ensures
        outcome_view(r) == group_number_check(request@, media_file@),
{
    match request.group_num {
        None => Ok(()),
        Some(expected) => match media_file.group_number {
            None => Err(FCError::MissingGroupNumber(expected, media_file.clone())),
            Some(got) => {
                let got = got as u64;
                if got != expected {
                    return Err(FCError::IncorrectGroupNumber(expected, got, media_file.clone()));
                }
                let media_file_group_precision = media_file.group_number_precision.unwrap() as u64;
                if request.group_num_precision != media_file_group_precision {
                    return Err(
                        FCError::IncorrectGroupNumberPrecision(
                            request.group_num_precision,
                            media_file_group_precision,
                            media_file.clone(),
                        ),
                    );
                }
                Ok(())
            },
        },
    }
}

/// Checks a file's group character against the request's.
pub fn check_group_char(request: &FinalCheckRequest, media_file: &MediaFile) -> (r: Result<(), FCError>)
    ensures
        outcome_view(r) == group_char_check(request@, media_file@),
{
    match request.group_char {
        None => Ok(()),
        Some(expected) => match media_file.group_character {
            None => Err(FCError::MissingGroupChar(expected, media_file.clone())),
            Some(got) => {
                if got != expected {
                    Err(FCError::IncorrectGroupChar(expected, got, media_file.clone()))
                } else {
                    Ok(())
                }
            },
        },
    }
}

/// Checks how many digits write a file's index number.
pub fn check_index_number(request: &FinalCheckRequest, media_file: &MediaFile) -> (r: Result<(), FCError>)
    ensures
        outcome_view(r) == index_precision_check(request@, media_file@),
{
    let media_file_index_num_precision = media_file.index_number_precision as u64;
    if media_file_index_num_precision != request.index_num_precision {
        Err(
            FCError::IncorrectIndexNumberPrecision(
                request.index_num_precision,
                media_file_index_num_precision,
                media_file.clone(),
            ),
        )
    } else {
        Ok(())
    }
}

/// Whether `seen` holds, for each index number that a file before `upto` has, the
/// position of the first such file, and nothing else.
pub open spec fn records_first_positions(seen: Map<u32, usize>, files: Seq<MediaFileView>, upto: int) -> bool {
    forall|k: u32|
        #![trigger seen.contains_key(k)]
        #![trigger earlier_with_index(files, upto, k)]
        match earlier_with_index(files, upto, k) {
            Some(position) => seen.contains_key(k) && seen[k] == position,
            None => !seen.contains_key(k),
        }
}

/// The first file with an index number stands before `upto` and has that number.
pub proof fn lemma_earlier_with_index(files: Seq<MediaFileView>, upto: int, index_number: u32)
    requires
        upto <= files.len(),
    ensures
        match earlier_with_index(files, upto, index_number) {
            Some(position) => 0 <= position < upto && files[position].index_number == index_number,
            None => forall|j: int| 0 <= j < upto ==> (#[trigger] files[j]).index_number != index_number,
        },
    decreases upto,
{
    if upto > 0 {
        lemma_earlier_with_index(files, upto - 1, index_number);
    }
}

/// The first file that fails decides the check of all files.
pub proof fn lemma_first_failing_file(
    request: FinalCheckRequestView,
    files: Seq<MediaFileView>,
    position: int,
    upto: int,
)
    requires
        0 <= position < upto,
        files_check(request, files, position) is Ok,
        file_check(request, files, position) is Err,
    ensures
        files_check(request, files, upto) == file_check(request, files, position),
    decreases upto,
{
    if upto > position + 1 {
        lemma_first_failing_file(request, files, position, upto - 1);
    }
}

/// The number that a folder is told to have skipped is the least one, from `from`
/// on, that no file has; where none is told, every number from `from` up to the
/// number of files is some file's index number.
pub proof fn lemma_first_missing_is_least(files: Seq<MediaFileView>, from: nat)
    ensures
        match first_missing(files, from) {
            Some(missing) => from <= missing <= files.len() && !has_index(files, missing) && forall|k: u32|
                from <= k < missing ==> has_index(files, k),
            None => forall|k: u32| from <= k <= files.len() ==> has_index(files, k),
        },
    decreases files.len() + 1 - from,
{
    if from <= files.len() && from <= u32::MAX && has_index(files, from as u32) {
        lemma_first_missing_is_least(files, from + 1);
    }
}

/// Files that all pass have index numbers that differ from each other.
pub proof fn lemma_checked_files_differ_in_index(
    request: FinalCheckRequestView,
    files: Seq<MediaFileView>,
    upto: int,
    first: int,
    second: int,
)
    requires
        0 <= first < second < upto <= files.len(),
        files_check(request, files, upto) is Ok,
    ensures
        files[first].index_number != files[second].index_number,
    decreases upto,
{
    if second < upto - 1 {
        lemma_checked_files_differ_in_index(request, files, upto - 1, first, second);
    } else {
        lemma_earlier_with_index(files, second, files[second].index_number);
    }
}

/// In a folder that passes, every number from 1 up to the number of files is the
/// index number of some file, and no two files share an index number.
pub proof fn lemma_passing_folder_is_numbered_from_one(request: FinalCheckRequestView, folder: MediaFolderView)
    requires
        folder_check(request, folder) is Ok,
    ensures
        forall|k: u32| 1 <= k <= folder.files.len() ==> has_index(folder.files, k),
        forall|i: int, j: int|
            0 <= i < j < folder.files.len() ==> (#[trigger] folder.files[i]).index_number != (
            #[trigger] folder.files[j]).index_number,
{
    lemma_first_missing_is_least(folder.files, 1);
    assert forall|i: int, j: int| 0 <= i < j < folder.files.len() implies (#[trigger] folder.files[i]).index_number
        != (#[trigger] folder.files[j]).index_number by {
        lemma_checked_files_differ_in_index(request, folder.files, folder.files.len() as int, i, j);
    }
}

/// Checking an unchanged folder against the same request a second time ends as the
/// first time did: in success both times, or in the same first violation.
pub proof fn lemma_verdict_is_repeatable(
    request: FinalCheckRequest,
    media_folder: MediaFolder,
    first: Result<(), FCError>,
    second: Result<(), FCError>,
)
    requires
        outcome_view(first) == folder_check(request@, media_folder@),
        outcome_view(second) == folder_check(request@, media_folder@),
    ensures
        outcome_view(first) == outcome_view(second),
        first is Ok <==> second is Ok,
{
}

impl FinalCheckRequest {
    /// Whether what was counted in a folder is what this request expects.
    pub fn is_satisfied_by_media(&self, counted_media: MediaGroupValues) -> (r: Result<(), FCError>)
        ensures
            outcome_view(r) == media_check(self@, counted_media),
    {
        match counted_media.counts_equal(self.media_group_values) {
            Err(error) => Err(FCError::IncorrectMediaCount(error)),
            Ok(_) => Ok(()),
        }
    }

    /// Checks the file at `position` against this request; `seen_index_numbers` holds
    /// the index numbers of the files before it and takes this file's in.
    fn check_media_file(
        &self,
        files: &Vec<MediaFile>,
        position: usize,
        seen_index_numbers: &mut HashMap<u32, usize>,
    ) -> (r: Result<(), FCError>)
        requires
            position < files.len(),
            files[position as int].wf(),
            records_first_positions(old(seen_index_numbers)@, file_views(files@), position as int),
        ensures
            outcome_view(r) == file_check(self@, file_views(files@), position as int),
            r is Ok ==> records_first_positions(final(seen_index_numbers)@, file_views(files@), position + 1),
    {
        let ghost all = file_views(files@);
        let media_file = &files[position];
        assert(all[position as int] == media_file@);
        match self.media_group_values.check_file_metadata(media_file) {
            Err(error) => { return Err(error); },
            Ok(_) => {},
        }
        match check_extension(media_file) {
            Err(error) => { return Err(error); },
            Ok(_) => {},
        }
        match check_client_name(self, media_file) {
            Err(error) => { return Err(error); },
            Ok(_) => {},
        }
        match check_group_number(self, media_file) {
            Err(error) => { return Err(error); },
            Ok(_) => {},
        }
        match check_group_char(self, media_file) {
            Err(error) => { return Err(error); },
            Ok(_) => {},
        }
        let ghost before = seen_index_numbers@;
        proof {
            lemma_earlier_with_index(all, position as int, media_file.index_number);
            assert(before.contains_key(media_file.index_number) <==> earlier_with_index(
                all,
                position as int,
                media_file.index_number,
            ) is Some);
        }
        match seen_index_numbers.insert(media_file.index_number, position) {
            Some(first) => {
                assert(first == earlier_with_index(all, position as int, media_file.index_number)->0);
                assert(all[first as int] == files[first as int]@);
                return Err(
                    FCError::RepeatedIndexNumber(
                        media_file.index_number,
                        media_file.raw_file_name.clone(),
                        files[first].raw_file_name.clone(),
                    ),
                );
            },
            None => {},
        }
        proof {
            let after = seen_index_numbers@;
            assert(after == before.insert(media_file.index_number, position));
            assert forall|k: u32|
                #![trigger after.contains_key(k)]
                #![trigger earlier_with_index(all, position + 1, k)]
                match earlier_with_index(all, position + 1, k) {
                    Some(found) => after.contains_key(k) && after[k] == found,
                    None => !after.contains_key(k),
                } by {
                assert(before.contains_key(k) <==> earlier_with_index(all, position as int, k) is Some);
                assert(earlier_with_index(all, position as int, k) is Some ==> before[k] == earlier_with_index(
                    all,
                    position as int,
                    k,
                )->0);
            }
        }
        check_index_number(self, media_file)
    }

    /// Checks whether a media folder satisfies this final check request.
    pub fn verify_media_folder(&self, media_folder: MediaFolder) -> (r: Result<(), FCError>)
        requires
            forall|i: int| 0 <= i < media_folder.files.len() ==> (#[trigger] media_folder.files[i]).wf(),
        ensures
            outcome_view(r) == folder_check(self@, media_folder@),
    {
        match self.is_satisfied_by_media(media_folder.group_options) {
            Err(error) => { return Err(error); },
            Ok(_) => {},
        }
        let ghost all = file_views(media_folder.files@);
        let count = media_folder.files.len();
        let mut seen_index_numbers: HashMap<u32, usize> = HashMap::new();
        let mut i: usize = 0;
        while i < count
            invariant
                i <= count,
                count == media_folder.files.len(),
                all == file_views(media_folder.files@),
                forall|j: int| 0 <= j < media_folder.files.len() ==> (#[trigger] media_folder.files[j]).wf(),
                media_check(self@, media_folder.group_options) is Ok,
                files_check(self@, all, i as int) is Ok,
                records_first_positions(seen_index_numbers@, all, i as int),
            decreases count - i,
        {
            match self.check_media_file(&media_folder.files, i, &mut seen_index_numbers) {
                Err(error) => {
                    proof {
                        lemma_first_failing_file(self@, all, i as int, count as int);
                    }
                    return Err(error);
                },
                Ok(_) => {},
            }
            i += 1;
        }

        let mut expecting_value: u64 = 1;
        while expecting_value <= count as u64 && expecting_value <= u32::MAX as u64
            invariant
                1 <= expecting_value <= count + 1,
                count == all.len(),
                all == file_views(media_folder.files@),
                media_check(self@, media_folder.group_options) is Ok,
                files_check(self@, all, count as int) is Ok,
                records_first_positions(seen_index_numbers@, all, count as int),
                first_missing(all, 1) == first_missing(all, expecting_value as nat),
            decreases count + 1 - expecting_value,
        {
            let index_number = expecting_value as u32;
            assert(seen_index_numbers@.contains_key(index_number) <==> has_index(all, index_number));
            if !seen_index_numbers.contains_key(&index_number) {
                return Err(FCError::FolderSkippedIndexNumber(index_number));
            }
            expecting_value += 1;
        }
        Ok(())
    }
}

} // verus!
