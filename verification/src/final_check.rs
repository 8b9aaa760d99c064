//! The final check of a folder, from the request to the verdict.

use vstd::prelude::*;
use little_exif::metadata::Metadata;
use crate::error::{FCError, FCErrorView};
use crate::final_check_request::{folder_check, FinalCheckRequest, FinalCheckRequestView};
use crate::media_file::{file_views, media_file_of_name, MediaFile, MediaFileView};
use crate::media_folder::{MediaFolder, MediaFolderView};
use crate::media_groups::{media_groups_of, MediaGroupValues};
use crate::outcome::{first_failure, outcome_view};
use crate::photo_media_data::{photo_data_of_container, PhotoMediaData, PhotoMediaDataErrorView};
use crate::text::{decimal_digits, digit_count, owned, push_decimal, zero_padded, zeros};

verus! {

/// The most digits that may write a group number.
pub const MAX_GROUP_NUM_PRECISION: u64 = 6;

/// What is told of a request that expects no media type at all.
pub open spec fn no_media_selected() -> Seq<char> {
    "no properties were defined in request for expecting_media"@
}

/// Whether a request can be checked at all: it must expect some media type, its
/// group number must fit in the digits it allows, and those may be six at most.
pub open spec fn request_check(request: FinalCheckRequestView) -> Result<(), FCErrorView> {
    if request.media_group_values.slides is None && request.media_group_values.negatives is None
        && request.media_group_values.prints is None {
        Err(FCErrorView::InvalidRequest(no_media_selected()))
    } else if request.group_num is Some && digit_count(request.group_num->0 as nat)
        > request.group_num_precision {
        Err(FCErrorView::InsufficientGroupNumberPrecision(request.group_num->0, request.group_num_precision))
    } else if request.group_num_precision > MAX_GROUP_NUM_PRECISION {
        Err(FCErrorView::GroupNumberPrecisionTooHigh(request.group_num_precision))
    } else {
        Ok(())
    }
}

/// The pattern that lists a client's folder: the directory, then, where the request
/// names a group number, the folder of that group, named by the number with zeros in
/// front up to the request's precision, then every entry in it.
pub open spec fn directory_pattern(dir: Seq<char>, request: FinalCheckRequestView) -> Seq<char> {
    dir + seq!['\\'] + match request.group_num {
        Some(number) => zero_padded(number as nat, request.group_num_precision as nat) + seq!['\\'],
        None => Seq::<char>::empty(),
    } + seq!['*']
}

/// One entry of a listed folder, as far as the file system was asked about it.
pub struct CandidateFile {
    pub path: String,
    /// The last component of the path.
    pub file_name: String,
    /// Whether the path is a regular file.
    pub is_file: bool,
    /// The file's metadata container, or nothing where it could not be read.
    pub metadata: Option<Metadata>,
}

/// A candidate as the reader sees it: its names, and what its tags give.
pub struct CandidateFileView {
    pub path: Seq<char>,
    pub file_name: Seq<char>,
    pub is_file: bool,
    /// What the file's tags give.
    pub photo: Result<PhotoMediaData, PhotoMediaDataErrorView>,
}

impl View for CandidateFile {
    type V = CandidateFileView;

    open spec fn view(&self) -> CandidateFileView {
        CandidateFileView {
            path: self.path@,
            file_name: self.file_name@,
            is_file: self.is_file,
            photo: photo_data_of_container(self.path@, self.metadata),
        }
    }
}

/// The entries of a listed folder; one that could not be listed holds the reason.
pub open spec fn entry_views(entries: Seq<Result<CandidateFile, String>>) -> Seq<
    Result<CandidateFileView, Seq<char>>,
> {
    Seq::new(entries.len(), |i: int| outcome_view(entries[i]))
}

/// The record of one entry.
pub open spec fn media_file_of_entry(entry: Result<CandidateFileView, Seq<char>>) -> Result<
    MediaFileView,
    FCErrorView,
> {
    match entry {
        Err(message) => Err(FCErrorView::InvalidFile(message)),
        Ok(candidate) => match media_file_of_name(
            candidate.path,
            candidate.is_file,
            candidate.file_name,
            candidate.photo,
        ) {
            Err(error) => Err(FCErrorView::MediaFileParseError(candidate.path, error)),
            Ok(file) => Ok(file),
        },
    }
}

/// The records of all entries, in order; the first entry that has none fails the lot.
pub open spec fn media_files_of(entries: Seq<Result<CandidateFileView, Seq<char>>>) -> Result<
    Seq<MediaFileView>,
    FCErrorView,
>
    decreases entries.len(),
{
    if entries.len() == 0 {
        Ok(Seq::<MediaFileView>::empty())
    } else {
        match media_files_of(entries.drop_last()) {
            Err(error) => Err(error),
            Ok(files) => match media_file_of_entry(entries.last()) {
                Err(error) => Err(error),
                Ok(file) => Ok(files.push(file)),
            },
        }
    }
}

/// The verdict of a final check: the request must be checkable, every entry must give
/// a record, the records must be countable, and the folder must satisfy the request.
pub open spec fn final_check_outcome(
    request: FinalCheckRequestView,
    entries: Seq<Result<CandidateFileView, Seq<char>>>,
) -> Result<(), FCErrorView> {
    first_failure(
        request_check(request),
        match media_files_of(entries) {
            Err(error) => Err(error),
            Ok(files) => match media_groups_of(files) {
                Err(error) => Err(FCErrorView::MediaGroupingError(error)),
                Ok(counted) => folder_check(request, MediaFolderView { files, group_options: counted }),
            },
        },
    )
}

/// An entry that gives no record, after entries that all give one, fails the lot.
pub proof fn lemma_first_failing_entry(entries: Seq<Result<CandidateFileView, Seq<char>>>, position: int)
    requires
        0 <= position < entries.len(),
        media_files_of(entries.take(position)) is Ok,
        media_file_of_entry(entries[position]) is Err,
    ensures
        media_files_of(entries) == Err::<Seq<MediaFileView>, FCErrorView>(
            media_file_of_entry(entries[position])->Err_0,
        ),
    decreases entries.len(),
{
    if position == entries.len() - 1 {
        assert(entries.drop_last() =~= entries.take(position));
    } else {
        assert(entries.drop_last().take(position) =~= entries.take(position));
        lemma_first_failing_entry(entries.drop_last(), position);
    }
}

/// Accepts a request that can be checked and hands it back.
pub fn parse_final_check_request(data: FinalCheckRequest) -> (r: Result<FinalCheckRequest, FCError>)
    ensures
        match r {
            Ok(request) => request == data && request_check(data@) is Ok,
            Err(error) => request_check(data@) == Err::<(), FCErrorView>(error@),
        },
{
    if data.media_group_values.slides.is_none() && data.media_group_values.negatives.is_none()
        && data.media_group_values.prints.is_none() {
        return Err(
            FCError::InvalidRequest(owned("no properties were defined in request for expecting_media")),
        );
    }
    if let Some(group_num) = data.group_num {
        if decimal_digits(group_num) > data.group_num_precision {
            return Err(FCError::InsufficientGroupNumberPrecision(group_num, data.group_num_precision));
        }
    }
    if data.group_num_precision > MAX_GROUP_NUM_PRECISION {
        return Err(FCError::GroupNumberPrecisionTooHigh(data.group_num_precision));
    }
    Ok(data)
}

/// Builds the pattern that lists the folder of a request under `dir`.
pub fn build_directory_pattern(dir: &String, final_check_request: &FinalCheckRequest) -> (r: Result<String, FCError>)
    ensures
        r is Ok,
        r->Ok_0@ == directory_pattern(dir@, final_check_request@),
{
    let mut ret = dir.clone();
    proof {
        reveal_strlit("\\");
        reveal_strlit("0");
        reveal_strlit("*");
    }
    ret.append("\\");
    assert(ret@ =~= dir@ + seq!['\\']);
    if let Some(num) = final_check_request.group_num {
        let digits = decimal_digits(num);
        let mut written: u64 = digits;
        let ghost start = ret@;
        while written < final_check_request.group_num_precision
            invariant
                digits <= written,
                digits == digit_count(num as nat),
                written <= final_check_request.group_num_precision || written == digits,
                ret@ == start + zeros((written - digits) as nat),
            decreases final_check_request.group_num_precision - written,
        {
            proof {
                reveal_strlit("0");
            }
            ret.append("0");
            written += 1;
            assert(ret@ =~= start + zeros((written - digits) as nat));
        }
        push_decimal(&mut ret, num);
        ret.append("\\");
        assert(ret@ =~= dir@ + seq!['\\'] + (zero_padded(
            num as nat,
            final_check_request.group_num_precision as nat,
        ) + seq!['\\']));
    } else {
        assert(ret@ =~= dir@ + seq!['\\'] + Seq::<char>::empty());
    }
    ret.append("*");
    Ok(ret)
}

/// Reads the records of the entries of a listed folder, in order.
pub fn parse_media_files(entries: &Vec<Result<CandidateFile, String>>) -> (r: Result<Vec<MediaFile>, FCError>)
    ensures
        match r {
            Ok(files) => media_files_of(entry_views(entries@)) == Ok::<Seq<MediaFileView>, FCErrorView>(
                file_views(files@),
            ) && forall|i: int| 0 <= i < files.len() ==> (#[trigger] files[i]).wf(),
            Err(error) => media_files_of(entry_views(entries@)) == Err::<Seq<MediaFileView>, FCErrorView>(
                error@,
            ),
        },
{
    let mut ret: Vec<MediaFile> = Vec::new();
    let ghost all = entry_views(entries@);
    let mut i: usize = 0;
    assert(file_views(ret@) =~= Seq::<MediaFileView>::empty());
    while i < entries.len()
        invariant
            i <= entries.len(),
            all == entry_views(entries@),
            media_files_of(all.take(i as int)) == Ok::<Seq<MediaFileView>, FCErrorView>(file_views(ret@)),
            forall|j: int| 0 <= j < ret.len() ==> (#[trigger] ret[j]).wf(),
        decreases entries.len() - i,
    {
        proof {
            assert(all.take(i + 1).drop_last() =~= all.take(i as int));
            assert(all.take(i + 1).last() == all[i as int]);
            assert(all[i as int] == outcome_view(entries[i as int]));
        }
        let ghost before = file_views(ret@);
        match &entries[i] {
            Err(message) => {
                proof {
                    lemma_first_failing_entry(all, i as int);
                }
                return Err(FCError::InvalidFile(message.clone()));
            },
            Ok(candidate) => {
                match MediaFile::from_path(
                    &candidate.path,
                    candidate.is_file,
                    candidate.file_name.as_str(),
                    &candidate.metadata,
                ) {
                    Err(error) => {
                        proof {
                            lemma_first_failing_entry(all, i as int);
                        }
                        return Err(FCError::MediaFileParseError(candidate.path.clone(), error));
                    },
                    Ok(media_file) => {
                        ret.push(media_file);
                        assert(file_views(ret@) =~= before.push(media_file@));
                    },
                }
            },
        }
        i += 1;
    }
    assert(all.take(i as int) =~= all);
    Ok(ret)
}

/// Runs the final check of a listed folder against a request.
pub fn final_check(request: FinalCheckRequest, entries: Vec<Result<CandidateFile, String>>) -> (r: Result<
    (),
    FCError,
>)
    ensures
        outcome_view(r) == final_check_outcome(request@, entry_views(entries@)),
{
    let final_check_req = match parse_final_check_request(request) {
        Ok(accepted) => accepted,
        Err(error) => { return Err(error); },
    };
    let media_files = match parse_media_files(&entries) {
        Ok(files) => files,
        Err(error) => { return Err(error); },
    };
    let counted_media = match MediaGroupValues::from_media_files(&media_files) {
        Ok(counted) => counted,
        Err(error) => { return Err(FCError::MediaGroupingError(error)); },
    };
    final_check_req.verify_media_folder(MediaFolder { files: media_files, group_options: counted_media })
}

} // verus!
