//! One record per candidate file, read from the fields of its name.

use vstd::prelude::*;
use little_exif::metadata::Metadata;
use crate::file_extension_type::{extension_of_word, FileExtensionType};
use crate::file_names::{holds_fields, split_fields, split_file_name};
use crate::media_types::{media_type_of_word, MediaType, MediaTypeError, MediaTypeErrorView};
use crate::outcome::outcome_view;
use crate::photo_media_data::{photo_data_of_container, PhotoMediaData, PhotoMediaDataErrorView};
use crate::scan_type::{scan_type_of_tag, ScanType};
use crate::text::{number_of_word, owned, try_get_number};

verus! {

/// What a file name says, with the summary of the file's tags.
#[derive(Debug)]
pub struct MediaFile {
    pub path: String,
    pub raw_file_name: String,
    pub last_name: String,
    pub first_name_initial: char,
    pub media_type: MediaType,
    pub group_number: Option<u32>,
    /// How many characters wrote the group number.
    pub group_number_precision: Option<usize>,
    pub group_character: Option<char>,
    pub index_number: u32,
    /// How many characters wrote the index number.
    pub index_number_precision: usize,
    pub scan_type: ScanType,
    pub file_extension: FileExtensionType,
}

/// A record, with texts read as sequences of characters and precisions as natural
/// numbers.
pub struct MediaFileView {
    pub path: Seq<char>,
    pub raw_file_name: Seq<char>,
    pub last_name: Seq<char>,
    pub first_name_initial: char,
    pub media_type: MediaType,
    pub group_number: Option<u32>,
    pub group_number_precision: Option<nat>,
    pub group_character: Option<char>,
    pub index_number: u32,
    pub index_number_precision: nat,
    pub scan_type: ScanType,
    pub file_extension: FileExtensionType,
}

/// A precision as a natural number.
pub open spec fn precision_view(precision: Option<usize>) -> Option<nat> {
    match precision {
        Some(digits) => Some(digits as nat),
        None => None,
    }
}

impl View for MediaFile {
    type V = MediaFileView;

    open spec fn view(&self) -> MediaFileView {
        MediaFileView {
            path: self.path@,
            raw_file_name: self.raw_file_name@,
            last_name: self.last_name@,
            first_name_initial: self.first_name_initial,
            media_type: self.media_type,
            group_number: self.group_number,
            group_number_precision: precision_view(self.group_number_precision),
            group_character: self.group_character,
            index_number: self.index_number,
            index_number_precision: self.index_number_precision as nat,
            scan_type: self.scan_type,
            file_extension: self.file_extension,
        }
    }
}

/// The records of a run of files, each read through its view.
pub open spec fn file_views(files: Seq<MediaFile>) -> Seq<MediaFileView> {
    Seq::new(files.len(), |i: int| files[i]@)
}

impl MediaFileView {
    /// A group number comes with its precision, and a group character only with a
    /// group number.
    pub open spec fn wf(self) -> bool {
        &&& self.group_number is Some <==> self.group_number_precision is Some
        &&& self.group_character is Some ==> self.group_number is Some
    }
}

impl Clone for MediaFile {
    fn clone(&self) -> (r: Self)
        ensures
            r == *self,
    {
        MediaFile {
            path: self.path.clone(),
            raw_file_name: self.raw_file_name.clone(),
            last_name: self.last_name.clone(),
            first_name_initial: self.first_name_initial,
            media_type: self.media_type,
            group_number: self.group_number,
            group_number_precision: self.group_number_precision,
            group_character: self.group_character,
            index_number: self.index_number,
            index_number_precision: self.index_number_precision,
            scan_type: self.scan_type,
            file_extension: self.file_extension,
        }
    }
}

/// Why a candidate gave no record. A variant that names a field holds the field as
/// it stood in the name.
#[derive(Debug)]
pub enum MediaFileParseError {
    NameShort(String),
    NotAFile(String),
    MediaTypeError(MediaTypeError),
    ExpectedGroupOrIndexNumber(String),
    NoIndexNumber,
    InvalidExtension(String),
    ExpectedEnd(String),
}

/// A failure to read a name, with texts read as sequences of characters.
pub enum MediaFileParseErrorView {
    NameShort(Seq<char>),
    NotAFile(Seq<char>),
    MediaTypeError(MediaTypeErrorView),
    ExpectedGroupOrIndexNumber(Seq<char>),
    NoIndexNumber,
    InvalidExtension(Seq<char>),
    ExpectedEnd(Seq<char>),
}

impl View for MediaFileParseError {
    type V = MediaFileParseErrorView;

    open spec fn view(&self) -> MediaFileParseErrorView {
        match self {
            MediaFileParseError::NameShort(word) => MediaFileParseErrorView::NameShort(word@),
            MediaFileParseError::NotAFile(path) => MediaFileParseErrorView::NotAFile(path@),
            MediaFileParseError::MediaTypeError(error) => MediaFileParseErrorView::MediaTypeError(error@),
            MediaFileParseError::ExpectedGroupOrIndexNumber(word) => MediaFileParseErrorView::ExpectedGroupOrIndexNumber(word@),
            MediaFileParseError::NoIndexNumber => MediaFileParseErrorView::NoIndexNumber,
            MediaFileParseError::InvalidExtension(word) => MediaFileParseErrorView::InvalidExtension(word@),
            MediaFileParseError::ExpectedEnd(word) => MediaFileParseErrorView::ExpectedEnd(word@),
        }
    }
}

/// The part of a file name that the reader expects next.
#[derive(Debug, Clone, Copy, PartialEq, Eq, Structural)]
pub enum SectionReadState {
    FormattedName,
    MediaType,
    GroupNumber,
    GroupCharacter,
    IndexNumber,
    ScanType,
    Extension,
    End,
}

impl SectionReadState {
    /// How many sections are still to come.
    pub open spec fn remaining(self) -> nat {
        match self {
            SectionReadState::FormattedName => 7,
            SectionReadState::MediaType => 6,
            SectionReadState::GroupNumber => 5,
            SectionReadState::GroupCharacter => 4,
            SectionReadState::IndexNumber => 3,
            SectionReadState::ScanType => 2,
            SectionReadState::Extension => 1,
            SectionReadState::End => 0,
        }
    }
}

/// The reader between two sections: which section is due, how many fields have been
/// taken, and what has been read from them.
pub struct ReadProgress {
    pub section: SectionReadState,
    pub cursor: nat,
    pub last_name: Seq<char>,
    pub first_name_initial: char,
    pub media_type: Option<MediaType>,
    pub group_number: Option<u32>,
    pub group_number_precision: Option<nat>,
    pub group_character: Option<char>,
    pub index_number: u32,
    pub index_number_precision: nat,
    pub scan_type: ScanType,
    pub file_extension: FileExtensionType,
}

/// The reader before the first field.
pub open spec fn start_of_name() -> ReadProgress {
    ReadProgress {
        section: SectionReadState::FormattedName,
        cursor: 0,
        last_name: Seq::<char>::empty(),
        first_name_initial: ' ',
        media_type: None,
        group_number: None,
        group_number_precision: None,
        group_character: None,
        index_number: 0,
        index_number_precision: 0,
        scan_type: ScanType::Default,
        file_extension: FileExtensionType::Unset,
    }
}

/// The field under the cursor; past the last field, the empty field.
pub open spec fn field_at(fields: Seq<Seq<char>>, cursor: nat) -> Seq<char> {
    if cursor < fields.len() {
        fields[cursor as int]
    } else {
        Seq::<char>::empty()
    }
}

/// One section of the reader, offered `word`. A section that takes the word moves the
/// cursor on; the group character and the scan type are optional and leave a word that
/// is none of theirs to the next section, and so does the index number where the
/// number read before it turns out to have been the index number itself.
pub open spec fn read_section(
    progress: ReadProgress,
    word: Seq<char>,
    photo: Result<PhotoMediaData, PhotoMediaDataErrorView>,
) -> Result<ReadProgress, MediaFileParseErrorView> {
    match progress.section {
        SectionReadState::FormattedName => if word.len() < 2 {
            Err(MediaFileParseErrorView::NameShort(word))
        } else {
            Ok(
                ReadProgress {
                    section: SectionReadState::MediaType,
                    cursor: progress.cursor + 1,
                    last_name: word.drop_last(),
                    first_name_initial: word.last(),
                    ..progress
                },
            )
        },
        SectionReadState::MediaType => match media_type_of_word(word, photo) {
            Err(error) => Err(MediaFileParseErrorView::MediaTypeError(error)),
            Ok(media_type) => Ok(
                ReadProgress {
                    section: SectionReadState::GroupNumber,
                    cursor: progress.cursor + 1,
                    media_type: Some(media_type),
                    ..progress
                },
            ),
        },
        SectionReadState::GroupNumber => match number_of_word(word) {
            None => Err(MediaFileParseErrorView::ExpectedGroupOrIndexNumber(word)),
            Some(number) => Ok(
                ReadProgress {
                    section: SectionReadState::GroupCharacter,
                    cursor: progress.cursor + 1,
                    group_number: Some(number),
                    group_number_precision: Some(word.len()),
                    ..progress
                },
            ),
        },
        SectionReadState::GroupCharacter => if word.len() == 1 {
            Ok(
                ReadProgress {
                    section: SectionReadState::IndexNumber,
                    cursor: progress.cursor + 1,
                    group_character: Some(word[0]),
                    ..progress
                },
            )
        } else {
            Ok(ReadProgress { section: SectionReadState::IndexNumber, ..progress })
        },
        SectionReadState::IndexNumber => match number_of_word(word) {
            Some(number) => Ok(
                ReadProgress {
                    section: SectionReadState::ScanType,
                    cursor: progress.cursor + 1,
                    index_number: number,
                    index_number_precision: word.len(),
                    ..progress
                },
            ),
            None => if progress.group_character is Some {
                Err(MediaFileParseErrorView::NoIndexNumber)
            } else {
                Ok(
                    ReadProgress {
                        section: SectionReadState::ScanType,
                        index_number: progress.group_number->0,
                        index_number_precision: progress.group_number_precision->0,
                        group_number: None,
                        group_number_precision: None,
                        ..progress
                    },
                )
            },
        },
        SectionReadState::ScanType => match scan_type_of_tag(word) {
            Some(scan_type) => Ok(
                ReadProgress {
                    section: SectionReadState::Extension,
                    cursor: progress.cursor + 1,
                    scan_type,
                    ..progress
                },
            ),
            None => Ok(
                ReadProgress {
                    section: SectionReadState::Extension,
                    scan_type: ScanType::Default,
                    ..progress
                },
            ),
        },
        SectionReadState::Extension => match extension_of_word(word) {
            None => Err(MediaFileParseErrorView::InvalidExtension(word)),
            Some(file_extension) => Ok(
                ReadProgress {
                    section: SectionReadState::End,
                    cursor: progress.cursor + 1,
                    file_extension,
                    ..progress
                },
            ),
        },
        SectionReadState::End => Err(MediaFileParseErrorView::ExpectedEnd(word)),
    }
}

/// Runs the reader from `progress` to its end over the fields of a name. Each section
/// is offered the field under the cursor, and the empty field once the name has run
/// out: a name that ends early fails in the first section that needs a field. A field
/// left over after the extension fails the name.
pub open spec fn read_sections(
    progress: ReadProgress,
    fields: Seq<Seq<char>>,
    photo: Result<PhotoMediaData, PhotoMediaDataErrorView>,
) -> Result<ReadProgress, MediaFileParseErrorView>
    decreases progress.section.remaining(),
{
    if progress.section is End {
        if progress.cursor < fields.len() {
            Err(MediaFileParseErrorView::ExpectedEnd(fields[progress.cursor as int]))
        } else {
            Ok(progress)
        }
    } else {
        match read_section(progress, field_at(fields, progress.cursor), photo) {
            Err(error) => Err(error),
            Ok(next) => read_sections(next, fields, photo),
        }
    }
}

/// The record that a finished reader has gathered for the file `file_name` at `path`.
pub open spec fn record_of(path: Seq<char>, file_name: Seq<char>, progress: ReadProgress) -> MediaFileView {
    MediaFileView {
        path,
        raw_file_name: file_name,
        last_name: progress.last_name,
        first_name_initial: progress.first_name_initial,
        media_type: progress.media_type->0,
        group_number: progress.group_number,
        group_number_precision: progress.group_number_precision,
        group_character: progress.group_character,
        index_number: progress.index_number,
        index_number_precision: progress.index_number_precision,
        scan_type: progress.scan_type,
        file_extension: progress.file_extension,
    }
}

/// What reading a candidate gives: nothing for a path that is no regular file,
/// otherwise what the reader makes of the fields of the file's name, `photo` being
/// what the file's tags gave.
pub open spec fn media_file_of_name(
    path: Seq<char>,
    is_file: bool,
    file_name: Seq<char>,
    photo: Result<PhotoMediaData, PhotoMediaDataErrorView>,
) -> Result<MediaFileView, MediaFileParseErrorView> {
    if !is_file {
        Err(MediaFileParseErrorView::NotAFile(path))
    } else {
        match read_sections(start_of_name(), split_fields(file_name), photo) {
            Err(error) => Err(error),
            Ok(progress) => Ok(record_of(path, file_name, progress)),
        }
    }
}

/// Parts the client's field into last name and first-name initial.
pub fn parse_client_name(word: &str) -> (r: Result<(String, char), MediaFileParseError>)
    ensures
        match r {
            Ok((last_name, initial)) => word@.len() >= 2 && last_name@ == word@.drop_last() && initial
                == word@.last(),
            Err(error) => word@.len() < 2 && error@ == MediaFileParseErrorView::NameShort(word@),
        },
{
    let len = word.unicode_len();
    if len < 2 {
        return Err(MediaFileParseError::NameShort(owned(word)));
    }
    let first_initial = word.get_char(len - 1);
    let last_name = owned(word.substring_char(0, len - 1));
    assert(word@.subrange(0, len - 1) =~= word@.drop_last());
    Ok((last_name, first_initial))
}

/// Reads a field of exactly one character.
pub fn try_get_char(word: &str) -> (r: Result<char, ()>)
    ensures
        r == if word@.len() == 1 {
            Ok::<char, ()>(word@[0])
        } else {
            Err(())
        },
{
    if word.unicode_len() == 1 {
        Ok(word.get_char(0))
    } else {
        Err(())
    }
}

impl MediaFile {
    /// Whether the record's optional parts agree with each other.
    pub open spec fn wf(&self) -> bool {
        self@.wf()
    }

    /// Reads the record of the candidate at `path`. The caller has looked at the file
    /// system: `is_file` says whether the path is a regular file, `file_name` is the
    /// last component of the path, and `container` holds the file's metadata, or
    /// nothing where it could not be read.
    pub fn from_path(path: &String, is_file: bool, file_name: &str, container: &Option<Metadata>) -> (r: Result<
        MediaFile,
        MediaFileParseError,
    >)
        ensures
            outcome_view(r) == media_file_of_name(
                path@,
                is_file,
                file_name@,
                photo_data_of_container(path@, *container),
            ),
            r is Ok ==> r->Ok_0.wf(),
    {
        if !is_file {
            return Err(MediaFileParseError::NotAFile(path.clone()));
        }
        let words = split_file_name(file_name);
        let ghost fields = split_fields(file_name@);
        let ghost photo = photo_data_of_container(path@, *container);

        let mut last_name = String::new();
        let mut first_name_initial: char = ' ';
        let mut media_type: Option<MediaType> = None;
        let mut group_number: Option<u32> = None;
        let mut group_number_precision: Option<usize> = None;
        let mut group_character: Option<char> = None;
        let mut index_number: u32 = 0;
        let mut index_number_precision: usize = 0;
        let mut scan_type = ScanType::Default;
        let mut file_extension = FileExtensionType::Unset;

        let mut section = SectionReadState::FormattedName;
        let mut cursor: usize = 0;
        proof {
            reveal_strlit("");
            assert(last_name@ =~= Seq::<char>::empty());
        }
        loop
            invariant_except_break
                is_file,
                holds_fields(words@, file_name@),
                fields == split_fields(file_name@),
                photo == photo_data_of_container(path@, *container),
                cursor + section.remaining() <= 7,
                section.remaining() <= 5 ==> media_type is Some,
                section is GroupCharacter || section is IndexNumber ==> group_number is Some,
                group_number is Some <==> group_number_precision is Some,
                group_character is Some ==> group_number is Some,
                read_sections(start_of_name(), fields, photo) == read_sections(
                    ReadProgress {
                        section,
                        cursor: cursor as nat,
                        last_name: last_name@,
                        first_name_initial,
                        media_type,
                        group_number,
                        group_number_precision: precision_view(group_number_precision),
                        group_character,
                        index_number,
                        index_number_precision: index_number_precision as nat,
                        scan_type,
                        file_extension,
                    },
                    fields,
                    photo,
                ),
            ensures
                section is End,
                cursor >= words.len(),
                media_type is Some,
                group_number is Some <==> group_number_precision is Some,
                group_character is Some ==> group_number is Some,
                read_sections(start_of_name(), split_fields(file_name@), photo_data_of_container(path@, *container))
                    == Ok::<ReadProgress, MediaFileParseErrorView>(
                    ReadProgress {
                        section,
                        cursor: cursor as nat,
                        last_name: last_name@,
                        first_name_initial,
                        media_type,
                        group_number,
                        group_number_precision: precision_view(group_number_precision),
                        group_character,
                        index_number,
                        index_number_precision: index_number_precision as nat,
                        scan_type,
                        file_extension,
                    },
                ),
            decreases section.remaining(),
        {
            let word: &str = if cursor < words.len() {
                words[cursor].as_str()
            } else {
                ""
            };
            proof {
                reveal_strlit("");
                assert(word@ =~= field_at(fields, cursor as nat));
            }
            match section {
                SectionReadState::FormattedName => {
                    match parse_client_name(word) {
                        Err(error) => {
                            return Err(error);
                        },
                        Ok((name, initial)) => {
                            last_name = name;
                            first_name_initial = initial;
                        },
                    }
                    section = SectionReadState::MediaType;
                    cursor += 1;
                },
                SectionReadState::MediaType => {
                    match MediaType::from_path(word, path, container) {
                        Err(error) => {
                            return Err(MediaFileParseError::MediaTypeError(error));
                        },
                        Ok(read) => {
                            media_type = Some(read);
                        },
                    }
                    section = SectionReadState::GroupNumber;
                    cursor += 1;
                },
                SectionReadState::GroupNumber => {
                    match try_get_number(word) {
                        Err(_) => {
                            return Err(MediaFileParseError::ExpectedGroupOrIndexNumber(owned(word)));
                        },
                        Ok(number) => {
                            group_number = Some(number);
                            group_number_precision = Some(word.unicode_len());
                        },
                    }
                    section = SectionReadState::GroupCharacter;
                    cursor += 1;
                },
                SectionReadState::GroupCharacter => {
                    section = SectionReadState::IndexNumber;
                    match try_get_char(word) {
                        Ok(character) => {
                            group_character = Some(character);
                            cursor += 1;
                        },
                        Err(_) => {},
                    }
                },
                SectionReadState::IndexNumber => {
                    match try_get_number(word) {
                        Ok(number) => {
                            index_number = number;
                            index_number_precision = word.unicode_len();
                            cursor += 1;
                        },
                        Err(_) => {
                            if group_character.is_some() {
                                return Err(MediaFileParseError::NoIndexNumber);
                            }
                            index_number = group_number.unwrap();
                            index_number_precision = group_number_precision.unwrap();
                            group_number = None;
                            group_number_precision = None;
                        },
                    }
                    section = SectionReadState::ScanType;
                },
                SectionReadState::ScanType => {
                    match ScanType::from_str(word) {
                        Ok(read) => {
                            scan_type = read;
                            cursor += 1;
                        },
                        Err(_) => {
                            scan_type = ScanType::Default;
                        },
                    }
                    section = SectionReadState::Extension;
                },
                SectionReadState::Extension => {
                    match FileExtensionType::from_str(word) {
                        Err(_) => {
                            return Err(MediaFileParseError::InvalidExtension(owned(word)));
                        },
                        Ok(read) => {
                            file_extension = read;
                        },
                    }
                    section = SectionReadState::End;
                    cursor += 1;
                },
                SectionReadState::End => {
                    if cursor < words.len() {
                        return Err(MediaFileParseError::ExpectedEnd(owned(word)));
                    }
                    break ;
                },
            }
        }
        Ok(
            MediaFile {
                path: path.clone(),
                raw_file_name: owned(file_name),
                last_name,
                first_name_initial,
                media_type: media_type.unwrap(),
                group_number,
                group_number_precision,
                group_character,
                index_number,
                index_number_precision,
                scan_type,
                file_extension,
            },
        )
    }
}

} // verus!
