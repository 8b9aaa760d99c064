//! The names that the convention allows, and the proof that reading such a name
//! gives back exactly what it was written from.

use vstd::prelude::*;
use crate::file_extension_type::extension_of_word;
use crate::file_names::{is_separator, lemma_split_fields_nonempty, split_fields};
use crate::media_file::{
    field_at, media_file_of_name, read_section, read_sections, start_of_name, MediaFileParseErrorView,
    MediaFileView, ReadProgress, SectionReadState,
};
use crate::media_types::{kind_of_label, MediaTypeErrorView};
use crate::photo_media_data::{PhotoMediaData, PhotoMediaDataErrorView};
use crate::scan_type::{scan_type_of_tag, ScanType};
use crate::text::{is_digit, number_of_word, unsigned_part};

verus! {

/// The group that a name puts its file in: the number as written, and the character
/// that may follow it.
pub struct GroupPart {
    pub number: Seq<char>,
    pub character: Option<char>,
}

/// What a name is written from, part by part:
/// `<last name><initial>_<media>[_<group number>[_<group character>]]_<index number>[_<scan tag>].<extension>`.
pub struct NameParts {
    pub last_name: Seq<char>,
    pub first_name_initial: char,
    pub media_label: Seq<char>,
    pub group: Option<GroupPart>,
    /// The index number as written.
    pub index: Seq<char>,
    /// The scan tag as written, where the name has one.
    pub scan_tag: Option<Seq<char>>,
    pub extension: Seq<char>,
}

/// Whether a word holds none of the characters that part fields.
pub open spec fn no_separator(word: Seq<char>) -> bool {
    forall|i: int| 0 <= i < word.len() ==> !is_separator(#[trigger] word[i])
}

/// Words joined by a separator.
pub open spec fn joined(words: Seq<Seq<char>>, separator: char) -> Seq<char>
    decreases words.len(),
{
    if words.len() == 0 {
        Seq::<char>::empty()
    } else if words.len() == 1 {
        words[0]
    } else {
        joined(words.drop_last(), separator) + seq![separator] + words.last()
    }
}

impl NameParts {
    /// Whether the parts can be written as a name and read back: a last name of at
    /// least one character, a known media label, numbers that fit in 32 bits, a
    /// known scan tag and a known extension, and no separator inside any part. Where
    /// a group number stands without a group character, the index number has more
    /// than one character: a single character after the group number is always read
    /// as the group character.
    pub open spec fn well_formed(self) -> bool {
        &&& self.last_name.len() >= 1
        &&& no_separator(self.last_name)
        &&& !is_separator(self.first_name_initial)
        &&& kind_of_label(self.media_label) is Some
        &&& match self.group {
            None => true,
            Some(group) => number_of_word(group.number) is Some && match group.character {
                Some(character) => !is_separator(character),
                None => self.index.len() != 1,
            },
        }
        &&& number_of_word(self.index) is Some
        &&& (self.scan_tag is Some ==> scan_type_of_tag(self.scan_tag->0) is Some)
        &&& extension_of_word(self.extension) is Some
    }

    /// The fields that the group takes in the name.
    pub open spec fn group_fields(self) -> Seq<Seq<char>> {
        match self.group {
            None => Seq::<Seq<char>>::empty(),
            Some(group) => match group.character {
                Some(character) => seq![group.number, seq![character]],
                None => seq![group.number],
            },
        }
    }

    /// The fields of the name before its extension.
    pub open spec fn stem_fields(self) -> Seq<Seq<char>> {
        seq![self.last_name.push(self.first_name_initial), self.media_label] + self.group_fields()
            + seq![self.index] + match self.scan_tag {
            Some(tag) => seq![tag],
            None => Seq::<Seq<char>>::empty(),
        }
    }

    /// The name: the fields before the extension joined by underscores, a dot, the
    /// extension.
    pub open spec fn file_name(self) -> Seq<char> {
        joined(self.stem_fields(), '_') + seq!['.'] + self.extension
    }

    /// The record that the parts describe, for a file at `path` whose tags gave `data`.
    pub open spec fn record(self, path: Seq<char>, data: PhotoMediaData) -> MediaFileView {
        MediaFileView {
            path,
            raw_file_name: self.file_name(),
            last_name: self.last_name,
            first_name_initial: self.first_name_initial,
            media_type: kind_of_label(self.media_label)->0.with(data),
            group_number: match self.group {
                Some(group) => number_of_word(group.number),
                None => None,
            },
            group_number_precision: match self.group {
                Some(group) => Some(group.number.len()),
                None => None,
            },
            group_character: match self.group {
                Some(group) => group.character,
                None => None,
            },
            index_number: number_of_word(self.index)->0,
            index_number_precision: self.index.len(),
            scan_type: match self.scan_tag {
                Some(tag) => scan_type_of_tag(tag)->0,
                None => ScanType::Default,
            },
            file_extension: extension_of_word(self.extension)->0,
        }
    }
}

/// A word without separators is the one field of itself.
pub proof fn lemma_split_one_field(word: Seq<char>)
    requires
        no_separator(word),
    ensures
        split_fields(word) == seq![word],
    decreases word.len(),
{
    if word.len() == 0 {
        assert(word =~= Seq::<char>::empty());
    } else {
        lemma_split_one_field(word.drop_last());
        assert(word.drop_last().push(word.last()) =~= word);
        assert(seq![word.drop_last()].update(0, word) =~= seq![word]);
    }
}

/// A separator and a word without separators add one field to a name.
pub proof fn lemma_split_one_more_field(name: Seq<char>, separator: char, word: Seq<char>)
    requires
        is_separator(separator),
        no_separator(word),
    ensures
        split_fields(name + seq![separator] + word) == split_fields(name).push(word),
    decreases word.len(),
{
    let whole = name + seq![separator] + word;
    if word.len() == 0 {
        assert(whole.drop_last() =~= name);
        assert(word =~= Seq::<char>::empty());
    } else {
        lemma_split_one_more_field(name, separator, word.drop_last());
        assert(whole.drop_last() =~= name + seq![separator] + word.drop_last());
        assert(whole.last() == word.last());
        let before = split_fields(name).push(word.drop_last());
        assert(word.drop_last().push(word.last()) =~= word);
        assert(before.update(before.len() - 1, before.last().push(word.last())) =~= split_fields(name).push(
            word,
        ));
    }
}

/// Words without separators, joined by a separator, are the fields of what they make.
pub proof fn lemma_split_joined(words: Seq<Seq<char>>, separator: char)
    requires
        words.len() >= 1,
        is_separator(separator),
        forall|i: int| 0 <= i < words.len() ==> no_separator(#[trigger] words[i]),
    ensures
        split_fields(joined(words, separator)) == words,
    decreases words.len(),
{
    if words.len() == 1 {
        lemma_split_one_field(words[0]);
        assert(seq![words[0]] =~= words);
    } else {
        lemma_split_joined(words.drop_last(), separator);
        lemma_split_one_more_field(joined(words.drop_last(), separator), separator, words.last());
        assert(words.drop_last().push(words.last()) =~= words);
    }
}

/// A word that writes a number holds no separator.
pub proof fn lemma_number_has_no_separator(word: Seq<char>)
    requires
        number_of_word(word) is Some,
    ensures
        no_separator(word),
        word.len() >= 1,
{
    let digits = unsigned_part(word);
    assert forall|i: int| 0 <= i < word.len() implies !is_separator(#[trigger] word[i]) by {
        if digits.len() == word.len() {
            assert(is_digit(digits[i]));
        } else if i > 0 {
            assert(is_digit(digits[i - 1]));
        }
    }
}

/// The known labels, tags and extensions, character by character.
pub proof fn lemma_known_words()
    ensures
        "Prints"@ == seq!['P', 'r', 'i', 'n', 't', 's'],
        "Slides"@ == seq!['S', 'l', 'i', 'd', 'e', 's'],
        "Negs"@ == seq!['N', 'e', 'g', 's'],
        ""@ == Seq::<char>::empty(),
        "HS"@ == seq!['H', 'S'],
        "OSHS"@ == seq!['O', 'S', 'H', 'S'],
        "jpg"@ == seq!['j', 'p', 'g'],
        "jpeg"@ == seq!['j', 'p', 'e', 'g'],
        "tif"@ == seq!['t', 'i', 'f'],
        "tiff"@ == seq!['t', 'i', 'f', 'f'],
{
    reveal_strlit("Prints");
    reveal_strlit("Slides");
    reveal_strlit("Negs");
    reveal_strlit("");
    reveal_strlit("HS");
    reveal_strlit("OSHS");
    reveal_strlit("jpg");
    reveal_strlit("jpeg");
    reveal_strlit("tif");
    reveal_strlit("tiff");
    assert("Prints"@ =~= seq!['P', 'r', 'i', 'n', 't', 's']);
    assert("Slides"@ =~= seq!['S', 'l', 'i', 'd', 'e', 's']);
    assert("Negs"@ =~= seq!['N', 'e', 'g', 's']);
    assert(""@ =~= Seq::<char>::empty());
    assert("HS"@ =~= seq!['H', 'S']);
    assert("OSHS"@ =~= seq!['O', 'S', 'H', 'S']);
    assert("jpg"@ =~= seq!['j', 'p', 'g']);
    assert("jpeg"@ =~= seq!['j', 'p', 'e', 'g']);
    assert("tif"@ =~= seq!['t', 'i', 'f']);
    assert("tiff"@ =~= seq!['t', 'i', 'f', 'f']);
}

/// A word that starts with neither a digit nor a plus sign writes no number.
pub proof fn lemma_word_is_no_number(word: Seq<char>)
    requires
        word.len() == 0 || (!is_digit(word[0]) && word[0] != '+'),
    ensures
        number_of_word(word) is None,
{
    if word.len() > 0 {
        assert(unsigned_part(word) == word);
        assert(!is_digit(unsigned_part(word)[0]));
    }
}

/// A media label holds no separator.
pub proof fn lemma_label_has_no_separator(word: Seq<char>)
    requires
        kind_of_label(word) is Some,
    ensures
        no_separator(word),
{
    lemma_known_words();
}

/// A scan tag holds no separator, is no single character and writes no number.
pub proof fn lemma_scan_tag_is_only_a_scan_tag(word: Seq<char>)
    requires
        scan_type_of_tag(word) is Some,
    ensures
        no_separator(word),
        word.len() != 1,
        number_of_word(word) is None,
{
    lemma_known_words();
    lemma_word_is_no_number(word);
}

/// An extension holds no separator, is no single character, writes no number and is
/// no scan tag.
pub proof fn lemma_extension_is_only_an_extension(word: Seq<char>)
    requires
        extension_of_word(word) is Some,
    ensures
        no_separator(word),
        word.len() != 1,
        number_of_word(word) is None,
        scan_type_of_tag(word) is None,
{
    lemma_known_words();
    lemma_word_is_no_number(word);
    assert(word[0] == 'j' || word[0] == 't');
}

/// The fields of a well-formed name are the parts it was written from.
pub proof fn lemma_fields_of_well_formed_name(parts: NameParts)
    requires
        parts.well_formed(),
    ensures
        split_fields(parts.file_name()) == parts.stem_fields().push(parts.extension),
{
    let stem = parts.stem_fields();
    lemma_label_has_no_separator(parts.media_label);
    lemma_number_has_no_separator(parts.index);
    lemma_extension_is_only_an_extension(parts.extension);
    if parts.group is Some {
        lemma_number_has_no_separator(parts.group->0.number);
    }
    if parts.scan_tag is Some {
        lemma_scan_tag_is_only_a_scan_tag(parts.scan_tag->0);
    }
    assert(no_separator(parts.last_name.push(parts.first_name_initial)));
    assert forall|i: int| 0 <= i < stem.len() implies no_separator(#[trigger] stem[i]) by {
        if parts.group is Some && parts.group->0.character is Some {
            assert(no_separator(seq![parts.group->0.character->0]));
        }
    }
    lemma_split_joined(stem, '_');
    lemma_split_one_more_field(joined(stem, '_'), '.', parts.extension);
}

impl NameParts {
    /// All fields of the name, the extension last.
    pub open spec fn fields(self) -> Seq<Seq<char>> {
        self.stem_fields().push(self.extension)
    }

    /// The first number in the name: the group number where there is one, else the
    /// index number.
    spec fn first_number(self) -> Seq<char> {
        match self.group {
            Some(group) => group.number,
            None => self.index,
        }
    }

    /// Where the reader stands when the index number is due.
    spec fn cursor_at_index(self) -> nat {
        if self.group is Some && self.group->0.character is Some {
            4
        } else {
            3
        }
    }

    /// Where the reader stands when the scan tag is due.
    spec fn cursor_at_scan_tag(self) -> nat {
        if self.group is Some {
            self.cursor_at_index() + 1
        } else {
            self.cursor_at_index()
        }
    }

    /// Where the reader stands when the extension is due.
    spec fn cursor_at_extension(self) -> nat {
        if self.scan_tag is Some {
            self.cursor_at_scan_tag() + 1
        } else {
            self.cursor_at_scan_tag()
        }
    }

    /// The reader after the client's field, if all goes as the parts say.
    spec fn named(self) -> ReadProgress {
        ReadProgress {
            section: SectionReadState::MediaType,
            cursor: 1,
            last_name: self.last_name,
            first_name_initial: self.first_name_initial,
            ..start_of_name()
        }
    }

    /// The reader after the media label.
    spec fn typed(self, data: PhotoMediaData) -> ReadProgress {
        ReadProgress {
            section: SectionReadState::GroupNumber,
            cursor: 2,
            media_type: Some(kind_of_label(self.media_label)->0.with(data)),
            ..self.named()
        }
    }

    /// The reader after the first number.
    spec fn numbered(self, data: PhotoMediaData) -> ReadProgress {
        ReadProgress {
            section: SectionReadState::GroupCharacter,
            cursor: 3,
            group_number: number_of_word(self.first_number()),
            group_number_precision: Some(self.first_number().len()),
            ..self.typed(data)
        }
    }

    /// The reader when the index number is due.
    spec fn grouped(self, data: PhotoMediaData) -> ReadProgress {
        ReadProgress {
            section: SectionReadState::IndexNumber,
            cursor: self.cursor_at_index(),
            group_character: match self.group {
                Some(group) => group.character,
                None => None,
            },
            ..self.numbered(data)
        }
    }

    /// The reader when the scan tag is due.
    spec fn indexed(self, data: PhotoMediaData) -> ReadProgress {
        ReadProgress {
            section: SectionReadState::ScanType,
            cursor: self.cursor_at_scan_tag(),
            group_number: match self.group {
                Some(group) => number_of_word(group.number),
                None => None,
            },
            group_number_precision: match self.group {
                Some(group) => Some(group.number.len()),
                None => None,
            },
            index_number: number_of_word(self.index)->0,
            index_number_precision: self.index.len(),
            ..self.grouped(data)
        }
    }

    /// The reader when the extension is due.
    spec fn scanned(self, data: PhotoMediaData) -> ReadProgress {
        ReadProgress {
            section: SectionReadState::Extension,
            cursor: self.cursor_at_extension(),
            scan_type: match self.scan_tag {
                Some(tag) => scan_type_of_tag(tag)->0,
                None => ScanType::Default,
            },
            ..self.indexed(data)
        }
    }

    /// The reader at the end of the name.
    spec fn ended(self, data: PhotoMediaData) -> ReadProgress {
        ReadProgress {
            section: SectionReadState::End,
            cursor: self.cursor_at_extension() + 1,
            file_extension: extension_of_word(self.extension)->0,
            ..self.scanned(data)
        }
    }
}

/// Which part stands in which field.
proof fn lemma_field_positions(parts: NameParts)
    ensures
        parts.fields().len() == parts.cursor_at_extension() + 1,
        parts.fields()[0] == parts.last_name.push(parts.first_name_initial),
        parts.fields()[1] == parts.media_label,
        parts.fields()[2] == parts.first_number(),
        parts.cursor_at_index() == 4 ==> parts.fields()[3] == seq![parts.group->0.character->0],
        parts.group is Some ==> parts.fields()[parts.cursor_at_index() as int] == parts.index,
        parts.scan_tag is Some ==> parts.fields()[parts.cursor_at_scan_tag() as int] == parts.scan_tag->0,
        parts.fields()[parts.cursor_at_extension() as int] == parts.extension,
{
}

/// One section done, the reader goes on from where the section left it.
proof fn lemma_reader_goes_on(
    progress: ReadProgress,
    next: ReadProgress,
    fields: Seq<Seq<char>>,
    photo: Result<PhotoMediaData, PhotoMediaDataErrorView>,
)
    requires
        !(progress.section is End),
        read_section(progress, field_at(fields, progress.cursor), photo) == Ok::<
            ReadProgress,
            MediaFileParseErrorView,
        >(next),
    ensures
        read_sections(progress, fields, photo) == read_sections(next, fields, photo),
{
}

/// The client, the media label and the first number of a well-formed name are read
/// as its parts say.
proof fn lemma_reads_to_first_number(parts: NameParts, data: PhotoMediaData)
    requires
        parts.well_formed(),
    ensures
        read_sections(
            start_of_name(),
            parts.fields(),
            Ok::<PhotoMediaData, PhotoMediaDataErrorView>(data),
        ) == read_sections(
            parts.numbered(data),
            parts.fields(),
            Ok::<PhotoMediaData, PhotoMediaDataErrorView>(data),
        ),
{
    let photo = Ok::<PhotoMediaData, PhotoMediaDataErrorView>(data);
    let fields = parts.fields();
    lemma_field_positions(parts);
    let client = parts.last_name.push(parts.first_name_initial);
    assert(client.drop_last() =~= parts.last_name);
    let named = parts.named();
    let typed = parts.typed(data);
    let numbered = parts.numbered(data);
    lemma_reader_goes_on(start_of_name(), named, fields, photo);
    lemma_reader_goes_on(named, typed, fields, photo);
    lemma_reader_goes_on(typed, numbered, fields, photo);
}

/// The group character and the index number of a well-formed name are read as its
/// parts say.
proof fn lemma_reads_to_index_number(parts: NameParts, data: PhotoMediaData)
    requires
        parts.well_formed(),
    ensures
        read_sections(
            parts.numbered(data),
            parts.fields(),
            Ok::<PhotoMediaData, PhotoMediaDataErrorView>(data),
        ) == read_sections(
            parts.indexed(data),
            parts.fields(),
            Ok::<PhotoMediaData, PhotoMediaDataErrorView>(data),
        ),
{
    let photo = Ok::<PhotoMediaData, PhotoMediaDataErrorView>(data);
    let fields = parts.fields();
    lemma_field_positions(parts);
    lemma_extension_is_only_an_extension(parts.extension);
    if parts.scan_tag is Some {
        lemma_scan_tag_is_only_a_scan_tag(parts.scan_tag->0);
    }
    let numbered = parts.numbered(data);
    let grouped = parts.grouped(data);
    let indexed = parts.indexed(data);
    // The field after the first number: a group character, the index number, or,
    // where the first number was the index number itself, what follows that.
    assert(field_at(fields, 3).len() == 1 <==> parts.cursor_at_index() == 4);
    lemma_reader_goes_on(numbered, grouped, fields, photo);
    assert(number_of_word(field_at(fields, grouped.cursor)) is Some <==> parts.group is Some);
    lemma_reader_goes_on(grouped, indexed, fields, photo);
}

/// The scan tag and the extension of a well-formed name are read as its parts say,
/// and nothing is left over.
proof fn lemma_reads_to_end(parts: NameParts, data: PhotoMediaData)
    requires
        parts.well_formed(),
    ensures
        read_sections(
            parts.indexed(data),
            parts.fields(),
            Ok::<PhotoMediaData, PhotoMediaDataErrorView>(data),
        ) == Ok::<ReadProgress, MediaFileParseErrorView>(parts.ended(data)),
{
    let photo = Ok::<PhotoMediaData, PhotoMediaDataErrorView>(data);
    let fields = parts.fields();
    lemma_field_positions(parts);
    lemma_extension_is_only_an_extension(parts.extension);
    let indexed = parts.indexed(data);
    let scanned = parts.scanned(data);
    let ended = parts.ended(data);
    lemma_reader_goes_on(indexed, scanned, fields, photo);
    lemma_reader_goes_on(scanned, ended, fields, photo);
    assert(read_sections(ended, fields, photo) == Ok::<ReadProgress, MediaFileParseErrorView>(ended));
}

/// Reading a well-formed name gives the record of its parts: every part comes back
/// as it was written.
pub proof fn lemma_well_formed_name_reads_back(parts: NameParts, path: Seq<char>, data: PhotoMediaData)
    requires
        parts.well_formed(),
    ensures
        media_file_of_name(
            path,
            true,
            parts.file_name(),
            Ok::<PhotoMediaData, PhotoMediaDataErrorView>(data),
        ) == Ok::<MediaFileView, MediaFileParseErrorView>(parts.record(path, data)),
        parts.record(path, data).wf(),
{
    lemma_fields_of_well_formed_name(parts);
    lemma_reads_to_first_number(parts, data);
    lemma_reads_to_index_number(parts, data);
    lemma_reads_to_end(parts, data);
}

/// A name whose first field has fewer than two characters is too short, whatever
/// follows the field.
pub proof fn lemma_short_client_fails(
    path: Seq<char>,
    file_name: Seq<char>,
    photo: Result<PhotoMediaData, PhotoMediaDataErrorView>,
)
    requires
        split_fields(file_name)[0].len() < 2,
    ensures
        media_file_of_name(path, true, file_name, photo) == Err::<MediaFileView, MediaFileParseErrorView>(
            MediaFileParseErrorView::NameShort(split_fields(file_name)[0]),
        ),
{
    lemma_split_fields_nonempty(file_name);
}

/// A name whose second field is none of the media labels fails as unrecognized,
/// whatever the file's tags are and whatever follows the field.
pub proof fn lemma_unknown_label_fails(
    path: Seq<char>,
    file_name: Seq<char>,
    photo: Result<PhotoMediaData, PhotoMediaDataErrorView>,
)
    requires
        split_fields(file_name).len() >= 2,
        split_fields(file_name)[0].len() >= 2,
        kind_of_label(split_fields(file_name)[1]) is None,
    ensures
        media_file_of_name(path, true, file_name, photo) == Err::<MediaFileView, MediaFileParseErrorView>(
            MediaFileParseErrorView::MediaTypeError(
                MediaTypeErrorView::UnrecognizedMediaType(split_fields(file_name)[1]),
            ),
        ),
{
    let fields = split_fields(file_name);
    let named = read_section(start_of_name(), field_at(fields, 0), photo)->Ok_0;
    assert(read_sections(start_of_name(), fields, photo) == read_sections(named, fields, photo));
}

} // verus!
