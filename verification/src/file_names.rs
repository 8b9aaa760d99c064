//! How a file name falls into fields.

use vstd::prelude::*;

verus! {

/// The two characters that part the fields of a file name.
pub open spec fn is_separator(c: char) -> bool {
    c == '.' || c == '_'
}

/// The fields of a name: what stands before, between and after its separators, in
/// order. A name with `n` separators has `n + 1` fields, some of them possibly empty.
pub open spec fn split_fields(name: Seq<char>) -> Seq<Seq<char>>
    decreases name.len(),
{
    if name.len() == 0 {
        seq![Seq::<char>::empty()]
    } else {
        let before = split_fields(name.drop_last());
        if is_separator(name.last()) {
            before.push(Seq::<char>::empty())
        } else {
            before.update(before.len() - 1, before.last().push(name.last()))
        }
    }
}

/// Whether `words` holds, in order, the fields of `name`.
pub open spec fn holds_fields(words: Seq<String>, name: Seq<char>) -> bool {
    &&& words.len() == split_fields(name).len()
    &&& forall|i: int| 0 <= i < words.len() ==> (#[trigger] words[i])@ == split_fields(name)[i]
}

/// The regular expression that matches one separator.
pub open spec fn separator_pattern() -> Seq<char> {
    "[._]"@
}

/// Splits `name` with the regex crate: `Regex::new` compiles `pattern` and
/// `Regex::split` yields the substrings that the matches delimit. Trusted: for the
/// pattern that matches exactly one `.` or one `_`, these are the fields of `name`.
#[verifier::external_body]
pub(crate) fn split_with(pattern: &str, name: &str) -> (words: Vec<String>)
    requires
        pattern@ == separator_pattern(),
    ensures
        holds_fields(words@, name@),
{
    let separator = regex::Regex::new(pattern).unwrap();
    separator.split(name).map(String::from).collect()
}

/// A name always has a first field.
pub proof fn lemma_split_fields_nonempty(name: Seq<char>)
    ensures
        split_fields(name).len() >= 1,
    decreases name.len(),
{
    if name.len() > 0 {
        lemma_split_fields_nonempty(name.drop_last());
    }
}

/// The fields of a file name, in order.
pub fn split_file_name(name: &str) -> (words: Vec<String>)
    ensures
        holds_fields(words@, name@),
        words.len() >= 1,
{
    proof {
        lemma_split_fields_nonempty(name@);
    }
    split_with("[._]", name)
}

} // verus!
