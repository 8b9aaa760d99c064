//! The image formats a file name may end in.

use vstd::prelude::*;
use crate::text::{same_text, owned};

verus! {

/// The format named by a file's extension; `Unset` while no extension has been read.
#[derive(Debug, Clone, Copy, PartialEq, Eq, Structural)]
pub enum FileExtensionType {
    Unset,
    Jpeg,
    Tiff,
}

/// The format that an extension stands for, if it is a known one.
pub open spec fn extension_of_word(word: Seq<char>) -> Option<FileExtensionType> {
    if word == "jpg"@ || word == "jpeg"@ {
        Some(FileExtensionType::Jpeg)
    } else if word == "tif"@ || word == "tiff"@ {
        Some(FileExtensionType::Tiff)
    } else {
        None
    }
}

/// The extension by which a format is shown to the operator.
pub open spec fn extension_label(extension: FileExtensionType) -> Seq<char> {
    match extension {
        FileExtensionType::Unset => ""@,
        FileExtensionType::Jpeg => "jpg"@,
        FileExtensionType::Tiff => "tif"@,
    }
}

impl FileExtensionType {
    /// Reads an extension: `jpg`, `jpeg`, `tif` or `tiff`.
    pub fn from_str(input: &str) -> (r: Result<FileExtensionType, ()>)
        ensures
            r == match extension_of_word(input@) {
                Some(extension) => Ok::<FileExtensionType, ()>(extension),
                None => Err(()),
            },
    {
        if same_text(input, "jpg") || same_text(input, "jpeg") {
            Ok(FileExtensionType::Jpeg)
        } else if same_text(input, "tif") || same_text(input, "tiff") {
            Ok(FileExtensionType::Tiff)
        } else {
            Err(())
        }
    }

    /// The extension by which this format is shown to the operator.
    pub fn to_string(&self) -> (r: String)
        ensures
            r@ == extension_label(*self),
    {
        match self {
            FileExtensionType::Unset => owned(""),
            FileExtensionType::Jpeg => owned("jpg"),
            FileExtensionType::Tiff => owned("tif"),
        }
    }
}

} // verus!
