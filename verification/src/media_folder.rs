//! A folder as the final check sees it.

use vstd::prelude::*;
use crate::media_file::{file_views, MediaFile, MediaFileView};
use crate::media_groups::MediaGroupValues;

verus! {

/// The records of a folder's files, in the order in which the folder was listed, and
/// what was counted of them.
pub struct MediaFolder {
    pub files: Vec<MediaFile>,
    pub group_options: MediaGroupValues,
}

/// A folder, each of its records read through its view.
pub struct MediaFolderView {
    pub files: Seq<MediaFileView>,
    pub group_options: MediaGroupValues,
}

impl View for MediaFolder {
    type V = MediaFolderView;

    open spec fn view(&self) -> MediaFolderView {
        MediaFolderView { files: file_views(self.files@), group_options: self.group_options }
    }
}

} // verus!
