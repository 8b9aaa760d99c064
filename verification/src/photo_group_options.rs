//! What is expected, or was counted, of one media type.

use vstd::prelude::*;
use crate::error::{FCError, FCErrorView};
use crate::media_file::{MediaFile, MediaFileView};
use crate::outcome::outcome_view;

verus! {

/// Expected or counted quantities of one media type. The operator fills one in as an
/// expectation; counting a folder fills one in as an observation.
#[derive(Debug, Clone, Copy, PartialEq, Eq, Structural)]
pub struct PhotoGroupOptions {
    /// The resolution every file must have; `None` asks for no resolution check.
    pub dpi: Option<u64>,
    /// Files from the walk-up scanner.
    pub scanner: u64,
    /// Hand-scanned files.
    pub hs: u64,
    /// Oversized hand-scanned files; only prints have any.
    pub oshs: u64,
    /// Whether every file must have been corrected.
    pub is_corrected: bool,
    pub index_precision: u64,
}

/// The count that a request leaves out.
pub fn default_0() -> (r: u64)
    ensures
        r == 0,
{
    0
}

/// The correction flag that a request leaves out.
pub fn default_false() -> (r: bool)
    ensures
        !r,
{
    false
}

/// The index precision that a request leaves out.
pub fn default_3() -> (r: u64)
    ensures
        r == 3,
{
    3
}

/// The resolution check: a file passes where no resolution is asked for, or where
/// its own is the one asked for.
pub open spec fn dpi_check(options: PhotoGroupOptions, file: MediaFileView) -> Result<(), FCErrorView> {
    match options.dpi {
        Some(expected) => if file.media_type.data().dpi != expected {
            Err(FCErrorView::IncorrectDpi(expected, file.media_type.data().dpi, file))
        } else {
            Ok(())
        },
        None => Ok(()),
    }
}

impl PhotoGroupOptions {
    /// The entry with nothing counted and nothing asked for.
    pub open spec fn blank() -> PhotoGroupOptions {
        PhotoGroupOptions { dpi: None, scanner: 0, hs: 0, oshs: 0, is_corrected: false, index_precision: 0 }
    }

    /// Nothing counted and nothing asked for.
    pub fn new() -> (r: PhotoGroupOptions)
        ensures
            r == PhotoGroupOptions::blank(),
    {
        PhotoGroupOptions { dpi: None, scanner: 0, hs: 0, oshs: 0, is_corrected: false, index_precision: 0 }
    }

    /// Checks a file's resolution against the one asked for here.
    pub fn verify_dpi(&self, media_file: &MediaFile) -> (r: Result<(), FCError>)
        ensures
            outcome_view(r) == dpi_check(*self, media_file@),
    {
        match self.dpi {
            Some(expected) => {
                let found = media_file.media_type.photo_data().dpi;
                if found != expected {
                    Err(FCError::IncorrectDpi(expected, found, media_file.clone()))
                } else {
                    Ok(())
                }
            },
            None => Ok(()),
        }
    }
}

/// Without a resolution asked for, no file fails the resolution check, whatever its
/// own resolution; with one asked for, exactly the files of another resolution
/// fail, and the failure tells both resolutions, the expected one first.
pub proof fn lemma_dpi_is_checked_only_on_request(options: PhotoGroupOptions, file: MediaFileView)
    ensures
        options.dpi is None ==> dpi_check(options, file) is Ok,
        options.dpi is Some ==> (dpi_check(options, file) is Ok <==> file.media_type.data().dpi == options.dpi->0),
        dpi_check(options, file) is Err ==> dpi_check(options, file)->Err_0 == FCErrorView::IncorrectDpi(
            options.dpi->0,
            file.media_type.data().dpi,
            file,
        ),
{
}

} // verus!
