//! How a file was acquired.

use vstd::prelude::*;
use crate::text::{same_text, owned};

verus! {

/// The acquisition method named by a file.
#[derive(Debug, Clone, Copy, PartialEq, Eq, Structural)]
pub enum ScanType {
    /// Walk-up batch scanner; the method of a name that carries no tag.
    Default,
    HandScan,
    OversizedHandScan,
}

/// The scan type that a tag of a file name stands for, if it is one of the known tags.
pub open spec fn scan_type_of_tag(tag: Seq<char>) -> Option<ScanType> {
    if tag == ""@ {
        Some(ScanType::Default)
    } else if tag == "HS"@ {
        Some(ScanType::HandScan)
    } else if tag == "OSHS"@ {
        Some(ScanType::OversizedHandScan)
    } else {
        None
    }
}

/// The words by which a scan type is shown to the operator.
pub open spec fn scan_type_label(scan_type: ScanType) -> Seq<char> {
    match scan_type {
        ScanType::Default => "Default"@,
        ScanType::HandScan => "Hand Scan"@,
        ScanType::OversizedHandScan => "Oversized Hand Scan"@,
    }
}

impl ScanType {
    /// Reads a scan-type tag: the empty tag, `HS` or `OSHS`.
    pub fn from_str(input: &str) -> (r: Result<ScanType, ()>)
        ensures
            r == match scan_type_of_tag(input@) {
                Some(scan_type) => Ok::<ScanType, ()>(scan_type),
                None => Err(()),
            },
    {
        if same_text(input, "") {
            Ok(ScanType::Default)
        } else if same_text(input, "HS") {
            Ok(ScanType::HandScan)
        } else if same_text(input, "OSHS") {
            Ok(ScanType::OversizedHandScan)
        } else {
            Err(())
        }
    }

    /// The words by which this scan type is shown to the operator.
    pub fn to_string(&self) -> (r: String)
        ensures
            r@ == scan_type_label(*self),
    {
        match self {
            ScanType::Default => owned("Default"),
            ScanType::HandScan => owned("Hand Scan"),
            ScanType::OversizedHandScan => owned("Oversized Hand Scan"),
        }
    }
}

} // verus!
