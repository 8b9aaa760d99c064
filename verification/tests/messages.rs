use little_exif::exif_tag::ExifTag;
use little_exif::metadata::Metadata;
use little_exif::rational::uR64;
use scan_qc::error::FCError;
use scan_qc::file_extension_type::FileExtensionType;
use scan_qc::jobs::{service_router, Job, ServicesError};
use scan_qc::media_file::{MediaFile, MediaFileParseError};
use scan_qc::media_groups::MediaGroupsError;
use scan_qc::media_types::{MediaType, MediaTypeError};
use scan_qc::photo_media_data::PhotoMediaDataError;
use scan_qc::scan_type::ScanType;
use scan_qc::send_text::{frame_text, WsStatus};

fn file(name: &str) -> MediaFile {
    let mut metadata = Metadata::new();
    metadata.set_tag(ExifTag::XResolution(vec![uR64 { nominator: 300, denominator: 1 }]));
    metadata.set_tag(ExifTag::YResolution(vec![uR64 { nominator: 300, denominator: 1 }]));
    MediaFile::from_path(&format!("scans\\{name}"), true, name, &Some(metadata)).unwrap()
}

#[test]
fn tag_failures_are_told() {
    assert_eq!(PhotoMediaDataError::CouldNotReadPath("a\\b.jpg".into()).to_string(), "could not read a\\b.jpg");
    assert_eq!(PhotoMediaDataError::IncorrectDpi(600, 300).to_string(), "expected 600 dpi, photo had 300 dpi");
    assert_eq!(PhotoMediaDataError::NotCorrected.to_string(), "was not corrected");
    assert_eq!(
        PhotoMediaDataError::DifferentXYDpi(300, 4294967295).to_string(),
        "different dpi values found along the X (300) and Y (4294967295) dimensions"
    );
    assert_eq!(PhotoMediaDataError::NoDpiFound.to_string(), "no dpi tag found");
    assert_eq!(
        PhotoMediaDataError::BadlyFormattedExifTag("dpi".into()).to_string(),
        "badly formatted dpi couldn't be read"
    );
}

#[test]
fn media_type_failures_are_told() {
    assert_eq!(MediaTypeError::CouldNotReadPath("x".into()).to_string(), "could not read x");
    assert_eq!(
        MediaTypeError::PhotoMediaDataError(PhotoMediaDataError::NoDpiFound).to_string(),
        "error creating photo media data: no dpi tag found"
    );
    assert_eq!(MediaTypeError::UnrecognizedMediaType("Film".into()).to_string(), "unrecognized media type Film");
}

#[test]
fn name_failures_are_told() {
    assert_eq!(MediaFileParseError::NameShort("D".into()).to_string(), "name \"D\" was too short");
    assert_eq!(MediaFileParseError::NotAFile("a\\b".into()).to_string(), "path \"a\\b\" is not a file");
    assert_eq!(
        MediaFileParseError::MediaTypeError(MediaTypeError::UnrecognizedMediaType("Film".into())).to_string(),
        "unrecognized media type Film"
    );
    assert_eq!(
        MediaFileParseError::ExpectedGroupOrIndexNumber("abc".into()).to_string(),
        "unrecognized text \"abc\" where a group or index number should have been"
    );
    assert_eq!(MediaFileParseError::NoIndexNumber.to_string(), "no index number could be found");
    assert_eq!(MediaFileParseError::InvalidExtension("".into()).to_string(), "invalid extension \"\"");
    assert_eq!(MediaFileParseError::ExpectedEnd("bak".into()).to_string(), "unexpected additional field \"bak\"");
}

#[test]
fn count_failures_are_told() {
    assert_eq!(
        MediaGroupsError::IncorrectMediaAndScanTypeCount("scanner prints".into(), 2, 3).to_string(),
        "expected 3 scanner prints, counted 2"
    );
    let slide = file("DoeJ_Slides_001.jpg");
    assert_eq!(
        MediaGroupsError::InvalidScanTypeMediaGroupCombo(
            ScanType::OversizedHandScan,
            slide.media_type,
            "DoeJ_Slides_001_OSHS.jpg".into()
        )
        .to_string(),
        "DoeJ_Slides_001_OSHS.jpg can't be of type Slides and be scanned as a/an Oversized Hand Scan"
    );
    assert_eq!(MediaGroupsError::NoneOfFileTypeFound("slides".into()).to_string(), "expected slides, but found none");
    assert_eq!(
        MediaGroupsError::OutOfPlaceMediaType("negatives".into()).to_string(),
        "found negatives, but wasn't expecting any"
    );
}

#[test]
fn check_failures_are_told() {
    let print = file("DoeJ_Prints_001.jpg");
    let media_type: MediaType = print.media_type;
    let told = |error: FCError| error.to_string();
    assert_eq!(told(FCError::DeserializeError("missing field".into())), "could not deserialize request: missing field");
    assert_eq!(told(FCError::InvalidRequest("nothing asked".into())), "invalid request: nothing asked");
    assert_eq!(
        told(FCError::InsufficientGroupNumberPrecision(100, 2)),
        "requested a group number 100 with only 2 digits of precision"
    );
    assert_eq!(
        told(FCError::GroupNumberPrecisionTooHigh(7)),
        "group number precision of 7 is higher than the maximum 6"
    );
    assert_eq!(told(FCError::InvalidDirectory("bad pattern".into())), "invalid directory: bad pattern");
    assert_eq!(told(FCError::NoFilesInDirectory("C:\\x".into())), "no files could be found in/at C:\\x");
    assert_eq!(told(FCError::InvalidFile("denied".into())), "invalid file path: denied");
    assert_eq!(
        told(FCError::MediaGroupingError(MediaGroupsError::NoneOfFileTypeFound("prints".into()))),
        "error grouping media files: expected prints, but found none"
    );
    assert_eq!(
        told(FCError::MediaFileParseError("C:\\x\\D_1.jpg".into(), MediaFileParseError::NameShort("D".into()))),
        "error parsing C:\\x\\D_1.jpg: name \"D\" was too short"
    );
    assert_eq!(
        told(FCError::IncorrectMediaCount(MediaGroupsError::IncorrectMediaAndScanTypeCount(
            "handscan slides".into(),
            0,
            18446744073709551615
        ))),
        "incorrect media count: expected 18446744073709551615 handscan slides, counted 0"
    );
    assert_eq!(
        told(FCError::IncompatibleFileExtension(media_type, FileExtensionType::Unset, print.clone())),
        "file DoeJ_Prints_001.jpg has a media type of Prints but an incompatible file extension of "
    );
    assert_eq!(told(FCError::OutOfPlaceMediaType(media_type)), "found a file with Prints, but wasn't expecting any");
    assert_eq!(
        told(FCError::IncorrectLastName("Roe".into(), "Doe".into(), print.clone())),
        "file DoeJ_Prints_001.jpg had last name Doe when it should be Roe"
    );
    assert_eq!(
        told(FCError::IncorrectFirstInitial('K', 'J', print.clone())),
        "file DoeJ_Prints_001.jpg had a first initial J when it should have been K"
    );
    assert_eq!(
        told(FCError::IncorrectDpi(600, 300, print.clone())),
        "file DoeJ_Prints_001.jpg had dpi 300 when it should have been 600"
    );
    assert_eq!(told(FCError::NotCorrected(print.clone())), "file DoeJ_Prints_001.jpg has not been corrected");
    assert_eq!(
        told(FCError::MissingGroupNumber(3, print.clone())),
        "file DoeJ_Prints_001.jpg had no group number when it should have been 3"
    );
    assert_eq!(
        told(FCError::IncorrectGroupNumber(3, 4, print.clone())),
        "file DoeJ_Prints_001.jpg had group number 4 when it should have been 3"
    );
    assert_eq!(
        told(FCError::MissingGroupChar('A', print.clone())),
        "file DoeJ_Prints_001.jpg had no group character when it should have been A"
    );
    assert_eq!(
        told(FCError::IncorrectGroupChar('A', 'é', print.clone())),
        "file DoeJ_Prints_001.jpg had group character é when it should have been A"
    );
    assert_eq!(
        told(FCError::IncorrectGroupNumberPrecision(2, 3, print.clone())),
        "file DoeJ_Prints_001.jpg had a group number precision of 3 digits when it should have been 2 digits"
    );
    assert_eq!(
        told(FCError::RepeatedIndexNumber(2, "b.jpg".into(), "a.jpg".into())),
        "files b.jpg and a.jpg have the same index number 2"
    );
    assert_eq!(
        told(FCError::IncorrectIndexNumberPrecision(3, 2, print)),
        "file DoeJ_Prints_001.jpg had an index number precision of 2 digits when it should have been 3"
    );
    assert_eq!(told(FCError::FolderSkippedIndexNumber(3)), "folder skipped index number 3");
}

#[test]
fn frames_carry_message_and_status() {
    assert_eq!(
        frame_text("Connected to a worker!", Some(WsStatus::Success)),
        "{\"msg\":\"Connected to a worker!\", \"status\":\"success\"}"
    );
    assert_eq!(frame_text("", Some(WsStatus::Busy)), "{\"msg\":\"\", \"status\":\"busy\"}");
    assert_eq!(frame_text("x", Some(WsStatus::Failure)), "{\"msg\":\"x\", \"status\":\"failure\"}");
    assert_eq!(frame_text("x", None), "{\"msg\":\"x\", \"status\":\"\"}");
}

#[test]
fn frames_escape_double_quotes() {
    assert_eq!(
        frame_text("name \"D\" was too short", None),
        "{\"msg\":\"name \\\"D\\\" was too short\", \"status\":\"\"}"
    );
    assert_eq!(frame_text("\"\"", None), "{\"msg\":\"\\\"\\\"\", \"status\":\"\"}");
    assert_eq!(frame_text("a\\b é", None), "{\"msg\":\"a\\b é\", \"status\":\"\"}");
}

#[test]
fn status_words() {
    assert_eq!(WsStatus::Success.to_string(), "success");
    assert_eq!(WsStatus::Failure.to_string(), "failure");
    assert_eq!(WsStatus::Busy.to_string(), "busy");
}

#[test]
fn jobs_are_found_by_name() {
    assert_eq!(service_router("final_check").unwrap(), Job::FinalCheck);
    assert_eq!(service_router("correct_slides").unwrap(), Job::CorrectSlides);
    match service_router("check_is_corrected") {
        Err(ServicesError::InvalidJob(Some(message))) => assert_eq!(message, "Invalid job type specified in request!"),
        other => panic!("{other:?}"),
    }
    assert!(matches!(service_router(""), Err(ServicesError::InvalidJob(Some(_)))));
}

#[test]
fn job_failures_are_told() {
    assert_eq!(ServicesError::RequestParseError("eof".into()).to_string(), "could not parse base json: eof");
    assert_eq!(ServicesError::InvalidJob(None).to_string(), "Invalid job requested!");
    assert_eq!(ServicesError::InvalidJob(Some("no".into())).to_string(), "Invalid job requested: no");
    assert_eq!(ServicesError::InvalidFinalCheck("folder skipped".into()).to_string(), "folder skipped");
}
