use little_exif::exif_tag::ExifTag;
use little_exif::metadata::Metadata;
use little_exif::rational::uR64;
use scan_qc::error::FCError;
use scan_qc::file_extension_type::FileExtensionType;
use scan_qc::final_check_request::{
    check_client_name, check_extension, check_group_char, check_group_number, check_index_number,
    FinalCheckRequest,
};
use scan_qc::media_file::MediaFile;
use scan_qc::media_folder::MediaFolder;
use scan_qc::media_groups::{MediaGroupValues, MediaGroupsError};
use scan_qc::media_types::MediaType;
use scan_qc::photo_group_options::PhotoGroupOptions;
use scan_qc::photo_media_data::PhotoMediaData;
use scan_qc::scan_type::ScanType;

fn container(dpi: u32, software: &str) -> Option<Metadata> {
    let mut metadata = Metadata::new();
    metadata.set_tag(ExifTag::XResolution(vec![uR64 { nominator: dpi, denominator: 1 }]));
    metadata.set_tag(ExifTag::YResolution(vec![uR64 { nominator: dpi, denominator: 1 }]));
    metadata.set_tag(ExifTag::Software(String::from(software)));
    Some(metadata)
}

fn file_with(name: &str, dpi: u32, software: &str) -> MediaFile {
    MediaFile::from_path(&format!("scans\\{name}"), true, name, &container(dpi, software)).unwrap()
}

fn file(name: &str) -> MediaFile {
    file_with(name, 300, "scanner firmware")
}

fn expecting(scanner: u64, hs: u64, oshs: u64) -> PhotoGroupOptions {
    PhotoGroupOptions { dpi: None, scanner, hs, oshs, is_corrected: false, index_precision: 3 }
}

fn request(media_group_values: MediaGroupValues) -> FinalCheckRequest {
    FinalCheckRequest {
        first_name: String::from("Jane"),
        last_name: String::from("Doe"),
        custom_group_name: None,
        group_num: None,
        group_char: None,
        group_num_precision: 2,
        index_num_precision: 3,
        media_group_values,
    }
}

fn prints_only(options: PhotoGroupOptions) -> MediaGroupValues {
    MediaGroupValues { slides: None, prints: Some(options), negatives: None }
}

fn folder(files: Vec<MediaFile>) -> MediaFolder {
    let group_options = MediaGroupValues::from_media_files(&files).unwrap();
    MediaFolder { files, group_options }
}

fn prints(indices: &[u32]) -> Vec<MediaFile> {
    indices.iter().map(|index| file(&format!("DoeJ_Prints_{index:03}.jpg"))).collect()
}

#[test]
fn counting_by_media_and_scan_type() {
    let files = vec![
        file("DoeJ_Prints_001.jpg"),
        file("DoeJ_Prints_002_HS.jpg"),
        file("DoeJ_Prints_003_OSHS.jpg"),
        file("DoeJ_Prints_004_OSHS.jpg"),
        file("DoeJ_Slides_005.jpg"),
        file("DoeJ_Slides_006.jpg"),
        file("DoeJ_Slides_007_HS.jpg"),
    ];
    let counted = MediaGroupValues::from_media_files(&files).unwrap();
    assert_eq!(
        counted.prints,
        Some(PhotoGroupOptions { dpi: None, scanner: 1, hs: 1, oshs: 2, is_corrected: false, index_precision: 0 })
    );
    assert_eq!(
        counted.slides,
        Some(PhotoGroupOptions { dpi: None, scanner: 2, hs: 1, oshs: 0, is_corrected: false, index_precision: 0 })
    );
    assert_eq!(counted.negatives, None);
}

#[test]
fn counting_nothing_gives_no_entry() {
    let counted = MediaGroupValues::from_media_files(&Vec::new()).unwrap();
    assert_eq!(counted, MediaGroupValues { slides: None, prints: None, negatives: None });
}

#[test]
fn a_media_type_with_only_hand_scans_is_present() {
    let counted = MediaGroupValues::from_media_files(&vec![file("DoeJ_Negs_001_HS.tif")]).unwrap();
    assert_eq!(
        counted.negatives,
        Some(PhotoGroupOptions { dpi: None, scanner: 0, hs: 1, oshs: 0, is_corrected: false, index_precision: 0 })
    );
    assert_eq!(counted.prints, None);
    assert_eq!(counted.slides, None);
}

#[test]
fn oversized_slides_and_negatives_cannot_be_counted() {
    let files = vec![file("DoeJ_Prints_001_OSHS.jpg"), file("DoeJ_Slides_002_OSHS.jpg"), file("DoeJ_Negs_003_OSHS.jpg")];
    match MediaGroupValues::from_media_files(&files) {
        Err(MediaGroupsError::InvalidScanTypeMediaGroupCombo(scan_type, media_type, file_name)) => {
            assert_eq!(scan_type, ScanType::OversizedHandScan);
            assert!(matches!(media_type, MediaType::Slides(_)));
            assert_eq!(file_name, "DoeJ_Slides_002_OSHS.jpg");
        }
        other => panic!("{other:?}"),
    }
    match MediaGroupValues::from_media_files(&vec![file("DoeJ_Negs_003_OSHS.jpg")]) {
        Err(MediaGroupsError::InvalidScanTypeMediaGroupCombo(_, media_type, file_name)) => {
            assert!(matches!(media_type, MediaType::Negatives(_)));
            assert_eq!(file_name, "DoeJ_Negs_003_OSHS.jpg");
        }
        other => panic!("{other:?}"),
    }
}

#[test]
fn a_count_that_differs_tells_both_values() {
    let counted = prints_only(expecting(2, 0, 0));
    match counted.counts_equal(prints_only(expecting(3, 0, 0))) {
        Err(MediaGroupsError::IncorrectMediaAndScanTypeCount(name, counted, expected)) => {
            assert_eq!(name, "scanner prints");
            assert_eq!(counted, 2);
            assert_eq!(expected, 3);
        }
        other => panic!("{other:?}"),
    }
}

#[test]
fn every_count_has_its_name() {
    let all = |options| MediaGroupValues { slides: Some(options), prints: Some(options), negatives: Some(options) };
    let name_of = |counted: MediaGroupValues, expected: MediaGroupValues| match counted.counts_equal(expected) {
        Err(MediaGroupsError::IncorrectMediaAndScanTypeCount(name, _, _)) => name,
        other => panic!("{other:?}"),
    };
    let base = all(expecting(1, 1, 1));
    assert!(base.counts_equal(base).is_ok());
    let mut other = base;
    other.slides = Some(expecting(0, 0, 1));
    assert_eq!(name_of(other, base), "scanner slides");
    other.slides = Some(expecting(1, 0, 1));
    assert_eq!(name_of(other, base), "handscan slides");
    other.slides = Some(expecting(1, 1, 7));
    other.prints = Some(expecting(0, 0, 0));
    assert_eq!(name_of(other, base), "scanner prints");
    other.prints = Some(expecting(1, 0, 0));
    assert_eq!(name_of(other, base), "handscan prints");
    other.prints = Some(expecting(1, 1, 0));
    assert_eq!(name_of(other, base), "oversized prints");
    other.prints = base.prints;
    other.negatives = Some(expecting(0, 0, 1));
    assert_eq!(name_of(other, base), "scanner negatives");
    other.negatives = Some(expecting(1, 0, 1));
    assert_eq!(name_of(other, base), "handscan negatives");
    other.negatives = Some(expecting(1, 1, 9));
    assert!(other.counts_equal(base).is_ok());
}

#[test]
fn counts_ignore_what_is_not_a_count() {
    let counted = prints_only(PhotoGroupOptions { dpi: None, scanner: 2, hs: 1, oshs: 0, is_corrected: false, index_precision: 0 });
    let expected = prints_only(PhotoGroupOptions { dpi: Some(600), scanner: 2, hs: 1, oshs: 0, is_corrected: true, index_precision: 3 });
    assert!(counted.counts_equal(expected).is_ok());
}

#[test]
fn an_expected_media_type_must_be_found() {
    let counted = MediaGroupValues { slides: None, prints: Some(expecting(1, 0, 0)), negatives: None };
    let expected = MediaGroupValues { slides: None, prints: Some(expecting(1, 0, 0)), negatives: Some(expecting(0, 0, 0)) };
    match counted.counts_equal(expected) {
        Err(MediaGroupsError::NoneOfFileTypeFound(name)) => assert_eq!(name, "negatives"),
        other => panic!("{other:?}"),
    }
}

#[test]
fn a_found_media_type_must_be_expected() {
    let counted = MediaGroupValues { slides: Some(expecting(1, 0, 0)), prints: Some(expecting(1, 0, 0)), negatives: None };
    let expected = prints_only(expecting(1, 0, 0));
    match counted.counts_equal(expected) {
        Err(MediaGroupsError::OutOfPlaceMediaType(name)) => assert_eq!(name, "slides"),
        other => panic!("{other:?}"),
    }
}

#[test]
fn a_folder_that_matches_passes() {
    let request = request(prints_only(expecting(3, 0, 0)));
    assert!(request.verify_media_folder(folder(prints(&[1, 2, 3]))).is_ok());
    assert!(request.verify_media_folder(folder(prints(&[3, 1, 2]))).is_ok());
}

#[test]
fn a_wrong_count_fails_the_folder_first() {
    let request = request(prints_only(expecting(3, 0, 0)));
    match request.verify_media_folder(folder(prints(&[1, 2]))) {
        Err(FCError::IncorrectMediaCount(MediaGroupsError::IncorrectMediaAndScanTypeCount(name, 2, 3))) => {
            assert_eq!(name, "scanner prints")
        }
        other => panic!("{other:?}"),
    }
    match request.is_satisfied_by_media(prints_only(expecting(2, 0, 0))) {
        Err(FCError::IncorrectMediaCount(MediaGroupsError::IncorrectMediaAndScanTypeCount(_, 2, 3))) => {}
        other => panic!("{other:?}"),
    }
}

#[test]
fn a_media_type_missing_from_the_folder_fails() {
    let request = request(MediaGroupValues {
        slides: Some(expecting(1, 0, 0)),
        prints: Some(expecting(1, 0, 0)),
        negatives: None,
    });
    match request.verify_media_folder(folder(prints(&[1]))) {
        Err(FCError::IncorrectMediaCount(MediaGroupsError::NoneOfFileTypeFound(name))) => assert_eq!(name, "slides"),
        other => panic!("{other:?}"),
    }
}

#[test]
fn a_media_type_missing_from_the_request_fails() {
    let request = request(prints_only(expecting(1, 0, 0)));
    let files = vec![file("DoeJ_Prints_001.jpg"), file("DoeJ_Negs_002.jpg")];
    match request.verify_media_folder(folder(files)) {
        Err(FCError::IncorrectMediaCount(MediaGroupsError::OutOfPlaceMediaType(name))) => assert_eq!(name, "negatives"),
        other => panic!("{other:?}"),
    }
    let files = vec![file("DoeJ_Prints_001.jpg"), file("DoeJ_Negs_002.jpg")];
    let counted = prints_only(expecting(1, 0, 0));
    match request.verify_media_folder(MediaFolder { files, group_options: counted }) {
        Err(FCError::OutOfPlaceMediaType(MediaType::Negatives(_))) => {}
        other => panic!("{other:?}"),
    }
}

#[test]
fn a_skipped_index_number_is_named() {
    let request = request(prints_only(expecting(3, 0, 0)));
    assert!(matches!(
        request.verify_media_folder(folder(prints(&[1, 2, 4]))),
        Err(FCError::FolderSkippedIndexNumber(3))
    ));
    assert!(matches!(
        request.verify_media_folder(folder(prints(&[4, 2, 3]))),
        Err(FCError::FolderSkippedIndexNumber(1))
    ));
    assert!(matches!(
        request.verify_media_folder(folder(prints(&[0, 1, 2]))),
        Err(FCError::FolderSkippedIndexNumber(3))
    ));
}

#[test]
fn a_repeated_index_number_names_both_files() {
    let request = request(prints_only(expecting(2, 1, 0)));
    let files = vec![file("DoeJ_Prints_001.jpg"), file("DoeJ_Prints_002.jpg"), file("DoeJ_Prints_002_HS.jpg")];
    match request.verify_media_folder(folder(files)) {
        Err(FCError::RepeatedIndexNumber(2, repeating, first)) => {
            assert_eq!(repeating, "DoeJ_Prints_002_HS.jpg");
            assert_eq!(first, "DoeJ_Prints_002.jpg");
        }
        other => panic!("{other:?}"),
    }
}

#[test]
fn the_resolution_is_checked_where_one_is_expected() {
    let mut options = expecting(1, 0, 0);
    options.dpi = Some(600);
    let found = file("DoeJ_Prints_001.jpg");
    match options.verify_dpi(&found) {
        Err(FCError::IncorrectDpi(600, 300, named)) => assert_eq!(named.raw_file_name, "DoeJ_Prints_001.jpg"),
        other => panic!("{other:?}"),
    }
    match request(prints_only(options)).verify_media_folder(folder(vec![found.clone()])) {
        Err(FCError::IncorrectDpi(600, 300, named)) => assert_eq!(named.raw_file_name, "DoeJ_Prints_001.jpg"),
        other => panic!("{other:?}"),
    }
    options.dpi = Some(300);
    assert!(options.verify_dpi(&found).is_ok());
    options.dpi = None;
    assert!(options.verify_dpi(&found).is_ok());
    assert!(request(prints_only(options)).verify_media_folder(folder(vec![found])).is_ok());
}

#[test]
fn correction_is_asked_one_way_only() {
    let corrected = file_with("DoeJ_Prints_001.jpg", 300, "Adobe Photoshop");
    let plain = file("DoeJ_Prints_001.jpg");
    assert_eq!(
        corrected.media_type,
        MediaType::Prints(PhotoMediaData { dpi: 300, is_corrected: true, true_scan_type: None })
    );
    let mut options = expecting(1, 0, 0);
    let lenient = prints_only(options);
    assert!(lenient.check_file_metadata(&corrected).is_ok());
    assert!(lenient.check_file_metadata(&plain).is_ok());
    options.is_corrected = true;
    let strict = prints_only(options);
    assert!(strict.check_file_metadata(&corrected).is_ok());
    match strict.check_file_metadata(&plain) {
        Err(FCError::NotCorrected(named)) => assert_eq!(named.raw_file_name, "DoeJ_Prints_001.jpg"),
        other => panic!("{other:?}"),
    }
    assert!(matches!(
        strict.check_file_metadata(&file("DoeJ_Slides_001.jpg")),
        Err(FCError::OutOfPlaceMediaType(MediaType::Slides(_)))
    ));
    options.dpi = Some(1200);
    assert!(matches!(prints_only(options).check_file_metadata(&plain), Err(FCError::IncorrectDpi(1200, 300, _))));
}

#[test]
fn a_file_without_extension_is_incompatible() {
    let mut unfinished = file("DoeJ_Prints_001.jpg");
    assert!(check_extension(&unfinished).is_ok());
    unfinished.file_extension = FileExtensionType::Tiff;
    assert!(check_extension(&unfinished).is_ok());
    unfinished.file_extension = FileExtensionType::Unset;
    match check_extension(&unfinished) {
        Err(FCError::IncompatibleFileExtension(MediaType::Prints(_), FileExtensionType::Unset, named)) => {
            assert_eq!(named.raw_file_name, "DoeJ_Prints_001.jpg")
        }
        other => panic!("{other:?}"),
    }
}

#[test]
fn the_client_must_match() {
    let request = request(prints_only(expecting(1, 0, 0)));
    assert!(check_client_name(&request, &file("DoeJ_Prints_001.jpg")).is_ok());
    match check_client_name(&request, &file("RoeJ_Prints_001.jpg")) {
        Err(FCError::IncorrectLastName(expected, got, _)) => {
            assert_eq!(expected, "Doe");
            assert_eq!(got, "Roe");
        }
        other => panic!("{other:?}"),
    }
    assert!(matches!(
        check_client_name(&request, &file("DoeK_Prints_001.jpg")),
        Err(FCError::IncorrectFirstInitial('J', 'K', _))
    ));
    assert!(matches!(
        check_client_name(&request, &file("doeJ_Prints_001.jpg")),
        Err(FCError::IncorrectLastName(_, _, _))
    ));
    let mut nameless = request;
    nameless.first_name = String::new();
    match check_client_name(&nameless, &file("DoeJ_Prints_001.jpg")) {
        Err(FCError::InvalidRequest(message)) => assert_eq!(message, "invalid first name specified"),
        other => panic!("{other:?}"),
    }
}

#[test]
fn the_group_number_must_match_where_one_is_asked() {
    let mut request = request(prints_only(expecting(1, 0, 0)));
    assert!(check_group_number(&request, &file("DoeJ_Prints_001.jpg")).is_ok());
    assert!(check_group_number(&request, &file("DoeJ_Prints_07_001.jpg")).is_ok());
    request.group_num = Some(3);
    assert!(check_group_number(&request, &file("DoeJ_Prints_03_001.jpg")).is_ok());
    assert!(matches!(
        check_group_number(&request, &file("DoeJ_Prints_001.jpg")),
        Err(FCError::MissingGroupNumber(3, _))
    ));
    assert!(matches!(
        check_group_number(&request, &file("DoeJ_Prints_04_001.jpg")),
        Err(FCError::IncorrectGroupNumber(3, 4, _))
    ));
    assert!(matches!(
        check_group_number(&request, &file("DoeJ_Prints_003_001.jpg")),
        Err(FCError::IncorrectGroupNumberPrecision(2, 3, _))
    ));
}

#[test]
fn the_group_character_must_match_where_one_is_asked() {
    let mut request = request(prints_only(expecting(1, 0, 0)));
    assert!(check_group_char(&request, &file("DoeJ_Prints_03_B_001.jpg")).is_ok());
    request.group_char = Some('A');
    assert!(check_group_char(&request, &file("DoeJ_Prints_03_A_001.jpg")).is_ok());
    assert!(matches!(
        check_group_char(&request, &file("DoeJ_Prints_03_001.jpg")),
        Err(FCError::MissingGroupChar('A', _))
    ));
    assert!(matches!(
        check_group_char(&request, &file("DoeJ_Prints_03_B_001.jpg")),
        Err(FCError::IncorrectGroupChar('A', 'B', _))
    ));
}

#[test]
fn the_index_precision_must_match() {
    let request = request(prints_only(expecting(1, 0, 0)));
    assert!(check_index_number(&request, &file("DoeJ_Prints_001.jpg")).is_ok());
    assert!(matches!(
        check_index_number(&request, &file("DoeJ_Prints_01.jpg")),
        Err(FCError::IncorrectIndexNumberPrecision(3, 2, _))
    ));
}

#[test]
fn the_first_failing_file_is_told() {
    let request = request(prints_only(expecting(3, 0, 0)));
    let files = vec![file("DoeJ_Prints_001.jpg"), file("RoeJ_Prints_02.jpg"), file("DoeK_Prints_003.jpg")];
    match request.verify_media_folder(folder(files)) {
        Err(FCError::IncorrectLastName(_, _, named)) => assert_eq!(named.raw_file_name, "RoeJ_Prints_02.jpg"),
        other => panic!("{other:?}"),
    }
    let files = vec![file("DoeJ_Prints_001.jpg"), file("DoeJ_Prints_01.jpg"), file("DoeK_Prints_003.jpg")];
    assert!(matches!(request.verify_media_folder(folder(files)), Err(FCError::RepeatedIndexNumber(1, _, _))));
    let files = vec![file("DoeJ_Prints_001.jpg"), file("DoeJ_Prints_02.jpg"), file("DoeK_Prints_003.jpg")];
    assert!(matches!(
        request.verify_media_folder(folder(files)),
        Err(FCError::IncorrectIndexNumberPrecision(3, 2, _))
    ));
}

#[test]
fn checking_twice_gives_the_same_verdict() {
    let request = request(prints_only(expecting(3, 0, 0)));
    let tell = |result: Result<(), FCError>| format!("{result:?}");
    for indices in [[1, 2, 3], [1, 2, 4], [1, 2, 2]] {
        let first = request.verify_media_folder(folder(prints(&indices)));
        let second = request.verify_media_folder(folder(prints(&indices)));
        assert_eq!(tell(first), tell(second));
    }
}

#[test]
fn an_empty_folder_satisfies_no_request() {
    let request = request(prints_only(expecting(0, 0, 0)));
    assert!(matches!(
        request.verify_media_folder(folder(Vec::new())),
        Err(FCError::IncorrectMediaCount(MediaGroupsError::NoneOfFileTypeFound(_)))
    ));
}
