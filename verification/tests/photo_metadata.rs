use little_exif::exif_tag::ExifTag;
use little_exif::metadata::Metadata;
use little_exif::rational::uR64;
use scan_qc::media_types::{MediaType, MediaTypeError};
use scan_qc::photo_media_data::{get_dpi, text_mentions, PhotoMediaData, PhotoMediaDataError};
use scan_qc::scan_type::ScanType;

fn rational(numerator: u32, denominator: u32) -> Option<Vec<u8>> {
    let mut bytes = numerator.to_le_bytes().to_vec();
    bytes.extend(denominator.to_le_bytes());
    Some(bytes)
}

fn text(value: &str) -> Option<Vec<u8>> {
    let mut bytes = value.as_bytes().to_vec();
    bytes.push(0);
    Some(bytes)
}

#[test]
fn resolution_is_numerator_over_denominator() {
    assert!(matches!(get_dpi(&rational(300, 1)), Ok(300)));
    assert!(matches!(get_dpi(&rational(1200, 2)), Ok(600)));
    assert!(matches!(get_dpi(&rational(7, 2)), Ok(3)));
    assert!(matches!(get_dpi(&rational(0x0102_0304, 1)), Ok(0x0102_0304)));
    assert!(matches!(get_dpi(&rational(u32::MAX, 1)), Ok(u32::MAX)));
}

#[test]
fn a_missing_resolution_is_no_dpi_found() {
    assert!(matches!(get_dpi(&None), Err(PhotoMediaDataError::NoDpiFound)));
}

#[test]
fn a_short_or_zero_rational_is_badly_formatted() {
    match get_dpi(&Some(vec![1, 2, 3, 4, 5, 6, 7])) {
        Err(PhotoMediaDataError::BadlyFormattedExifTag(tag)) => assert_eq!(tag, "dpi"),
        other => panic!("{other:?}"),
    }
    assert!(matches!(get_dpi(&Some(Vec::new())), Err(PhotoMediaDataError::BadlyFormattedExifTag(_))));
    assert!(matches!(get_dpi(&rational(300, 0)), Err(PhotoMediaDataError::BadlyFormattedExifTag(_))));
}

#[test]
fn text_is_searched_whatever_its_case() {
    assert!(text_mentions(&b"Adobe Photoshop 25.0 (Windows)\0".to_vec(), "photoshop"));
    assert!(text_mentions(&b"PHOTOSHOP".to_vec(), "photoshop"));
    assert!(text_mentions(&b"xxphotoshop".to_vec(), "photoshop"));
    assert!(!text_mentions(&b"photosho".to_vec(), "photoshop"));
    assert!(!text_mentions(&b"photo shop".to_vec(), "photoshop"));
    assert!(!text_mentions(&b"".to_vec(), "photoshop"));
    assert!(text_mentions(&b"".to_vec(), ""));
    assert!(text_mentions(&vec![0xff, b'P', b'h', b'o', b't', b'o', b's', b'h', b'o', b'p', 0xfe], "photoshop"));
    assert!(!text_mentions(&vec![b'p', b'h', b'o', b't', b'o', 0x80, b's', b'h', b'o', b'p'], "photoshop"));
}

#[test]
fn four_tag_values_give_the_summary() {
    let data = PhotoMediaData::from_tag_values(
        &rational(600, 1),
        &rational(600, 1),
        &text("Adobe Photoshop CS6"),
        &text("PowerSlide 5000"),
    )
    .unwrap();
    assert_eq!(
        data,
        PhotoMediaData { dpi: 600, is_corrected: true, true_scan_type: Some(ScanType::Default) }
    );
}

#[test]
fn missing_software_and_model_are_no_error() {
    let data = PhotoMediaData::from_tag_values(&rational(300, 1), &rational(300, 1), &None, &None).unwrap();
    assert_eq!(data, PhotoMediaData { dpi: 300, is_corrected: false, true_scan_type: None });
    let data = PhotoMediaData::from_tag_values(
        &rational(300, 1),
        &rational(600, 2),
        &text("GIMP 2.10"),
        &text("Perfection V600"),
    )
    .unwrap();
    assert_eq!(data, PhotoMediaData { dpi: 300, is_corrected: false, true_scan_type: None });
}

#[test]
fn different_resolutions_fail_with_both() {
    assert!(matches!(
        PhotoMediaData::from_tag_values(&rational(300, 1), &rational(600, 1), &None, &None),
        Err(PhotoMediaDataError::DifferentXYDpi(300, 600))
    ));
}

#[test]
fn the_horizontal_resolution_is_read_first() {
    assert!(matches!(
        PhotoMediaData::from_tag_values(&None, &Some(vec![0]), &None, &None),
        Err(PhotoMediaDataError::NoDpiFound)
    ));
    assert!(matches!(
        PhotoMediaData::from_tag_values(&Some(vec![0]), &None, &None, &None),
        Err(PhotoMediaDataError::BadlyFormattedExifTag(_))
    ));
    assert!(matches!(
        PhotoMediaData::from_tag_values(&rational(300, 1), &None, &None, &None),
        Err(PhotoMediaDataError::NoDpiFound)
    ));
}

#[test]
fn a_container_is_read_tag_by_tag() {
    let mut metadata = Metadata::new();
    metadata.set_tag(ExifTag::XResolution(vec![uR64 { nominator: 1200, denominator: 2 }]));
    metadata.set_tag(ExifTag::YResolution(vec![uR64 { nominator: 600, denominator: 1 }]));
    metadata.set_tag(ExifTag::Software(String::from("Adobe Photoshop 2024")));
    metadata.set_tag(ExifTag::Model(String::from("Reflecta PowerSlide X")));
    metadata.set_tag(ExifTag::ImageDescription(String::from("photoshop")));
    let data = PhotoMediaData::from_metadata(&metadata).unwrap();
    assert_eq!(
        data,
        PhotoMediaData { dpi: 600, is_corrected: true, true_scan_type: Some(ScanType::Default) }
    );
}

#[test]
fn a_container_without_resolution_fails() {
    let mut metadata = Metadata::new();
    assert!(matches!(PhotoMediaData::from_metadata(&metadata), Err(PhotoMediaDataError::NoDpiFound)));
    metadata.set_tag(ExifTag::XResolution(vec![uR64 { nominator: 300, denominator: 1 }]));
    assert!(matches!(PhotoMediaData::from_metadata(&metadata), Err(PhotoMediaDataError::NoDpiFound)));
    metadata.set_tag(ExifTag::YResolution(Vec::new()));
    assert!(matches!(
        PhotoMediaData::from_metadata(&metadata),
        Err(PhotoMediaDataError::BadlyFormattedExifTag(_))
    ));
    metadata.set_tag(ExifTag::YResolution(vec![uR64 { nominator: 400, denominator: 1 }]));
    assert!(matches!(
        PhotoMediaData::from_metadata(&metadata),
        Err(PhotoMediaDataError::DifferentXYDpi(300, 400))
    ));
}

#[test]
fn an_unreadable_container_names_the_path() {
    let path = String::from("scans\\broken.jpg");
    match PhotoMediaData::from_path(&path, &None) {
        Err(PhotoMediaDataError::CouldNotReadPath(found)) => assert_eq!(found, path),
        other => panic!("{other:?}"),
    }
}

#[test]
fn media_labels_and_names() {
    let path = String::from("scans\\x.jpg");
    let mut metadata = Metadata::new();
    metadata.set_tag(ExifTag::XResolution(vec![uR64 { nominator: 300, denominator: 1 }]));
    metadata.set_tag(ExifTag::YResolution(vec![uR64 { nominator: 300, denominator: 1 }]));
    let container = Some(metadata);
    let data = PhotoMediaData { dpi: 300, is_corrected: false, true_scan_type: None };
    assert_eq!(MediaType::from_path("Prints", &path, &container).unwrap(), MediaType::Prints(data));
    assert_eq!(MediaType::from_path("Slides", &path, &container).unwrap(), MediaType::Slides(data));
    assert_eq!(MediaType::from_path("Negs", &path, &container).unwrap(), MediaType::Negatives(data));
    assert!(matches!(
        MediaType::from_path("Negatives", &path, &container),
        Err(MediaTypeError::UnrecognizedMediaType(_))
    ));
    assert!(matches!(
        MediaType::from_path("prints", &path, &container),
        Err(MediaTypeError::UnrecognizedMediaType(_))
    ));
    assert!(matches!(
        MediaType::from_path("Prints", &path, &Some(Metadata::new())),
        Err(MediaTypeError::PhotoMediaDataError(PhotoMediaDataError::NoDpiFound))
    ));
    assert_eq!(MediaType::Prints(data).to_string(), "Prints");
    assert_eq!(MediaType::Slides(data).to_string(), "Slides");
    assert_eq!(MediaType::Negatives(data).to_string(), "Negatives");
    assert_eq!(MediaType::Negatives(data).photo_data(), data);
}
