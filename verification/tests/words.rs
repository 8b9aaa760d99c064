use scan_qc::file_extension_type::FileExtensionType;
use scan_qc::media_file::{parse_client_name, try_get_char};
use scan_qc::scan_type::ScanType;
use scan_qc::text::{decimal_digits, push_decimal, same_text, try_get_number};

#[test]
fn scan_type_tags() {
    assert_eq!(ScanType::from_str(""), Ok(ScanType::Default));
    assert_eq!(ScanType::from_str("HS"), Ok(ScanType::HandScan));
    assert_eq!(ScanType::from_str("OSHS"), Ok(ScanType::OversizedHandScan));
    assert_eq!(ScanType::from_str("hs"), Err(()));
    assert_eq!(ScanType::from_str("jpg"), Err(()));
}

#[test]
fn scan_type_names() {
    assert_eq!(ScanType::Default.to_string(), "Default");
    assert_eq!(ScanType::HandScan.to_string(), "Hand Scan");
    assert_eq!(ScanType::OversizedHandScan.to_string(), "Oversized Hand Scan");
}

#[test]
fn extensions() {
    assert_eq!(FileExtensionType::from_str("jpg"), Ok(FileExtensionType::Jpeg));
    assert_eq!(FileExtensionType::from_str("jpeg"), Ok(FileExtensionType::Jpeg));
    assert_eq!(FileExtensionType::from_str("tif"), Ok(FileExtensionType::Tiff));
    assert_eq!(FileExtensionType::from_str("tiff"), Ok(FileExtensionType::Tiff));
    assert_eq!(FileExtensionType::from_str("JPG"), Err(()));
    assert_eq!(FileExtensionType::from_str(""), Err(()));
    assert_eq!(FileExtensionType::from_str("png"), Err(()));
}

#[test]
fn extension_names() {
    assert_eq!(FileExtensionType::Unset.to_string(), "");
    assert_eq!(FileExtensionType::Jpeg.to_string(), "jpg");
    assert_eq!(FileExtensionType::Tiff.to_string(), "tif");
}

#[test]
fn numbers_are_read_as_the_standard_library_reads_them() {
    for word in ["0", "7", "007", "+5", "+007", "4294967295", "4294967296", "00004294967295", "", "+", "-1", "1a", " 1", "1 ", "++1", "1_000", "٣", "99999999999999999999999"] {
        assert_eq!(try_get_number(word), word.parse::<u32>().map_err(|_| ()), "{word:?}");
    }
    assert_eq!(try_get_number("007"), Ok(7));
    assert_eq!(try_get_number("4294967295"), Ok(u32::MAX));
    assert_eq!(try_get_number("4294967296"), Err(()));
}

#[test]
fn one_character_fields() {
    assert_eq!(try_get_char("A"), Ok('A'));
    assert_eq!(try_get_char("é"), Ok('é'));
    assert_eq!(try_get_char(""), Err(()));
    assert_eq!(try_get_char("AB"), Err(()));
}

#[test]
fn client_fields() {
    let (last_name, initial) = parse_client_name("LancasterB").unwrap();
    assert_eq!(last_name, "Lancaster");
    assert_eq!(initial, 'B');
    let (last_name, initial) = parse_client_name("XY").unwrap();
    assert_eq!(last_name, "X");
    assert_eq!(initial, 'Y');
    assert!(parse_client_name("X").is_err());
    assert!(parse_client_name("").is_err());
}

#[test]
fn texts_are_compared_character_by_character() {
    assert!(same_text("", ""));
    assert!(same_text("Doe", "Doe"));
    assert!(!same_text("Doe", "doe"));
    assert!(!same_text("Doe", "Do"));
    assert!(!same_text("Do", "Doe"));
}

#[test]
fn decimal_digits_are_counted() {
    assert_eq!(decimal_digits(0), 1);
    assert_eq!(decimal_digits(9), 1);
    assert_eq!(decimal_digits(10), 2);
    assert_eq!(decimal_digits(999_999), 6);
    assert_eq!(decimal_digits(1_000_000), 7);
    assert_eq!(decimal_digits(u64::MAX), 20);
}

#[test]
fn decimal_numbers_are_written() {
    for n in [0u64, 7, 10, 42, 1234567890, u64::MAX] {
        let mut text = String::from("n=");
        push_decimal(&mut text, n);
        assert_eq!(text, format!("n={n}"));
    }
}
