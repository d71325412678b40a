use swish::outside::path_exists;
use swish::validate::is_swisstransfer_link;
use swish::validate::parse_decimal_bounded;
use swish::validate::validate_duration;
use swish::validate::validate_number_download;

#[test]
fn test_is_swisstransfer_link() {
    let link = "https://www.swisstransfer.com/d/8b3b3b3b-3b3b-3b3b-3b3b-3b3b3b3b3b3b";
    assert_eq!(is_swisstransfer_link(link), true);
    let link = "http://www.swisstransfer.com/d/8b3b3b3b-3b3b-3b3b-3b3b-3b3b3b3b3b3b/";
    assert_eq!(is_swisstransfer_link(link), false);
    let link = "https://www.swisstransfer.ch/d/8b3b3b3b-3b3b-3b3b-3b3b-3b3b3b3b3b3b/";
    assert_eq!(is_swisstransfer_link(link), false);
    let link = "www.swisstransfer.com/d/8b3b3b3b-3b3b-3b3b-3b3b-3b3b3b3b3b3b";
    assert_eq!(is_swisstransfer_link(link), false);
    let link = "https://www.swisstransfer.com/8b3b3b3b-3b3b-3b3b-3b3b-3b3b3b3b3b3b";
    assert_eq!(is_swisstransfer_link(link), false);
}

#[test]
fn link_validator_accepts_canonical_form_only() {
    assert!(is_swisstransfer_link(
        "https://www.swisstransfer.com/d/3215702a-bed4-4cec-9eb6-d731048a2312"
    ));
    // trailing slash
    assert!(!is_swisstransfer_link(
        "https://www.swisstransfer.com/d/3215702a-bed4-4cec-9eb6-d731048a2312/"
    ));
    // wrong scheme
    assert!(!is_swisstransfer_link(
        "http://www.swisstransfer.com/d/3215702a-bed4-4cec-9eb6-d731048a2312"
    ));
    // wrong path segment
    assert!(!is_swisstransfer_link(
        "https://www.swisstransfer.com/f/3215702a-bed4-4cec-9eb6-d731048a2312"
    ));
    // truncated identifier
    assert!(!is_swisstransfer_link("https://www.swisstransfer.com/d/3215702a-bed4-4cec-9eb6"));
    // uppercase hex is refused
    assert!(!is_swisstransfer_link(
        "https://www.swisstransfer.com/d/3215702A-BED4-4CEC-9EB6-D731048A2312"
    ));
    // misplaced hyphen
    assert!(!is_swisstransfer_link(
        "https://www.swisstransfer.com/d/3215702ab-ed4-4cec-9eb6-d731048a2312"
    ));
}

#[test]
fn test_path_exists() {
    let path = "/";
    assert_eq!(path_exists(path), true);
    let path = "/such-a-path-does-not-exist-anywhere";
    assert_eq!(path_exists(path), false);
}

#[test]
fn test_validate_number_download() {
    let number = "250";
    assert_eq!(validate_number_download(number), Ok(number.to_string()));
    let number = "251";
    assert_eq!(
        validate_number_download(number),
        Err(String::from("Number of downloads must be between 1 and 250"))
    );
    let number = "0";
    assert_eq!(
        validate_number_download(number),
        Err(String::from("Number of downloads must be between 1 and 250"))
    );
    let number = "a";
    assert_eq!(validate_number_download(number), Err(String::from("Must be a valid number")));
}

#[test]
fn test_validate_duration() {
    let duration = "30";
    assert_eq!(validate_duration(duration), Ok(duration.to_string()));
    let duration = "31";
    assert_eq!(validate_duration(duration), Err(String::from("Duration must be 1, 7, 15 or 30")));
    let duration = "0";
    assert_eq!(validate_duration(duration), Err(String::from("Duration must be 1, 7, 15 or 30")));
    let duration = "a";
    assert_eq!(validate_duration(duration), Err(String::from("Must be a valid number")));
}

#[test]
fn number_download_overflow_is_not_a_number() {
    // overflows a 16-bit parse, as the original parser reported it
    assert_eq!(validate_number_download("70000"), Err(String::from("Must be a valid number")));
    assert_eq!(validate_number_download(""), Err(String::from("Must be a valid number")));
    assert_eq!(validate_number_download("+"), Err(String::from("Must be a valid number")));
    assert_eq!(validate_number_download("+250"), Ok("+250".to_string()));
}

#[test]
fn parse_decimal_bounded_behaves_like_parse() {
    assert_eq!(parse_decimal_bounded("0", 100), Some(0));
    assert_eq!(parse_decimal_bounded("+5", 100), Some(5));
    assert_eq!(parse_decimal_bounded("100", 100), Some(100));
    assert_eq!(parse_decimal_bounded("101", 100), None);
    assert_eq!(parse_decimal_bounded("", 100), None);
    assert_eq!(parse_decimal_bounded("+", 100), None);
    assert_eq!(parse_decimal_bounded("5a", 100), None);
    assert_eq!(parse_decimal_bounded("-5", 100), None);
    assert_eq!(parse_decimal_bounded("4294967295", u32::MAX), Some(u32::MAX));
    assert_eq!(parse_decimal_bounded("4294967296", u32::MAX), None);
}
