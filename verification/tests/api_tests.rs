use aibot_rust_sdk::api::{
    content_disposition_value, parse_content_disposition_filename, percent_decode, try_parse_content_disposition_filename,
};

#[test]
fn disposition_plain_quoted() {
    assert_eq!(
        parse_content_disposition_filename("attachment; filename=\"report%20v1.pdf\""),
        Some("report v1.pdf".to_string())
    );
}

#[test]
fn disposition_extended_utf8() {
    assert_eq!(
        parse_content_disposition_filename("attachment; filename*=UTF-8''%E4%B8%AD%E6%96%87.txt"),
        Some("中文.txt".to_string())
    );
}

#[test]
fn disposition_extended_preferred() {
    assert_eq!(
        parse_content_disposition_filename("attachment; filename=\"a.txt\"; filename*=UTF-8''b.txt"),
        Some("b.txt".to_string())
    );
}

#[test]
fn disposition_case_insensitive() {
    assert_eq!(parse_content_disposition_filename("ATTACHMENT; FILENAME=Data.csv"), Some("Data.csv".to_string()));
}

#[test]
fn disposition_extended_without_charset_falls_back() {
    assert_eq!(content_disposition_value("filename*=abc; filename=x.bin"), Some("x.bin".to_string()));
}

#[test]
fn disposition_value_stops_at_semicolon() {
    assert_eq!(
        content_disposition_value("attachment; filename=  \"f.txt\" ; size=3"),
        Some("f.txt\" ".trim().to_string())
    );
    assert_eq!(content_disposition_value("attachment; filename=f.txt;size=3"), Some("f.txt".to_string()));
}

#[test]
fn disposition_missing() {
    assert_eq!(parse_content_disposition_filename("inline"), None);
    assert_eq!(content_disposition_value(""), None);
}

#[test]
fn percent_decode_plus_and_escapes() {
    assert_eq!(percent_decode("a+b%21"), Some("a b!".to_string()));
    assert_eq!(percent_decode(""), Some("".to_string()));
}

#[test]
fn disposition_offsets_follow_the_lower_case() {
    // U+0130 is two bytes, its lower case (`i` and U+0307) three: the
    // offset found in the lower case lands one byte further into the header.
    assert_eq!(parse_content_disposition_filename("\u{130} filename=abc"), Some("bc".to_string()));
    assert_eq!(content_disposition_value("\u{e4} filename=abc"), Some("abc".to_string()));
}

#[test]
fn disposition_offset_off_a_char_boundary() {
    assert_eq!(try_parse_content_disposition_filename("\u{130} filename=\u{e9}"), None);
    assert_eq!(
        try_parse_content_disposition_filename("attachment; filename=\"a.txt\""),
        Some(Some("a.txt".to_string()))
    );
    assert_eq!(try_parse_content_disposition_filename("inline"), Some(None));
}
