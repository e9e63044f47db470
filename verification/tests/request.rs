use http::{HeaderMap, HeaderName, HeaderValue};
use launcher_updater::failure::Failure;
use launcher_updater::request::{
    check_catalog_status, check_download_status, download_headers, get_update_size,
    parse_content_length,
};
use launcher_updater::text::decimal_text;

fn headers(pairs: &[(&str, &str)]) -> HeaderMap {
    let mut map = HeaderMap::new();
    for (name, value) in pairs {
        map.append(
            HeaderName::from_bytes(name.as_bytes()).unwrap(),
            HeaderValue::from_str(value).unwrap(),
        );
    }
    map
}

#[test]
fn a_download_accepts_any_bytes_by_default() {
    let sent = download_headers(headers(&[("x-token", "1")])).unwrap();
    assert_eq!(sent.len(), 2);
    assert_eq!(sent.get("Accept").unwrap(), "application/octet-stream");
    assert_eq!(sent.get("X-Token").unwrap(), "1");
}

#[test]
fn an_accept_header_of_the_update_is_kept() {
    let given = headers(&[("Accept", "a/b"), ("accept", "c/d")]);
    let sent = download_headers(given.clone()).unwrap();
    assert_eq!(sent, given);
    let once = download_headers(HeaderMap::new()).unwrap();
    assert_eq!(download_headers(once.clone()).unwrap(), once);
}

#[test]
fn a_full_header_map_is_refused() {
    let mut full: HeaderMap = HeaderMap::with_capacity(24576);
    for i in 0..24576 {
        let name = HeaderName::from_bytes(format!("x-{i}").as_bytes()).unwrap();
        full.insert(name, HeaderValue::from_static("v"));
    }
    assert!(download_headers(full).is_none());
}

#[test]
fn statuses_of_success_pass() {
    for code in [200, 204, 299] {
        assert_eq!(check_catalog_status(code), Ok(()));
        assert_eq!(check_download_status(code), Ok(()));
    }
}

#[test]
fn other_statuses_are_told_with_their_reason() {
    assert_eq!(
        check_catalog_status(503),
        Err(Failure::CatalogStatus { status: "503 Service Unavailable".to_string() })
    );
    assert_eq!(
        check_download_status(404),
        Err(Failure::DownloadStatus { status: "404 Not Found".to_string() })
    );
    assert_eq!(
        check_download_status(300),
        Err(Failure::DownloadStatus { status: "300 Multiple Choices".to_string() })
    );
    assert_eq!(
        check_download_status(199),
        Err(Failure::DownloadStatus { status: "199 <unknown status code>".to_string() })
    );
}

#[test]
fn the_size_is_the_first_content_length() {
    let told = headers(&[("Content-Length", "1234"), ("content-length", "9")]);
    assert_eq!(get_update_size(200, &told), Ok(Some(1234)));
    assert_eq!(get_update_size(200, &HeaderMap::new()), Ok(None));
    assert_eq!(get_update_size(200, &headers(&[("content-length", "12 kB")])), Ok(None));
    assert_eq!(
        get_update_size(403, &told),
        Err(Failure::DownloadStatus { status: "403 Forbidden".to_string() })
    );
}

#[test]
fn lengths_are_read_as_unsigned_integers() {
    let texts = [
        "", "0", "+", "+0", "-0", "-1", "++1", "1+", " 1", "1 ", "007", "0x10", "1_000",
        "18446744073709551615", "+18446744073709551615", "18446744073709551616",
        "99999999999999999999999", "000000000000000000000000000042",
        "184467440737095516150", "18446744073709551616x", "\u{0661}",
    ];
    for text in texts {
        assert_eq!(parse_content_length(text.as_bytes()), text.parse::<u64>().ok(), "{text:?}");
    }
    assert_eq!(parse_content_length(&[0x31, 0xff]), None);
}

#[test]
fn a_rendered_length_is_read_back() {
    for n in [0, 1, 9, 10, 99, 100, 4096, u64::MAX - 1, u64::MAX] {
        assert_eq!(parse_content_length(decimal_text(n).as_bytes()), Some(n));
        assert_eq!(parse_content_length(format!("+{}", decimal_text(n)).as_bytes()), Some(n));
    }
}
