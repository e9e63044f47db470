use launcher_updater::catalog::AptDebAsset;
use launcher_updater::download::{
    accept_deb, check_deb_size, signed_download_progress, verify_deb, DebDownload, Progress,
};
use launcher_updater::failure::Failure;

const ABC: &str = "ba7816bf8f01cfea414140de5dae2223b00361a396177a9cb410ff61f20015ad";
const EMPTY: &str = "e3b0c44298fc1c149afbf4c8996fb92427ae41e4649b934ca495991b7852b855";

fn asset(sha256: &str, size: u64) -> AptDebAsset {
    AptDebAsset { url: "https://a/app.deb".to_string(), sha256: sha256.to_string(), size }
}

#[test]
fn bytes_of_the_right_size_and_digest_are_kept() {
    assert_eq!(verify_deb(b"abc".to_vec(), &asset(ABC, 3)), Ok(b"abc".to_vec()));
    assert_eq!(verify_deb(Vec::new(), &asset(EMPTY, 0)), Ok(Vec::new()));
}

#[test]
fn bytes_of_another_size_are_refused_first() {
    assert_eq!(
        verify_deb(b"abcd".to_vec(), &asset("not a digest", 3)),
        Err(Failure::DebSizeMismatch { expected: 3, got: 4 })
    );
    assert_eq!(
        verify_deb(b"abc".to_vec(), &asset(ABC, 0)),
        Err(Failure::DebSizeMismatch { expected: 0, got: 3 })
    );
    assert_eq!(check_deb_size(&b"abc".to_vec(), &asset("", 3)), Ok(()));
}

#[test]
fn bytes_of_another_digest_are_refused() {
    assert_eq!(verify_deb(b"abd".to_vec(), &asset(ABC, 3)), Err(Failure::DebSha256Mismatch));
}

#[test]
fn a_digest_in_upper_case_accepts_nothing() {
    let upper = ABC.to_uppercase();
    assert_eq!(verify_deb(b"abc".to_vec(), &asset(&upper, 3)), Err(Failure::DebSha256Mismatch));
    assert_eq!(verify_deb(b"abc".to_vec(), &asset("", 3)), Err(Failure::DebSha256Mismatch));
    assert_eq!(verify_deb(b"abc".to_vec(), &asset("ba", 3)), Err(Failure::DebSha256Mismatch));
}

#[test]
fn a_given_digest_is_compared() {
    assert_eq!(accept_deb(vec![7], &[0xab, 0x01], &asset("ab01", 1)), Ok(vec![7]));
    assert_eq!(
        accept_deb(vec![7], &[0xab, 0x02], &asset("ab01", 1)),
        Err(Failure::DebSha256Mismatch)
    );
    assert_eq!(
        accept_deb(vec![7], &[0xab, 0x01], &asset("ab01", 2)),
        Err(Failure::DebSizeMismatch { expected: 2, got: 1 })
    );
}

#[test]
fn one_digest_alone_is_accepted_for_a_package() {
    let mut accepted = Vec::new();
    for digest in 0..=0xffff_u16 {
        if accept_deb(vec![7], &digest.to_be_bytes(), &asset("ab01", 1)).is_ok() {
            accepted.push(digest);
        }
    }
    assert_eq!(accepted, vec![0xab01]);
}

#[test]
fn progress_is_measured_against_the_told_length() {
    let mut download = DebDownload::start(asset(ABC, 3), Some(10));
    assert_eq!(download.progress(), Some(Progress { done: 0, total: 10 }));
    download.receive(b"ab");
    assert_eq!(download.received(), b"ab");
    assert_eq!(download.progress(), Some(Progress { done: 2, total: 10 }));
}

#[test]
fn progress_falls_back_to_the_size_of_the_catalog() {
    let mut download = DebDownload::start(asset(ABC, 3), None);
    download.receive(b"a");
    download.receive(b"bc");
    assert_eq!(download.progress(), Some(Progress { done: 3, total: 3 }));
    assert_eq!(download.finish(), Ok(b"abc".to_vec()));
}

#[test]
fn a_total_of_zero_measures_nothing() {
    let mut download = DebDownload::start(asset(ABC, 3), Some(0));
    download.receive(b"abc");
    assert_eq!(download.progress(), None);
    assert_eq!(DebDownload::start(asset(EMPTY, 0), None).progress(), None);
}

#[test]
fn chunking_makes_no_difference() {
    for chunks in [vec!["abc"], vec!["a", "b", "c"], vec!["", "ab", "", "c"]] {
        let mut download = DebDownload::start(asset(ABC, 3), None);
        for chunk in chunks {
            download.receive(chunk.as_bytes());
        }
        assert_eq!(download.finish(), Ok(b"abc".to_vec()));
    }
}

#[test]
fn a_short_download_is_refused() {
    let mut download = DebDownload::start(asset(ABC, 3), Some(2));
    download.receive(b"ab");
    assert_eq!(download.finish(), Err(Failure::DebSizeMismatch { expected: 3, got: 2 }));
}

#[test]
fn signed_downloads_report_where_the_total_is_known() {
    assert_eq!(signed_download_progress(5, None), None);
    assert_eq!(signed_download_progress(5, Some(9)), Some(Progress { done: 5, total: 9 }));
    assert_eq!(signed_download_progress(5, Some(0)), Some(Progress { done: 5, total: 0 }));
}
