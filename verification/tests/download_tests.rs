use datahugger::download::to_hex;
use datahugger::{
    select_checksum, Checksum, CrawlPath, DownloadState, Endpoint, ErrorStatus, FileDownload,
    FileMeta, Hasher,
};

const SHA256_ABC: &str = "ba7816bf8f01cfea414140de5dae2223b00361a396177a9cb410ff61f20015ad";
const MD5_ABC: &str = "900150983cd24fb0d6963f7d28e17f72";
const SHA256_EMPTY: &str = "e3b0c44298fc1c149afbf4c8996fb92427ae41e4649b934ca495991b7852b855";
const MD5_EMPTY: &str = "d41d8cd98f00b204e9800998ecf8427e";

fn file(size: Option<u64>, checksum: Vec<Checksum>) -> FileMeta {
    FileMeta::new(
        CrawlPath::root().join("abc.txt"),
        Endpoint { parent_url: "https://example.org/".to_string(), key: None },
        "https://example.org/abc.txt".to_string(),
        size,
        checksum,
    )
}

fn download(file: &FileMeta, chunks: &[&[u8]]) -> (DownloadState, Result<(), (String, ErrorStatus)>) {
    let mut d = FileDownload::start(file);
    assert_eq!(d.state(), DownloadState::Connecting);
    d.connected(Some(200)).unwrap();
    assert_eq!(d.state(), DownloadState::Streaming);
    for c in chunks {
        d.chunk(c).unwrap();
    }
    let (state, result) = d.finish();
    (state, result.map_err(|e| (e.message, e.status)))
}

#[test]
fn hex_writes_two_lower_case_digits_for_each_byte() {
    assert_eq!(to_hex(&[]), "");
    assert_eq!(to_hex(&[0x00, 0x0f, 0x10, 0xab, 0xff]), "000f10abff");
    assert_eq!(to_hex(b"Hello world!"), "48656c6c6f20776f726c6421");
}

#[test]
fn hashers_digest_what_they_take_in() {
    let mut h = Hasher::sha256();
    h.update(b"a");
    h.update(b"");
    h.update(b"bc");
    assert_eq!(to_hex(&h.finalize()), SHA256_ABC);
    let mut h = Hasher::md5();
    h.update(b"ab");
    h.update(b"c");
    assert_eq!(to_hex(&h.finalize()), MD5_ABC);
    assert_eq!(to_hex(&Hasher::sha256().finalize()), SHA256_EMPTY);
    assert_eq!(to_hex(&Hasher::md5().finalize()), MD5_EMPTY);
    let mut h = Hasher::for_checksum(&Checksum::Md5(String::new()));
    h.update(b"abc");
    assert_eq!(to_hex(&h.finalize()), MD5_ABC);
    let mut h = Hasher::for_checksum(&Checksum::Sha256(String::new()));
    h.update(b"abc");
    assert_eq!(to_hex(&h.finalize()), SHA256_ABC);
}

#[test]
fn sha256_is_preferred_wherever_it_stands() {
    let md5 = || Checksum::Md5("m".to_string());
    let sha = |s: &str| Checksum::Sha256(s.to_string());
    assert!(select_checksum(&vec![]).is_none());
    assert!(matches!(select_checksum(&vec![md5()]), Some(Checksum::Md5(_))));
    assert!(matches!(select_checksum(&vec![md5(), sha("s")]), Some(Checksum::Sha256(h)) if h == "s"));
    assert!(matches!(select_checksum(&vec![sha("s"), md5()]), Some(Checksum::Sha256(h)) if h == "s"));
    assert!(matches!(
        select_checksum(&vec![md5(), md5(), sha("first"), sha("second")]),
        Some(Checksum::Sha256(h)) if h == "first"
    ));
    assert!(matches!(
        select_checksum(&vec![Checksum::Md5("one".to_string()), Checksum::Md5("two".to_string())]),
        Some(Checksum::Md5(h)) if h == "one"
    ));
}

#[test]
fn bytes_with_the_named_size_and_digest_are_accepted() {
    let f = file(Some(3), vec![Checksum::Sha256(SHA256_ABC.to_string())]);
    assert_eq!(download(&f, &[b"abc"]), (DownloadState::Verified, Ok(())));
    assert_eq!(download(&f, &[b"a", b"b", b"c"]), (DownloadState::Verified, Ok(())));
    let f = file(Some(3), vec![Checksum::Md5(MD5_ABC.to_string())]);
    assert_eq!(download(&f, &[b"ab", b"c"]), (DownloadState::Verified, Ok(())));
    let f = file(Some(0), vec![Checksum::Sha256(SHA256_EMPTY.to_string())]);
    assert_eq!(download(&f, &[]), (DownloadState::Verified, Ok(())));
}

#[test]
fn the_digest_is_compared_without_regard_to_case() {
    let f = file(Some(3), vec![Checksum::Sha256(SHA256_ABC.to_uppercase())]);
    assert_eq!(download(&f, &[b"abc"]), (DownloadState::Verified, Ok(())));
}

#[test]
fn a_wrong_size_is_refused_for_good() {
    let f = file(Some(4), vec![Checksum::Sha256(SHA256_ABC.to_string())]);
    assert_eq!(
        download(&f, &[b"abc"]),
        (
            DownloadState::Failed(ErrorStatus::Permanent),
            Err(("size wrong, expect 4, got 3".to_string(), ErrorStatus::Permanent))
        )
    );
}

#[test]
fn a_wrong_digest_is_refused_for_good() {
    let f = file(Some(3), vec![Checksum::Sha256(SHA256_EMPTY.to_string())]);
    assert_eq!(
        download(&f, &[b"abc"]),
        (
            DownloadState::Failed(ErrorStatus::Permanent),
            Err((
                format!("checksum wrong, expect {SHA256_EMPTY}, got {SHA256_ABC}"),
                ErrorStatus::Permanent
            ))
        )
    );
    let f = file(Some(3), vec![Checksum::Md5(SHA256_ABC.to_string())]);
    assert!(download(&f, &[b"abc"]).1.is_err());
}

#[test]
fn what_is_known_is_verified_and_the_rest_is_skipped() {
    let only_size = file(Some(3), vec![]);
    assert_eq!(download(&only_size, &[b"abc"]), (DownloadState::Verified, Ok(())));
    assert!(download(&only_size, &[b"ab"]).1.is_err());
    let only_sum = file(None, vec![Checksum::Md5(MD5_ABC.to_string())]);
    assert_eq!(download(&only_sum, &[b"abc"]), (DownloadState::Verified, Ok(())));
    assert!(download(&only_sum, &[b"abd"]).1.is_err());
    let nothing = file(None, vec![]);
    assert_eq!(download(&nothing, &[b"anything"]), (DownloadState::Verified, Ok(())));
}

#[test]
fn the_preferred_checksum_is_the_one_verified() {
    let f = file(
        Some(3),
        vec![Checksum::Md5("not the digest".to_string()), Checksum::Sha256(SHA256_ABC.to_string())],
    );
    assert_eq!(download(&f, &[b"abc"]), (DownloadState::Verified, Ok(())));
    let f = file(
        Some(3),
        vec![Checksum::Md5(MD5_ABC.to_string()), Checksum::Sha256("not the digest".to_string())],
    );
    assert!(download(&f, &[b"abc"]).1.is_err());
}

#[test]
fn the_status_of_the_reply_decides_how_a_download_fails() {
    let f = file(None, vec![]);
    for (status, want) in [
        (None, ErrorStatus::Temporary),
        (Some(500), ErrorStatus::Temporary),
        (Some(503), ErrorStatus::Temporary),
        (Some(404), ErrorStatus::Permanent),
        (Some(403), ErrorStatus::Permanent),
    ] {
        let mut d = FileDownload::start(&f);
        let e = d.connected(status).unwrap_err();
        assert_eq!(e.status, want);
        assert_eq!(e.message, "fail to send http GET to https://example.org/abc.txt");
        assert_eq!(d.state(), DownloadState::Failed(want));
        // nothing counts after a failure, and every step says so
        let e = d.chunk(b"abc").unwrap_err();
        assert_eq!((e.message.as_str(), e.status), ("the download has failed", want));
        assert_eq!(d.received(), 0);
        let (state, result) = d.finish();
        assert_eq!(state, DownloadState::Failed(want));
        let e = result.unwrap_err();
        assert_eq!((e.message.as_str(), e.status), ("the download has failed", want));
    }
}

#[test]
fn bytes_count_only_while_the_body_streams() {
    let f = file(Some(3), vec![]);
    let mut d = FileDownload::start(&f);
    let e = d.chunk(b"early").unwrap_err();
    assert_eq!(e.message, "the download has not connected");
    assert_eq!(e.status, ErrorStatus::Permanent);
    assert_eq!(d.received(), 0);
    assert_eq!(d.state(), DownloadState::Connecting);
    d.connected(Some(200)).unwrap();
    let e = d.connected(Some(500)).unwrap_err();
    assert_eq!(e.message, "the download is streaming already");
    assert_eq!(d.state(), DownloadState::Streaming);
    d.chunk(b"ab").unwrap();
    d.chunk(b"c").unwrap();
    assert_eq!(d.received(), 3);
    let e = d.broken("fail at writing to fs");
    assert_eq!(e.message, "fail at writing to fs");
    assert_eq!(e.status, ErrorStatus::Permanent);
    assert_eq!(d.state(), DownloadState::Failed(ErrorStatus::Permanent));
    let (state, result) = d.finish();
    assert_eq!(state, DownloadState::Failed(ErrorStatus::Permanent));
    assert!(result.is_err());
}

#[test]
fn a_download_that_never_connected_is_no_good_one() {
    let f = file(None, vec![]);
    let (state, result) = FileDownload::start(&f).finish();
    assert_eq!(state, DownloadState::Connecting);
    let e = result.unwrap_err();
    assert_eq!(e.message, "the download has not connected");
    assert_eq!(e.status, ErrorStatus::Permanent);
}

#[test]
fn checksums_show_their_kind() {
    assert_eq!(Checksum::Md5("ab".to_string()).to_string(), "(md5: ab)");
    assert_eq!(Checksum::Sha256("cd".to_string()).to_string(), "(sha256: cd)");
}
