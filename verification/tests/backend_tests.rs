use datahugger::dataset::{Backend, Dataset, ListStep};
use datahugger::datasets::zenodo::{guess_mime, parse_checksum};
use datahugger::listing::{check_status, read_reply, HttpReply, RateLimit};
use datahugger::xml::{parse_xml, XmlElement, XmlNode, XmlRefusal};
use datahugger::xml_bound::{has_doctype, nesting, MAX_XML_DEPTH};
use datahugger::{
    Arxiv, Checksum, DataDryad, Dataone, DataverseDataset, DataverseFile, DirMeta, Entry,
    ErrorStatus, FileMeta, GitHub, HalScience, HuggingFace, Zenodo, OSF,
};

fn reply(status: u16, body: &str) -> HttpReply {
    HttpReply { status: Some(status), body: body.as_bytes().to_vec() }
}

fn root(url: &str) -> DirMeta {
    DirMeta::new_root(url.to_string())
}

fn file(e: &Entry) -> &FileMeta {
    match e {
        Entry::File(f) => f,
        Entry::Dir(d) => panic!("a directory: {d:?}"),
    }
}

fn dir(e: &Entry) -> &DirMeta {
    match e {
        Entry::Dir(d) => d,
        Entry::File(f) => panic!("a file: {f:?}"),
    }
}

fn sums(f: &FileMeta) -> Vec<(String, String)> {
    f.checksum
        .iter()
        .map(|c| match c {
            Checksum::Md5(h) => ("md5".to_string(), h.clone()),
            Checksum::Sha256(h) => ("sha256".to_string(), h.clone()),
        })
        .collect()
}

#[test]
fn root_urls_are_those_of_the_providers() {
    assert_eq!(
        OSF::new("dezms").root_url().unwrap(),
        "https://api.osf.io/v2/nodes/dezms/files"
    );
    assert_eq!(
        Zenodo::new("17867222").root_url().unwrap(),
        "https://zenodo.org/api/records/17867222/files"
    );
    assert_eq!(
        Arxiv::new("2101.00001v1").root_url().unwrap(),
        "https://arxiv.org/pdf/2101.00001v1"
    );
    assert_eq!(
        DataDryad::new("doi:10.5061/dryad.mj8m0", "https://datadryad.org/").root_url().unwrap(),
        "https://datadryad.org/api/v2/datasets/doi:10.5061%2Fdryad.mj8m0"
    );
    assert_eq!(
        Dataone::new("https://arcticdata.io/", "doi%3A10.18739%2FA2542JB2X").root_url().unwrap(),
        "https://cn.dataone.org/cn/v2/object/doi%3A10.18739%2FA2542JB2X"
    );
    assert_eq!(
        Dataone::new("https://arcticdata.io/", "doi:10.5063/F1").root_url().unwrap(),
        "https://cn.dataone.org/cn/v2/object/doi:10.5063/F1"
    );
    assert_eq!(
        HalScience::new("cel-01830944").root_url().unwrap(),
        "https://api.archives-ouvertes.fr/search/?q=halId_s%3Acel-01830944&wt=json&fl=halId_s%2CfileMain_s%2Cfiles_s%2CfileType_s"
    );
    assert_eq!(
        HuggingFace::new("HuggingFaceFW", "finepdfs", "main").root_url().unwrap(),
        "https://huggingface.co/api/datasets/HuggingFaceFW/finepdfs/tree/main"
    );
    assert_eq!(
        GitHub::new("rs4rse", "vizmat", "main").root_url().unwrap(),
        "https://api.github.com/repos/rs4rse/vizmat/git/trees/main"
    );
    assert_eq!(
        DataverseDataset::new(
            "doi:10.7910/DVN/KBHLOD",
            "https://dataverse.harvard.edu/",
            ":latest-published"
        )
        .root_url()
        .unwrap(),
        "https://dataverse.harvard.edu/api/datasets/:persistentId/versions/:latest-published?persistentId=doi%3A10.7910%2FDVN%2FKBHLOD"
    );
    assert_eq!(
        DataverseFile::new(
            "doi:10.7910/DVN/KBHLOD/DHJ45U",
            "https://dataverse.harvard.edu/",
            ":latest-published"
        )
        .root_url()
        .unwrap(),
        "https://dataverse.harvard.edu/api/files/:persistentId/versions/:latest-published?persistentId=doi%3A10.7910%2FDVN%2FKBHLOD%2FDHJ45U"
    );
}

#[test]
fn root_url_fails_where_the_base_is_no_url() {
    assert!(DataverseDataset::new("id", "nowhere", "v").root_url().is_none());
}

#[test]
fn dataset_root_dir_lies_at_the_crawl_root() {
    let ds = Dataset::new(Backend::OSF(OSF::new("dezms")));
    assert_eq!(ds.record_id, "dezms");
    let d = ds.root_dir().unwrap();
    assert_eq!(d.path.as_str(), "__ROOT__");
    assert_eq!(d.api_url, "https://api.osf.io/v2/nodes/dezms/files");
    assert_eq!(d.root_url, d.api_url);
    assert_eq!(d.relative().as_str(), "");
    assert_eq!(d.join("x").as_str(), "__ROOT__/x");
    assert_eq!(
        d.to_string(),
        "DirMeta (at: __ROOT__, src: https://api.osf.io/v2/nodes/dezms/files)"
    );

    let hf = Dataset::new(Backend::HuggingFace(HuggingFace::new("o", "r", "dev")));
    assert_eq!(hf.record_id, "dev");
    let gh = Dataset::new(Backend::GitHub(GitHub::new("o", "r", "abc123")));
    assert_eq!(gh.record_id, "abc123");
}

#[test]
fn status_is_judged_by_its_class() {
    let url = "https://example.org/list";
    assert!(check_status(url, Some(200), None).is_ok());
    assert!(check_status(url, Some(204), None).is_ok());
    assert!(check_status(url, Some(302), None).is_ok());

    let e = check_status(url, None, None).unwrap_err();
    assert_eq!(e.status, ErrorStatus::Temporary);
    assert_eq!(e.message, "fail at client sent GET https://example.org/list");

    let e = check_status(url, Some(404), None).unwrap_err();
    assert_eq!(e.status, ErrorStatus::Permanent);
    assert_eq!(e.message, "resource not found when GET https://example.org/list");

    let e = check_status(url, Some(403), None).unwrap_err();
    assert_eq!(e.status, ErrorStatus::Permanent);
    assert_eq!(e.message, "fail GET https://example.org/list, with state code: 403");

    let e = check_status(url, Some(500), None).unwrap_err();
    assert_eq!(e.status, ErrorStatus::Temporary);
    assert_eq!(e.message, "fail GET https://example.org/list, with state code: 500");

    let e = check_status(url, Some(599), None).unwrap_err();
    assert_eq!(e.status, ErrorStatus::Temporary);
    let e = check_status(url, Some(499), None).unwrap_err();
    assert_eq!(e.status, ErrorStatus::Permanent);
    assert!(check_status(url, Some(600), None).is_ok());

    let limit = RateLimit { message: "slow down", status: ErrorStatus::Temporary };
    let e = check_status(url, Some(403), Some(limit)).unwrap_err();
    assert_eq!(e.status, ErrorStatus::Temporary);
    assert_eq!(e.message, "slow down");
    assert_eq!(e.to_string(), "repo fail: slow down");
}

#[test]
fn a_body_that_is_no_json_fails_for_good() {
    let e = read_reply("https://example.org/list", &reply(200, "<html>"), None).unwrap_err();
    assert_eq!(e.status, ErrorStatus::Permanent);
    assert_eq!(e.message, "fail GET https://example.org/list, unable to convert to json");
}

#[test]
fn osf_lists_files_and_folders() {
    let body = r#"{"data": [
        {"attributes": {"name": "a.txt", "kind": "file", "size": 12,
                        "extra": {"hashes": {"sha256": "ABCDEF", "md5": "00"}}},
         "links": {"download": "https://osf.io/download/abc/"}},
        {"attributes": {"name": "sub", "kind": "folder"},
         "relationships": {"files": {"links": {"related": {"href": "https://api.osf.io/v2/nodes/dezms/files/osfstorage/sub/"}}}}}
    ]}"#;
    let backend = OSF::new("dezms");
    let d = root("https://api.osf.io/v2/nodes/dezms/files");
    let entries = backend.list(&d, &reply(200, body)).unwrap();
    assert_eq!(entries.len(), 2);
    let f = file(&entries[0]);
    assert_eq!(f.path.as_str(), "__ROOT__/a.txt");
    assert_eq!(f.relative().as_str(), "a.txt");
    assert_eq!(f.download_url, "https://osf.io/download/abc/");
    assert_eq!(f.size, Some(12));
    assert_eq!(sums(f), vec![("sha256".to_string(), "ABCDEF".to_string())]);
    assert_eq!(f.mime, None);
    let ep = f.endpoint();
    assert_eq!(ep.parent_url, "https://api.osf.io/v2/nodes/dezms/files");
    assert_eq!(ep.key.as_deref(), Some("data.0"));
    let s = dir(&entries[1]);
    assert_eq!(s.path.as_str(), "__ROOT__/sub");
    assert_eq!(s.api_url, "https://api.osf.io/v2/nodes/dezms/files/osfstorage/sub/");
    assert_eq!(s.root_url, "https://api.osf.io/v2/nodes/dezms/files");
}

#[test]
fn osf_refuses_what_it_cannot_read() {
    let backend = OSF::new("dezms");
    let d = root("https://api.osf.io/v2/nodes/dezms/files");

    let e = backend.list(&d, &reply(200, r#"{"data": 3}"#)).unwrap_err();
    assert_eq!(e.message, "field with key 'data' not resolve to an json array");
    assert_eq!(e.status, ErrorStatus::Permanent);

    let e = backend
        .list(&d, &reply(200, r#"{"data": [{"attributes": {"name": "x", "kind": "link"}}]}"#))
        .unwrap_err();
    assert_eq!(e.message, "kind can be 'dataset' or 'kind' for an OSF entry, got link");

    let e = backend
        .list(&d, &reply(200, r#"{"data": [{"attributes": {"name": "x", "kind": "file"}}]}"#))
        .unwrap_err();
    assert_eq!(e.message, "fail to extracting 'attributes.size' as u64 from json");

    let body = r#"{"data": [{"attributes": {"name": "x", "kind": "file", "size": 1},
                             "links": {"download": "not a url"}}]}"#;
    let e = backend.list(&d, &reply(200, body)).unwrap_err();
    assert_eq!(e.message, "cannot parse 'not a url' download url");

    let e = backend.list(&d, &reply(404, "")).unwrap_err();
    assert_eq!(e.status, ErrorStatus::Permanent);
    let e = backend.list(&d, &reply(503, "")).unwrap_err();
    assert_eq!(e.status, ErrorStatus::Temporary);
    let e = backend.list(&d, &HttpReply { status: None, body: Vec::new() }).unwrap_err();
    assert_eq!(e.status, ErrorStatus::Temporary);

    assert!(backend.list(&d, &reply(200, r#"{"data": []}"#)).unwrap().is_empty());
}

#[test]
fn the_first_item_that_fails_decides() {
    let body = r#"{"data": [
        {"attributes": {"name": "x", "kind": "nothing"}},
        {"attributes": {"kind": "file"}}
    ]}"#;
    let backend = OSF::new("dezms");
    let d = root("https://api.osf.io/v2/nodes/dezms/files");
    let e = backend.list(&d, &reply(200, body)).unwrap_err();
    assert_eq!(e.message, "kind can be 'dataset' or 'kind' for an OSF entry, got nothing");
}

#[test]
fn zenodo_checksum_is_cut_at_the_first_colon_and_lowered() {
    assert!(matches!(parse_checksum("md5:ABCDEF").unwrap(), Checksum::Md5(h) if h == "abcdef"));
    assert!(matches!(parse_checksum("sha256:0AbC").unwrap(), Checksum::Sha256(h) if h == "0abc"));
    assert!(matches!(parse_checksum("md5:").unwrap(), Checksum::Md5(h) if h.is_empty()));
    let e = parse_checksum("crc32:1234").unwrap_err();
    assert_eq!(e.status, ErrorStatus::Permanent);
    assert_eq!(e.message, "checksum field is wrong");
    let e = parse_checksum("md5").unwrap_err();
    assert_eq!(e.message, "checksum format is wrong, type md5 but no checksum");
    let e = parse_checksum("sha256").unwrap_err();
    assert_eq!(e.message, "checksum format is wrong, type sha256 but no checksum");
    assert!(parse_checksum("").is_err());
}

#[test]
fn zenodo_lists_files_with_their_media_type() {
    let body = r#"{"entries": [
        {"key": "data/table.csv", "size": 3, "checksum": "md5:ABCDEF",
         "links": {"content": "https://zenodo.org/api/records/1/files/table.csv/content"}},
        {"key": "README", "size": 0, "checksum": "sha256:ff",
         "links": {"content": "https://zenodo.org/api/records/1/files/README/content"}}
    ]}"#;
    let backend = Zenodo::new("1");
    let d = root("https://zenodo.org/api/records/1/files");
    let entries = backend.list(&d, &reply(200, body)).unwrap();
    assert_eq!(entries.len(), 2);
    let f = file(&entries[0]);
    assert_eq!(f.path.as_str(), "__ROOT__/data/table.csv");
    assert_eq!(f.size, Some(3));
    assert_eq!(sums(f), vec![("md5".to_string(), "abcdef".to_string())]);
    assert_eq!(f.mime.as_deref(), Some("text/csv"));
    assert_eq!(f.endpoint().key.as_deref(), Some("entries.0"));
    let g = file(&entries[1]);
    assert_eq!(sums(g), vec![("sha256".to_string(), "ff".to_string())]);
    assert_eq!(g.mime, None);
    assert_eq!(g.endpoint().key.as_deref(), Some("entries.1"));

    let bad = r#"{"entries": [{"key": "a", "size": 3, "checksum": "sha1:00",
                  "links": {"content": "https://zenodo.org/x"}}]}"#;
    let e = backend.list(&d, &reply(200, bad)).unwrap_err();
    assert_eq!(e.message, "checksum field is wrong");
    assert_eq!(e.status, ErrorStatus::Permanent);
}

#[test]
fn mime_is_guessed_from_the_extension() {
    assert_eq!(guess_mime("a.csv").as_deref(), Some("text/csv"));
    assert_eq!(guess_mime("a.PDF").as_deref(), Some("application/pdf"));
    assert_eq!(guess_mime("noextension"), None);
    assert_eq!(guess_mime("a.no-such-extension"), None);
}

#[test]
fn dataverse_dataset_lists_its_files() {
    let body = r#"{"status": "OK", "data": {"files": [
        {"dataFile": {"filename": "a.tab", "id": 4938499, "filesize": 100, "md5": "0123"}}
    ]}}"#;
    let backend =
        DataverseDataset::new("doi:10.7910/DVN/KBHLOD", "https://dataverse.nl/", ":latest-published");
    let d = root("https://dataverse.nl/api/datasets/x");
    let entries = backend.list(&d, &reply(200, body)).unwrap();
    assert_eq!(entries.len(), 1);
    let f = file(&entries[0]);
    assert_eq!(f.path.as_str(), "__ROOT__/a.tab");
    assert_eq!(f.download_url, "https://dataverse.nl/api/access/datafile/4938499");
    assert_eq!(f.size, Some(100));
    assert_eq!(sums(f), vec![("md5".to_string(), "0123".to_string())]);
    assert_eq!(f.endpoint().key.as_deref(), Some("data.files.0"));

    let e = backend.list(&d, &reply(200, r#"{"data": {}}"#)).unwrap_err();
    assert_eq!(e.message, "field with key 'data.files' not resolve to an json array");
}

#[test]
fn dataverse_file_gives_exactly_one_file() {
    let body = r#"{"data": {"dataFile": {"filename": "b.txt", "id": 7, "filesize": 5, "md5": "ff"}}}"#;
    let backend =
        DataverseFile::new("doi:10.7910/DVN/KBHLOD/DHJ45U", "https://dataverse.harvard.edu/", ":latest-published");
    let d = root("https://dataverse.harvard.edu/api/files/x");
    let entries = backend.list(&d, &reply(200, body)).unwrap();
    assert_eq!(entries.len(), 1);
    let f = file(&entries[0]);
    assert_eq!(f.path.as_str(), "__ROOT__/b.txt");
    assert_eq!(f.download_url, "https://dataverse.harvard.edu/api/access/datafile/7");
    assert_eq!(f.endpoint().key.as_deref(), Some("data"));

    let e = backend.list(&d, &reply(200, r#"{"other": 1}"#)).unwrap_err();
    assert_eq!(e.message, "field with key 'data' not resolve to an json value");
}

#[test]
fn dryad_lists_in_two_steps() {
    let backend = DataDryad::new("doi:10.5061/dryad.mj8m0", "https://datadryad.org/");
    let d = root("https://datadryad.org/api/v2/datasets/doi:10.5061%2Fdryad.mj8m0");
    let first = r#"{"_links": {"stash:version": {"href": "/api/v2/versions/26724"}}}"#;
    let files_url = backend.files_url(&d, &reply(200, first)).unwrap();
    assert_eq!(files_url, "https://datadryad.org/api/v2/versions/26724/files");

    let second = r#"{"_embedded": {"stash:files": [
        {"path": "readme.txt", "size": 9, "digestType": "MD5", "digest": "aa",
         "_links": {"stash:download": {"href": "/api/v2/files/1/download"}}}
    ]}}"#;
    let entries = backend.list(&d, &files_url, &reply(200, second)).unwrap();
    assert_eq!(entries.len(), 1);
    let f = file(&entries[0]);
    assert_eq!(f.path.as_str(), "__ROOT__/readme.txt");
    assert_eq!(f.download_url, "https://datadryad.org/api/v2/files/1/download");
    assert_eq!(f.size, Some(9));
    assert_eq!(sums(f), vec![("md5".to_string(), "aa".to_string())]);
    let ep = f.endpoint();
    assert_eq!(ep.parent_url, "https://datadryad.org/api/v2/versions/26724/files");
    assert_eq!(ep.key.as_deref(), Some("_embedded.stash:files.0"));

    let sha = r#"{"_embedded": {"stash:files": [
        {"path": "readme.txt", "size": 9, "digestType": "sha-256", "digest": "aa",
         "_links": {"stash:download": {"href": "/api/v2/files/1/download"}}}
    ]}}"#;
    let e = backend.list(&d, &files_url, &reply(200, sha)).unwrap_err();
    assert_eq!(e.message, "unsupported hash type, 'sha-256'");
    assert_eq!(e.status, ErrorStatus::Permanent);

    let e = backend.files_url(&d, &reply(200, "{}")).unwrap_err();
    assert_eq!(e.message, "fail to extract '_links.stash:version.href' as string from json");
}

#[test]
fn dryad_follows_one_url_through_the_backend() {
    let backend = Backend::DataDryad(DataDryad::new("doi:10.5061/dryad.mj8m0", "https://datadryad.org/"));
    assert!(backend.needs_request());
    let d = root("https://datadryad.org/api/v2/datasets/x");
    let first = r#"{"_links": {"stash:version": {"href": "/api/v2/versions/26724"}}}"#;
    let url = match backend.list(&d, None, &reply(200, first)).unwrap() {
        ListStep::Follow(u) => u,
        ListStep::Entries(_) => panic!("entries after the first step"),
    };
    assert_eq!(url, "https://datadryad.org/api/v2/versions/26724/files");
    let second = r#"{"_embedded": {"stash:files": []}}"#;
    match backend.list(&d, Some(&url), &reply(200, second)).unwrap() {
        ListStep::Entries(v) => assert!(v.is_empty()),
        ListStep::Follow(_) => panic!("a third step"),
    }
}

#[test]
fn hal_names_files_after_the_last_segment() {
    let body = r#"{"response": {"numFound": 1, "docs": [{
        "halId_s": "cel-01830944",
        "files_s": ["https://hal.science/cel-01830944/file/MAILLOT_Cours.pdf"]
    }]}}"#;
    let backend = HalScience::new("cel-01830944");
    let d = root("https://api.archives-ouvertes.fr/search/?q=x");
    let entries = backend.list(&d, &reply(200, body)).unwrap();
    assert_eq!(entries.len(), 1);
    let f = file(&entries[0]);
    assert_eq!(f.path.as_str(), "__ROOT__/MAILLOT_Cours.pdf.pdf");
    assert_eq!(f.download_url, "https://hal.science/cel-01830944/file/MAILLOT_Cours.pdf");
    assert_eq!(f.size, None);
    assert!(f.checksum.is_empty());
    assert_eq!(f.endpoint().key.as_deref(), Some("response.docs.0.files_s.0"));

    let e = backend.list(&d, &reply(200, r#"{"response": {"docs": []}}"#)).unwrap_err();
    assert_eq!(e.message, "field with key 'response.docs.0.files_s' not resolve to an json array");
    let e = backend
        .list(&d, &reply(200, r#"{"response": {"docs": [{"files_s": [3]}]}}"#))
        .unwrap_err();
    assert_eq!(e.message, "a file of the record is not given as a string");
}

#[test]
fn arxiv_lists_its_one_file_without_a_request() {
    let backend = Arxiv::new("2101.00001v1");
    let d = root(&backend.root_url().unwrap());
    let entries = backend.list(&d);
    assert_eq!(entries.len(), 1);
    let f = file(&entries[0]);
    assert_eq!(f.relative().as_str(), "2101.00001v1.pdf");
    assert_eq!(f.download_url, "https://arxiv.org/pdf/2101.00001v1");
    assert_eq!(f.size, None);
    assert!(f.checksum.is_empty());

    let any = Backend::Arxiv(Arxiv::new("2101.00001v1"));
    assert!(!any.needs_request());
    match any.list(&d, None, &HttpReply { status: None, body: Vec::new() }).unwrap() {
        ListStep::Entries(v) => assert_eq!(v.len(), 1),
        ListStep::Follow(_) => panic!("arXiv follows nothing"),
    }
}

#[test]
fn huggingface_lists_files_and_directories() {
    let body = r#"[
        {"type": "file", "path": "data/train.parquet", "size": 10, "oid": "aaa",
         "lfs": {"oid": "bbb", "size": 10}},
        {"type": "file", "path": "README.md", "size": 4, "oid": "ccc"},
        {"type": "directory", "path": "data/sub", "oid": "ddd"}
    ]"#;
    let backend = HuggingFace::new("owner", "repo", "main");
    let d = DirMeta::new(
        datahugger::CrawlPath::root().join("data"),
        "https://huggingface.co/api/datasets/owner/repo/tree/main/data".to_string(),
        "https://huggingface.co/api/datasets/owner/repo/tree/main".to_string(),
    );
    let entries = backend.list(&d, &reply(200, body)).unwrap();
    assert_eq!(entries.len(), 3);
    let f = file(&entries[0]);
    assert_eq!(f.path.as_str(), "__ROOT__/data/train.parquet");
    assert_eq!(
        f.download_url,
        "https://huggingface.co/datasets/owner/repo/resolve/main/data/train.parquet"
    );
    assert_eq!(f.size, Some(10));
    assert_eq!(sums(f), vec![("sha256".to_string(), "bbb".to_string())]);
    assert_eq!(f.endpoint().key.as_deref(), Some("filej.0"));
    let g = file(&entries[1]);
    assert_eq!(sums(g), vec![("sha256".to_string(), "ccc".to_string())]);
    let s = dir(&entries[2]);
    assert_eq!(s.path.as_str(), "__ROOT__/data/sub");
    assert_eq!(s.api_url, "https://huggingface.co/api/datasets/owner/repo/tree/main/sub");
    assert_eq!(s.root_url, "https://huggingface.co/api/datasets/owner/repo/tree/main");

    let e = backend.list(&d, &reply(403, "")).unwrap_err();
    assert_eq!(e.message, "Hugging Face API rate limit exceeded");
    assert_eq!(e.status, ErrorStatus::Temporary);
    let e = backend.list(&d, &reply(200, r#"{"a": 1}"#)).unwrap_err();
    assert_eq!(e.message, "Expected array from Hugging Face tree API");
    let e = backend
        .list(&d, &reply(200, r#"[{"type": "symlink", "path": "x"}]"#))
        .unwrap_err();
    assert_eq!(e.message, "Unknown HF entry type: symlink");
    let e = backend
        .list(&d, &reply(200, r#"[{"type": "file", "path": "x", "size": 1}]"#))
        .unwrap_err();
    assert_eq!(
        e.message,
        "Missing 'lfs.oid' from https://huggingface.co/api/datasets/owner/repo/tree/main/data"
    );
}

#[test]
fn github_lists_blobs_and_trees() {
    let body = r#"{"sha": "abc", "tree": [
        {"path": "README.md", "type": "blob", "size": 7, "url": "https://api.github.com/repos/o/r/git/blobs/1"},
        {"path": "LICENSE", "type": "blob", "url": "https://api.github.com/repos/o/r/git/blobs/2"},
        {"path": "src", "type": "tree", "url": "https://api.github.com/repos/o/r/git/trees/3"}
    ]}"#;
    let backend = GitHub::new("o", "r", "main");
    let d = DirMeta::new(
        datahugger::CrawlPath::root().join("docs"),
        "https://api.github.com/repos/o/r/git/trees/9".to_string(),
        "https://api.github.com/repos/o/r/git/trees/main".to_string(),
    );
    let entries = backend.list(&d, &reply(200, body)).unwrap();
    assert_eq!(entries.len(), 3);
    let f = file(&entries[0]);
    assert_eq!(f.path.as_str(), "__ROOT__/docs/README.md");
    assert_eq!(f.download_url, "https://raw.githubusercontent.com/o/r/main/docs/README.md");
    assert_eq!(f.size, Some(7));
    assert!(f.checksum.is_empty());
    assert_eq!(f.endpoint().key.as_deref(), Some("tree.0"));
    assert_eq!(file(&entries[1]).size, Some(0));
    let s = dir(&entries[2]);
    assert_eq!(s.path.as_str(), "__ROOT__/docs/src");
    assert_eq!(s.api_url, "https://api.github.com/repos/o/r/git/trees/3");
    assert_eq!(s.root_url, "https://api.github.com/repos/o/r/git/trees/main");

    let e = backend.list(&d, &reply(403, "")).unwrap_err();
    assert_eq!(e.status, ErrorStatus::Permanent);
    assert!(e.message.contains("GITHUB_TOKEN"));
    assert!(e.message.contains("rate limit"));
    let e = backend.list(&d, &reply(200, r#"{"tree": [{"path": "x", "type": "commit"}]}"#)).unwrap_err();
    assert_eq!(e.message, "Unknown tree type: commit");
    let e = backend.list(&d, &reply(200, "{}")).unwrap_err();
    assert_eq!(e.message, "No 'tree' field in GitHub API response");
}

fn element(name: &str, attributes: Vec<(&str, &str)>, children: Vec<XmlNode>) -> XmlNode {
    XmlNode::Element(XmlElement {
        name: name.to_string(),
        attributes: attributes
            .into_iter()
            .map(|(k, v)| (k.to_string(), v.to_string()))
            .collect(),
        children,
    })
}

fn leaf(name: &str, text: &str) -> XmlNode {
    element(name, vec![], vec![XmlNode::Text(text.to_string())])
}

#[test]
fn xml_elements_answer_like_a_tree() {
    let e = XmlElement {
        name: "root".to_string(),
        attributes: vec![("a".to_string(), "1".to_string()), ("a".to_string(), "2".to_string())],
        children: vec![
            XmlNode::Text("one ".to_string()),
            XmlNode::Other,
            leaf("child", "first"),
            XmlNode::CData("two".to_string()),
            leaf("child", "second"),
        ],
    };
    assert_eq!(e.text().as_deref(), Some("one two"));
    assert_eq!(e.child("child").unwrap().text().as_deref(), Some("first"));
    assert!(e.child("other").is_none());
    assert_eq!(e.attribute("a").map(|s| s.as_str()), Some("2"));
    assert!(e.attribute("b").is_none());
    assert_eq!(e.child("child").unwrap().child("x").map(|c| c.name.clone()), None);
    let empty = XmlElement { name: "e".to_string(), attributes: vec![], children: vec![] };
    assert_eq!(empty.text(), None);
}

#[test]
fn dataone_lists_the_entities_of_the_dataset() {
    let body = r#"<?xml version="1.0" encoding="UTF-8"?>
<eml:eml xmlns:eml="https://eml.ecoinformatics.org/eml-2.2.0">
  <dataset>
    <title>Some data</title>
    <otherEntity>
      <entityName>notes.txt</entityName>
      <physical>
        <size unit="byte">120</size>
        <distribution><online><url function="download">https://arcticdata.io/metacat/d1/mn/v2/object/urn%3Auuid%3A1</url></online></distribution>
      </physical>
    </otherEntity>
    <!-- a comment -->
    <dataTable>
      <entityName>table.csv</entityName>
      <physical>
        <distribution><online><url function="download">https://arcticdata.io/metacat/d1/mn/v2/object/urn%3Auuid%3A2</url></online></distribution>
      </physical>
    </dataTable>
  </dataset>
</eml:eml>"#;
    let backend = Dataone::new("https://arcticdata.io/", "doi%3A10.18739%2FA2542JB2X");
    let d = root("https://cn.dataone.org/cn/v2/object/doi%3A10.18739%2FA2542JB2X");
    let entries = backend.list(&d, &reply(200, body)).unwrap();
    assert_eq!(entries.len(), 2);
    let f = file(&entries[0]);
    assert_eq!(f.path.as_str(), "__ROOT__/notes.txt");
    assert_eq!(f.download_url, "https://arcticdata.io/metacat/d1/mn/v2/object/urn%3Auuid%3A1");
    assert_eq!(f.size, Some(120));
    assert!(f.checksum.is_empty());
    assert_eq!(
        f.endpoint().key.as_deref(),
        Some("dataset.physical.distribution.online.url[@function='download']")
    );
    let g = file(&entries[1]);
    assert_eq!(g.path.as_str(), "__ROOT__/table.csv");
    assert_eq!(g.size, None);
}

#[test]
fn dataone_refuses_what_it_cannot_read() {
    let backend = Dataone::new("https://arcticdata.io/", "x");
    let d = root("https://cn.dataone.org/cn/v2/object/x");
    let e = backend.list(&d, &reply(200, "no xml at all")).unwrap_err();
    assert_eq!(e.message, "Failed to parse XML");
    assert_eq!(e.status, ErrorStatus::Permanent);
    let e = backend.list(&d, &reply(404, "")).unwrap_err();
    assert_eq!(e.message, "resource not found when GET https://cn.dataone.org/cn/v2/object/x");

    assert!(backend.list(&d, &reply(200, "<eml><other/></eml>")).unwrap().is_empty());

    let info = r#"<eml><dataset><otherEntity><entityName>n</entityName><physical>
        <distribution><online><url function="information">https://a.org/x</url></online></distribution>
        </physical></otherEntity></dataset></eml>"#;
    let e = backend.list(&d, &reply(200, info)).unwrap_err();
    assert_eq!(
        e.message,
        "not found download url at https://cn.dataone.org/cn/v2/object/x, through 'physical.distribution.online.url.function.download'"
    );

    let size = r#"<eml><dataset><otherEntity><entityName>n</entityName><physical><size>big</size>
        <distribution><online><url function="download">https://a.org/x</url></online></distribution>
        </physical></otherEntity></dataset></eml>"#;
    let e = backend.list(&d, &reply(200, size)).unwrap_err();
    assert_eq!(e.message, "cannot parse file physical size, 'big'");

    let root_el = XmlElement {
        name: "eml".to_string(),
        attributes: vec![],
        children: vec![element(
            "dataset",
            vec![],
            vec![element(
                "dataTable",
                vec![],
                vec![element(
                    "physical",
                    vec![],
                    vec![element(
                        "distribution",
                        vec![],
                        vec![element(
                            "online",
                            vec![],
                            vec![element(
                                "url",
                                vec![("function", "download")],
                                vec![XmlNode::Text("https://a.org/x".to_string())],
                            )],
                        )],
                    )],
                )],
            )],
        )],
    };
    let e = backend.entries(&d, &root_el).unwrap_err();
    assert_eq!(e.message, "name not found");
}

#[test]
fn entries_show_what_they_hold() {
    let f = FileMeta::new(
        datahugger::CrawlPath::root().join("a.txt"),
        datahugger::Endpoint { parent_url: "https://e.org/l".to_string(), key: Some("data.0".to_string()) },
        "https://e.org/a.txt".to_string(),
        Some(12),
        vec![Checksum::Md5("aa".to_string()), Checksum::Sha256("bb".to_string())],
    );
    assert_eq!(
        f.to_string(),
        "FileMeta (at: __ROOT__/a.txt, endpoint: Endpoint (parent_url: https://e.org/l, key: data.0), download_url: https://e.org/a.txt, size: 12, checksum: (md5: aa),(sha256: bb))"
    );
    let g = FileMeta::new(
        datahugger::CrawlPath::root().join("b"),
        datahugger::Endpoint { parent_url: "p".to_string(), key: None },
        "u".to_string(),
        None,
        vec![],
    );
    assert_eq!(
        g.to_string(),
        "FileMeta (at: __ROOT__/b, endpoint: Endpoint (parent_url: p, key: <Null>), download_url: u, size: <Null>, checksum: )"
    );
}

#[test]
fn parse_xml_reads_a_document() {
    let root = parse_xml(
        br#"<?xml version="1.0"?><r z="1" a="2" m="3"><k>t<![CDATA[u]]></k><!-- c --><e/></r>"#,
    )
    .unwrap();
    assert_eq!(root.name, "r");
    assert_eq!(
        root.attributes,
        vec![
            ("a".to_string(), "2".to_string()),
            ("m".to_string(), "3".to_string()),
            ("z".to_string(), "1".to_string()),
        ]
    );
    assert_eq!(root.attribute("m").map(|s| s.as_str()), Some("3"));
    assert_eq!(root.child("k").unwrap().text().as_deref(), Some("tu"));
    assert!(root.child("e").unwrap().children.is_empty());
    assert_eq!(root.children.len(), 3);
    assert!(matches!(root.children[1], XmlNode::Other));
    assert_eq!(parse_xml(b"<open>").unwrap_err(), XmlRefusal::Malformed);
    assert_eq!(parse_xml(b"").unwrap_err(), XmlRefusal::Malformed);
}

fn nested(depth: usize) -> Vec<u8> {
    let mut s = "<a>".repeat(depth);
    s.push_str(&"</a>".repeat(depth));
    s.into_bytes()
}

#[test]
fn nesting_is_judged_from_the_bytes() {
    assert_eq!(MAX_XML_DEPTH, 256);
    assert_eq!(nesting(b""), 0);
    assert_eq!(nesting(b"no tags at all"), 0);
    assert_eq!(nesting(b"<a/>"), 1);
    assert_eq!(nesting(b"<a></a><b></b><c/>"), 1);
    assert_eq!(nesting(b"<a><b><c/></b><d>text</d></a>"), 3);
    assert_eq!(nesting(&nested(40)), 40);
    assert_eq!(nesting(&"<a><b/></a>".repeat(5000).into_bytes()), 2);
    // declarations, comments and character data open nothing
    assert_eq!(
        nesting(b"<?xml version=\"1.0\"?><a><!-- <b> --><![CDATA[<c>]]]></a><d/>"),
        1
    );
    // quoted attribute values may hold what looks like the end of a tag
    assert_eq!(nesting(b"<a x=\"/>\" y='>'><b z=\"'\"/></a><c/>"), 2);
    // off the plain forms every `<` counts and nothing closes
    assert_eq!(nesting(b"<a x=\"</a>\"></a><b></b>"), 5);
    assert_eq!(nesting(b"<a></a><!x><b></b><c></c>"), 4);
    assert_eq!(nesting(b"<a><!---></a>--></a>"), 1);
    assert_eq!(nesting(b"<a><!-- -- --></a><b></b>"), 4);
    assert_eq!(nesting(b"<\0a\0>\0<\0/\0a\0>\0"), 2);
    assert_eq!(nesting(b"<<<"), 2);
    assert_eq!(nesting(b"</a></a><a/>"), 1);
}

#[test]
fn document_type_declarations_are_found() {
    assert!(has_doctype(b"<!DOCTYPE eml><eml/>"));
    assert!(has_doctype(b"<?xml version=\"1.0\"?>\n<!DOCTYPE r [<!ENTITY e \"x\">]><r/>"));
    assert!(has_doctype(b"<\0!\0D\0O\0C\0"));
    assert!(has_doctype(b"\0<\0!\0D"));
    assert!(has_doctype(b"<!D"));
    assert!(!has_doctype(b""));
    assert!(!has_doctype(b"<!"));
    assert!(!has_doctype(b"<title>Warning! Data may be wrong!D</title>"));
    assert!(!has_doctype(b"<a>! D</a><!-- D --><![CDATA[D]]>"));
    assert!(!has_doctype(b"<!d"));
    assert!(!has_doctype(b"<\0!D"));
}

#[test]
fn xml_is_read_up_to_a_bound_on_its_nesting() {
    let deepest = parse_xml(&nested(256)).unwrap();
    assert_eq!(deepest.name, "a");
    assert_eq!(parse_xml(&nested(257)).unwrap_err(), XmlRefusal::TooDeep);
    // nothing is parsed beyond the bound, however deep
    assert_eq!(parse_xml(&nested(100_000)).unwrap_err(), XmlRefusal::TooDeep);
    assert_eq!(parse_xml(&"<a>".repeat(256).into_bytes()).unwrap_err(), XmlRefusal::Malformed);
    assert_eq!(parse_xml(&"<a>".repeat(257).into_bytes()).unwrap_err(), XmlRefusal::TooDeep);
    // a document may be as long as it likes
    let mut long = String::from("<r>");
    long.push_str(&"<e k=\"v\"><n>x</n></e>".repeat(20_000));
    long.push_str("</r>");
    let root = parse_xml(long.as_bytes()).unwrap();
    assert_eq!(root.children.len(), 20_000);
    assert_eq!(
        parse_xml(b"<r><t>Warning! Data</t><!-- c --><![CDATA[<x>]]></r>").unwrap().name,
        "r"
    );
}

#[test]
fn xml_with_a_document_type_is_not_read() {
    let with_entity = br#"<?xml version="1.0"?>
<!DOCTYPE r [<!ENTITY e "&#60;a>&#60;a>&#60;a>">]>
<r>&e;</r>"#;
    assert_eq!(parse_xml(with_entity).unwrap_err(), XmlRefusal::Doctype);
    assert_eq!(parse_xml(b"<!DOCTYPE html><html/>").unwrap_err(), XmlRefusal::Doctype);
    let backend = Dataone::new("https://arcticdata.io/", "x");
    let d = root("https://cn.dataone.org/cn/v2/object/x");
    let e = backend.list(&d, &reply(200, "<!DOCTYPE eml><eml><dataset/></eml>")).unwrap_err();
    assert_eq!(e.message, "Failed to parse XML: it holds a document type declaration");
    assert_eq!(e.status, ErrorStatus::Permanent);
    let deep = String::from_utf8(nested(300)).unwrap();
    let e = backend.list(&d, &reply(200, &deep)).unwrap_err();
    assert_eq!(e.message, "Failed to parse XML: its elements nest too deep");
    assert_eq!(e.status, ErrorStatus::Permanent);
    assert!(backend.list(&d, &reply(200, "<a>!D</a>")).unwrap().is_empty());
}

#[test]
fn dataone_lists_datasets_of_many_files() {
    let mut body = String::from("<eml><dataset><title>Warning! Data</title>");
    for i in 0..500 {
        body.push_str(&format!(
            "<otherEntity><entityName>f{i}.csv</entityName><physical><size>{i}</size>\
             <distribution><online><url function=\"download\">https://a.org/{i}</url></online>\
             </distribution></physical></otherEntity>"
        ));
    }
    body.push_str("</dataset></eml>");
    let backend = Dataone::new("https://arcticdata.io/", "x");
    let d = root("https://cn.dataone.org/cn/v2/object/x");
    let entries = backend.list(&d, &reply(200, &body)).unwrap();
    assert_eq!(entries.len(), 500);
    assert_eq!(file(&entries[499]).path.as_str(), "__ROOT__/f499.csv");
    assert_eq!(file(&entries[499]).size, Some(499));
}
