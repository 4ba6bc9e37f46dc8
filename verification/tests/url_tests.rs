use datahugger::weburl::{normalize_url, split_url, url_append_pair, url_extend, url_join};

fn strings(v: &[&str]) -> Vec<String> {
    v.iter().map(|s| s.to_string()).collect()
}

#[test]
fn normalize_writes_the_url_as_the_parser_does() {
    assert_eq!(normalize_url("https://arcticdata.io").unwrap(), "https://arcticdata.io/");
    assert_eq!(normalize_url("HTTPS://Example.COM/a b").unwrap(), "https://example.com/a%20b");
    assert_eq!(
        normalize_url("https://example.com/a/../b/./c").unwrap(),
        "https://example.com/b/c"
    );
    assert!(normalize_url("not a url").is_none());
    assert!(normalize_url("").is_none());
    assert!(normalize_url("../relative").is_none());
}

#[test]
fn split_takes_a_url_apart() {
    let p = split_url("https://Dataverse.Harvard.edu/dataset.xhtml?persistentId=doi:10.7910/DVN/KBHLOD&x=a%20b")
        .unwrap();
    assert_eq!(
        p.href,
        "https://dataverse.harvard.edu/dataset.xhtml?persistentId=doi:10.7910/DVN/KBHLOD&x=a%20b"
    );
    assert_eq!(p.scheme, "https");
    assert_eq!(p.domain.as_deref(), Some("dataverse.harvard.edu"));
    assert_eq!(p.host.as_deref(), Some("dataverse.harvard.edu"));
    assert_eq!(p.segments, Some(strings(&["dataset.xhtml"])));
    assert_eq!(
        p.query,
        vec![
            ("persistentId".to_string(), "doi:10.7910/DVN/KBHLOD".to_string()),
            ("x".to_string(), "a b".to_string()),
        ]
    );
}

#[test]
fn split_tells_hosts_that_are_no_domains() {
    let p = split_url("http://127.0.0.1:8080/a/b/").unwrap();
    assert_eq!(p.domain, None);
    assert_eq!(p.host.as_deref(), Some("127.0.0.1"));
    assert_eq!(p.segments, Some(strings(&["a", "b", ""])));
    assert!(p.query.is_empty());

    let p = split_url("mailto:someone@example.com").unwrap();
    assert_eq!(p.scheme, "mailto");
    assert_eq!(p.host, None);
    assert_eq!(p.segments, None);

    assert!(split_url("no url").is_none());
}

#[test]
fn extend_puts_segments_behind_the_path() {
    assert_eq!(
        url_extend("https://api.osf.io/v2/nodes", &strings(&["dezms", "files"])).unwrap(),
        "https://api.osf.io/v2/nodes/dezms/files"
    );
    assert_eq!(
        url_extend("https://api.osf.io/v2/nodes/", &strings(&["dezms"])).unwrap(),
        "https://api.osf.io/v2/nodes//dezms"
    );
    assert_eq!(
        url_extend("https://dataverse.harvard.edu/", &strings(&["api"])).unwrap(),
        "https://dataverse.harvard.edu/api"
    );
    assert_eq!(
        url_extend("https://arxiv.org", &strings(&["pdf", "2101.00001v1"])).unwrap(),
        "https://arxiv.org/pdf/2101.00001v1"
    );
    assert_eq!(
        url_extend("https://example.com/a", &strings(&["b c", "d/e", "..", ".", "f?g"])).unwrap(),
        "https://example.com/a/b%20c/d%2Fe/f%3Fg"
    );
    assert_eq!(url_extend("https://example.com/a", &strings(&[])).unwrap(), "https://example.com/a");
    assert!(url_extend("mailto:someone@example.com", &strings(&["x"])).is_none());
    assert!(url_extend("no url", &strings(&["x"])).is_none());
}

#[test]
fn append_pair_puts_a_pair_behind_the_query() {
    assert_eq!(
        url_append_pair("https://example.com/search/", "q", "halId_s:cel-1").unwrap(),
        "https://example.com/search/?q=halId_s%3Acel-1"
    );
    assert_eq!(
        url_append_pair("https://example.com/?a=1", "b c", "d&e").unwrap(),
        "https://example.com/?a=1&b+c=d%26e"
    );
    assert!(url_append_pair("no url", "a", "b").is_none());
}

#[test]
fn join_reads_a_reference_against_a_base() {
    assert_eq!(
        url_join("https://datadryad.org/", "/api/v2/versions/12").unwrap(),
        "https://datadryad.org/api/v2/versions/12"
    );
    assert_eq!(
        url_join("https://cn.dataone.org/cn/v2/object/", "doi%3A10.18739%2FA2542JB2X").unwrap(),
        "https://cn.dataone.org/cn/v2/object/doi%3A10.18739%2FA2542JB2X"
    );
    assert_eq!(
        url_join("https://example.com/a/b", "c").unwrap(),
        "https://example.com/a/c"
    );
    assert_eq!(url_join("https://example.com/a/", "https://other.org/x").unwrap(), "https://other.org/x");
    assert!(url_join("no url", "c").is_none());
}

#[test]
fn texts_that_are_too_long_are_refused() {
    let long = "a".repeat(0x0100_0000);
    assert!(url_extend("https://example.com/", &vec![long.clone()]).is_none());
    assert!(url_append_pair("https://example.com/", "k", &long).is_none());
}
