use datahugger::path::compact_path;
use datahugger::CrawlPath;

#[test]
fn root_join_relative_gives_the_segment_back() {
    for segment in ["dir", "file.txt", "a/b/c", "", "with space", "__ROOT__", "/lead"] {
        assert_eq!(CrawlPath::root().join(segment).relative().as_str(), segment);
    }
}

#[test]
fn relative_of_root_is_empty() {
    assert_eq!(CrawlPath::root().relative().as_str(), "");
    assert_eq!(CrawlPath::from_text("__ROOT__/").relative().as_str(), "");
}

#[test]
fn join_puts_exactly_one_slash() {
    let root = CrawlPath::root();
    assert_eq!(root.as_str(), "__ROOT__");
    let p = root.join("dir").join("file.txt");
    assert_eq!(p.as_str(), "__ROOT__/dir/file.txt");
    assert_eq!(CrawlPath::from_text("a/").join("b").as_str(), "a/b");
    assert_eq!(CrawlPath::from_text("").join("b").as_str(), "/b");
    assert_eq!(CrawlPath::from_text("a").join("/b").as_str(), "a//b");
}

#[test]
fn join_keeps_absolute_and_relative_resets_it() {
    let p = CrawlPath::root().join("dir").join("file.txt");
    assert!(p.is_absolute());
    assert!(!p.relative().is_absolute());
    assert_eq!(p.relative().as_str(), "dir/file.txt");
    let q = CrawlPath::from_text("dir").join("file.txt");
    assert!(!q.is_absolute());
    assert_eq!(q.relative().as_str(), "dir/file.txt");
    assert!(!CrawlPath::from_text("__ROOT_").join("_").is_absolute());
}

#[test]
fn relative_strips_the_marker_once() {
    let p = CrawlPath::root().join("__ROOT__");
    assert!(p.relative().is_absolute());
    assert_eq!(p.relative().relative().as_str(), "");
    assert_eq!(CrawlPath::from_text("__ROOT__x/y").relative().as_str(), "x/y");
    assert_eq!(CrawlPath::from_text("__ROOT__//y").relative().as_str(), "/y");
}

#[test]
fn clone_keeps_the_text() {
    let p = CrawlPath::root().join("a");
    assert_eq!(p.clone().as_str(), "__ROOT__/a");
}

#[test]
fn compact_path_keeps_the_file_name() {
    assert_eq!(compact_path("data/raw/table.csv"), "d/r/table.csv");
    assert_eq!(compact_path("table.csv"), "table.csv");
    assert_eq!(compact_path(""), "");
    assert_eq!(compact_path("a//bc/./d"), "a/b/d");
    assert_eq!(compact_path("données/élan.txt"), "d/élan.txt");
    assert_eq!(compact_path("dir/sub/"), "d/sub");
}
