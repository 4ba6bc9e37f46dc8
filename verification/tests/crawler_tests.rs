use datahugger::{
    CrawlAction, CrawlPath, Crawler, DirMeta, Endpoint, Entry, ErrorStatus, FileMeta, RepoError,
};

fn dir(path: &str) -> DirMeta {
    DirMeta::new(
        CrawlPath::from_text(path),
        format!("https://example.org/list/{path}"),
        "https://example.org/root".to_string(),
    )
}

fn file(path: &str) -> Entry {
    Entry::File(FileMeta::new(
        CrawlPath::from_text(path),
        Endpoint { parent_url: "https://example.org/".to_string(), key: None },
        format!("https://example.org/get/{path}"),
        None,
        vec![],
    ))
}

fn listing(of: &str) -> Result<Vec<Entry>, RepoError> {
    match of {
        "__ROOT__" => Ok(vec![
            file("__ROOT__/a.txt"),
            Entry::Dir(dir("__ROOT__/d")),
            file("__ROOT__/z.txt"),
        ]),
        "__ROOT__/d" => Ok(vec![
            Entry::Dir(dir("__ROOT__/d/e")),
            file("__ROOT__/d/b.txt"),
        ]),
        "__ROOT__/d/e" => Ok(vec![file("__ROOT__/d/e/c.txt")]),
        "__ROOT__/empty" => Ok(vec![]),
        other => Err(RepoError::temporary(format!("cannot list {other}"))),
    }
}

fn walk(root: DirMeta) -> (Vec<String>, Vec<String>, Option<(String, ErrorStatus)>) {
    let mut crawler = Crawler::new(root);
    let mut yielded = Vec::new();
    let mut listed = Vec::new();
    let mut failure = None;
    for _ in 0..100 {
        match crawler.next() {
            CrawlAction::List(d) => {
                listed.push(d.path.as_str().to_string());
                crawler.listed(listing(d.path.as_str()));
            }
            CrawlAction::Yield(e) => yielded.push(e.path().as_str().to_string()),
            CrawlAction::Fail(e) => failure = Some((e.message.clone(), e.status)),
            CrawlAction::Done => return (yielded, listed, failure),
        }
    }
    panic!("the walk does not end");
}

#[test]
fn a_directory_comes_before_what_it_holds() {
    let (yielded, listed, failure) = walk(DirMeta::new_root("https://example.org/root".to_string()));
    assert_eq!(
        yielded,
        vec![
            "__ROOT__/a.txt",
            "__ROOT__/d",
            "__ROOT__/d/e",
            "__ROOT__/d/e/c.txt",
            "__ROOT__/d/b.txt",
            "__ROOT__/z.txt",
        ]
    );
    assert_eq!(listed, vec!["__ROOT__", "__ROOT__/d", "__ROOT__/d/e"]);
    assert!(failure.is_none());
    for (i, d) in yielded.iter().enumerate() {
        for (j, e) in yielded.iter().enumerate() {
            if e.starts_with(&format!("{d}/")) {
                assert!(i < j, "{d} after {e}");
            }
        }
    }
}

#[test]
fn an_empty_dataset_yields_nothing() {
    let (yielded, listed, failure) = walk(dir("__ROOT__/empty"));
    assert!(yielded.is_empty());
    assert_eq!(listed, vec!["__ROOT__/empty"]);
    assert!(failure.is_none());
}

#[test]
fn a_listing_that_fails_ends_the_walk_with_one_error() {
    let mut crawler = Crawler::new(DirMeta::new_root("https://example.org/root".to_string()));
    assert!(matches!(crawler.next(), CrawlAction::List(_)));
    // asked again until the listing is reported
    assert!(matches!(crawler.next(), CrawlAction::List(_)));
    crawler.listed(Ok(vec![Entry::Dir(dir("__ROOT__/broken")), file("__ROOT__/later.txt")]));
    assert!(matches!(crawler.next(), CrawlAction::Yield(Entry::Dir(_))));
    match crawler.next() {
        CrawlAction::List(d) => assert_eq!(d.path.as_str(), "__ROOT__/broken"),
        other => panic!("{other:?}"),
    }
    crawler.listed(listing("__ROOT__/broken"));
    match crawler.next() {
        CrawlAction::Fail(e) => {
            assert_eq!(e.status, ErrorStatus::Persistent);
            assert_eq!(
                e.message,
                "cannot list all entries of 'DirMeta (at: __ROOT__/broken, src: https://example.org/list/__ROOT__/broken)', after retry: repo fail: cannot list __ROOT__/broken"
            );
            assert!(e.to_string().starts_with("crawler fail: cannot list all entries of"));
        }
        other => panic!("{other:?}"),
    }
    assert!(matches!(crawler.next(), CrawlAction::Done));
    assert!(matches!(crawler.next(), CrawlAction::Done));
}

#[test]
fn a_listing_that_nobody_asked_for_changes_nothing() {
    let mut crawler = Crawler::new(dir("__ROOT__/empty"));
    assert!(matches!(crawler.next(), CrawlAction::List(_)));
    crawler.listed(Ok(vec![file("__ROOT__/one.txt")]));
    crawler.listed(Ok(vec![file("__ROOT__/two.txt")]));
    crawler.listed(Err(RepoError::permanent("late".to_string())));
    match crawler.next() {
        CrawlAction::Yield(e) => assert_eq!(e.path().as_str(), "__ROOT__/one.txt"),
        other => panic!("{other:?}"),
    }
    assert!(matches!(crawler.next(), CrawlAction::Done));
}

#[test]
fn the_failure_of_the_walk_carries_that_of_the_listing() {
    let mut crawler = Crawler::new(DirMeta::new_root("https://api.github.com/x".to_string()));
    assert!(matches!(crawler.next(), CrawlAction::List(_)));
    crawler.listed(Err(RepoError::permanent("rate limit: set GITHUB_TOKEN".to_string())));
    match crawler.next() {
        CrawlAction::Fail(e) => {
            assert_eq!(e.status, ErrorStatus::Persistent);
            assert_eq!(
                e.message,
                "cannot list all entries of 'DirMeta (at: __ROOT__, src: https://api.github.com/x)', after retry: repo fail: rate limit: set GITHUB_TOKEN"
            );
        }
        other => panic!("{other:?}"),
    }
    assert!(matches!(crawler.next(), CrawlAction::Done));
}
