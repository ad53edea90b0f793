use mkblogs_rss::{feed, filter_items, Article, FeedError, FetchFailure, RawItem, Source};

const PREFIX: &str = r#"<?xml version="1.0" encoding="UTF-8"?><rss version="2.0" xmlns:dc="http://purl.org/dc/elements/1.1/"><channel><title>blog</title><link>http://example.org</link><description>a blog</description>"#;
const SUFFIX: &str = "</channel></rss>";

fn document(items: &str) -> Vec<u8> {
    format!("{}{}{}", PREFIX, items, SUFFIX).into_bytes()
}

fn simple_doc(n: usize) -> Vec<u8> {
    let mut items = String::new();
    for k in 0..n {
        items.push_str(&format!(
            "<item><title>t{k}</title><description>d{k}</description><link>http://example.org/{k}</link><pubDate>p{k}</pubDate></item>"
        ));
    }
    document(&items)
}

fn fields(a: &Article) -> (String, String, String, String) {
    (a.title(), a.description(), a.link(), a.pub_date())
}

#[test]
fn conversion_fills_missing_fields_with_empty() {
    let item = RawItem {
        title: None,
        description: Some("body".to_string()),
        link: None,
        pub_date: Some("Mon, 01 Jan 2024 00:00:00 GMT".to_string()),
        creators: Vec::new(),
    };
    let a = Article::from(&item);
    assert_eq!(a.title(), "");
    assert_eq!(a.description(), "body");
    assert_eq!(a.link(), "");
    assert_eq!(a.pub_date(), "Mon, 01 Jan 2024 00:00:00 GMT");
}

#[test]
fn conversion_keeps_all_present_fields() {
    let item = RawItem {
        title: Some("t".to_string()),
        description: Some("d".to_string()),
        link: Some("l".to_string()),
        pub_date: Some("p".to_string()),
        creators: vec!["someone".to_string()],
    };
    let a = Article::from(&item);
    assert_eq!(fields(&a), ("t".to_string(), "d".to_string(), "l".to_string(), "p".to_string()));
}

#[test]
fn conversion_of_fully_empty_item_is_all_empty() {
    let item = RawItem {
        title: None,
        description: None,
        link: None,
        pub_date: None,
        creators: Vec::new(),
    };
    let a = Article::from(&item);
    assert_eq!(fields(&a), (String::new(), String::new(), String::new(), String::new()));
}

#[test]
fn successful_feed_has_every_source_key() {
    let r = feed(Ok(simple_doc(1)), Ok(simple_doc(2)), Ok(simple_doc(3)));
    let map = r.expect("three well-formed documents must aggregate");
    assert_eq!(map.get(Source::DevTo).len(), 1);
    assert_eq!(map.get(Source::Mufiz).len(), 3);
    // MoKa is attribution-filtered and none of its items carries a creator.
    assert_eq!(map.get(Source::MoKa).len(), 0);
}

#[test]
fn unfiltered_source_keeps_length_and_order() {
    let r = feed(Ok(simple_doc(3)), Ok(simple_doc(0)), Ok(simple_doc(0)));
    let map = r.unwrap();
    let devto = map.get(Source::DevTo);
    assert_eq!(devto.len(), 3);
    for k in 0..3 {
        let a = &devto[k];
        assert_eq!(a.title(), format!("t{k}"));
        assert_eq!(a.description(), format!("d{k}"));
        assert_eq!(a.link(), format!("http://example.org/{k}"));
        assert_eq!(a.pub_date(), format!("p{k}"));
    }
}

#[test]
fn moka_filter_keeps_only_designated_author() {
    let moka = document(
        "<item><title>kept</title><dc:creator>Mustafif Khan</dc:creator></item>\
         <item><title>dropped</title><dc:creator>Someone Else</dc:creator></item>\
         <item><title>unattributed</title></item>",
    );
    let r = feed(Ok(simple_doc(0)), Ok(moka), Ok(simple_doc(0)));
    let map = r.unwrap();
    let articles = map.get(Source::MoKa);
    assert_eq!(articles.len(), 1);
    assert_eq!(articles[0].title(), "kept");
}

#[test]
fn filter_for_designated_author_keeps_one_of_two() {
    let items = vec![
        RawItem {
            title: Some("first".to_string()),
            description: Some("one".to_string()),
            link: Some("http://example.org/1".to_string()),
            pub_date: Some("p1".to_string()),
            creators: vec!["Designated Author".to_string()],
        },
        RawItem {
            title: Some("second".to_string()),
            description: Some("two".to_string()),
            link: Some("http://example.org/2".to_string()),
            pub_date: Some("p2".to_string()),
            creators: vec!["Someone Else".to_string()],
        },
    ];
    let name = "Designated Author".to_string();
    let kept = filter_items(&items, &name);
    assert_eq!(kept.len(), 1);
    assert_eq!(
        fields(&kept[0]),
        (
            "first".to_string(),
            "one".to_string(),
            "http://example.org/1".to_string(),
            "p1".to_string()
        )
    );
}

#[test]
fn item_without_title_converts_to_empty_title() {
    let doc = document(
        "<item><description>still here</description><link>http://example.org/x</link><pubDate>p</pubDate></item>",
    );
    let r = feed(Ok(doc), Ok(simple_doc(0)), Ok(simple_doc(0)));
    let map = r.unwrap();
    let devto = map.get(Source::DevTo);
    assert_eq!(devto.len(), 1);
    assert_eq!(devto[0].title(), "");
    assert_eq!(devto[0].description(), "still here");
    assert_eq!(devto[0].link(), "http://example.org/x");
    assert_eq!(devto[0].pub_date(), "p");
}

#[test]
fn two_runs_on_same_bodies_agree() {
    let moka = document("<item><title>kept</title><dc:creator>Mustafif Khan</dc:creator></item>");
    let m1 = feed(Ok(simple_doc(2)), Ok(moka.clone()), Ok(simple_doc(1))).unwrap();
    let m2 = feed(Ok(simple_doc(2)), Ok(moka), Ok(simple_doc(1))).unwrap();
    for s in [Source::DevTo, Source::MoKa, Source::Mufiz] {
        let a1 = m1.get(s);
        let a2 = m2.get(s);
        assert_eq!(a1.len(), a2.len());
        for k in 0..a1.len() {
            assert_eq!(fields(&a1[k]), fields(&a2[k]));
        }
    }
}

#[test]
fn network_failure_fails_the_whole_aggregation() {
    let r = feed(Err(FetchFailure::Network), Ok(simple_doc(1)), Ok(simple_doc(1)));
    assert_eq!(r.unwrap_err(), FeedError::NetworkError(Source::DevTo));
}

#[test]
fn task_failure_fails_the_whole_aggregation() {
    let r = feed(Ok(simple_doc(1)), Err(FetchFailure::Task), Ok(simple_doc(1)));
    assert_eq!(r.unwrap_err(), FeedError::TaskFailure(Source::MoKa));
}

#[test]
fn malformed_body_fails_with_parse_error() {
    let r = feed(
        Ok(simple_doc(1)),
        Ok(simple_doc(1)),
        Ok(b"this is not a feed document".to_vec()),
    );
    assert_eq!(r.unwrap_err(), FeedError::ParseError(Source::Mufiz));
}

#[test]
fn mufiz_error_takes_precedence() {
    let r = feed(
        Err(FetchFailure::Network),
        Err(FetchFailure::Task),
        Err(FetchFailure::Task),
    );
    assert_eq!(r.unwrap_err(), FeedError::TaskFailure(Source::Mufiz));
}

#[test]
fn source_urls_are_fixed() {
    assert_eq!(Source::DevTo.url(), "https://dev.to/feed/mustafif");
    assert_eq!(Source::MoKa.url(), "https://moka-reads.github.io/rss.xml");
    assert_eq!(Source::Mufiz.url(), "https://blog-mufiz.github.io/rss.xml");
}
