use soundcloud::client::url_fits;
use soundcloud::urls::appended_len;
use soundcloud::endpoints::query_has_client_id;
use soundcloud::page::collect_query;
use soundcloud::location_url;
use soundcloud::{Client, ClientError, Method, Page, PageCursor, PageOptions, Step};

#[test]
fn default_page_options_serialize() {
    let o = PageOptions::default();
    assert_eq!(o.serialize(), Some("linked_partitioning=true&page_size=15".to_string()));
}

#[test]
fn builder_sets_page_size() {
    let o = PageOptions::builder().page_size(50).build().unwrap();
    assert_eq!(o.serialize().unwrap(), "linked_partitioning=true&page_size=50");
    let o = PageOptions::builder().build().unwrap();
    assert_eq!(o.serialize().unwrap(), "linked_partitioning=true&page_size=15");
    let o = PageOptions::builder().page_size(4294967295u32).build().unwrap();
    assert_eq!(o.serialize().unwrap(), "linked_partitioning=true&page_size=4294967295");
}

#[test]
fn page_is_empty() {
    let p: Page<u64> = Page { collection: vec![], next_href: None };
    assert!(p.is_empty());
    let p: Page<u64> = Page { collection: vec![1], next_href: None };
    assert!(!p.is_empty());
}

#[test]
fn next_query_without_link_is_none() {
    let p: Page<u64> = Page { collection: vec![], next_href: None };
    assert!(matches!(p.next_query(), Ok(None)));
}

#[test]
fn next_query_last_value_wins() {
    let p: Page<u64> = Page {
        collection: vec![],
        next_href: Some("https://api.soundcloud.com/me/likes?cursor=a&limit=10&cursor=b".to_string()),
    };
    let q = p.next_query().unwrap().unwrap();
    assert_eq!(
        q,
        vec![("cursor".to_string(), "b".to_string()), ("limit".to_string(), "10".to_string())]
    );
}

#[test]
fn next_query_of_link_without_query_is_none() {
    let p: Page<u64> = Page { collection: vec![], next_href: Some("https://api.soundcloud.com/x".to_string()) };
    assert!(matches!(p.next_query(), Ok(None)));
}

#[test]
fn next_query_of_bad_link_is_error() {
    let p: Page<u64> = Page { collection: vec![], next_href: Some("no url".to_string()) };
    assert!(matches!(p.next_query(), Err(ClientError::UrlParseError(_))));
}

#[test]
fn page_request_adds_client_id_once() {
    let c = Client::new("abc");
    let r = c.get_page("https://api.soundcloud.com/me/likes?cursor=1").unwrap();
    assert_eq!(r.method, Method::Get);
    assert_eq!(r.url.serialization, "https://api.soundcloud.com/me/likes?cursor=1&client_id=abc");
    let r = c.get_pages_url("https://api.soundcloud.com/me/likes?client_id=zz&cursor=1").unwrap();
    assert_eq!(r.url.serialization, "https://api.soundcloud.com/me/likes?client_id=zz&cursor=1");
    let r = c.get_pages("/tracks").unwrap();
    assert_eq!(r.url.serialization, "https://api.soundcloud.com/tracks?client_id=abc");
    assert!(c.get_page("bad").is_none());
}

#[test]
fn get_stream_limits_pages() {
    let c = Client::new("abc");
    let (r, n) = c.get_stream("/me/likes", Some(3)).unwrap();
    assert_eq!(r.url.serialization, "https://api.soundcloud.com/me/likes?client_id=abc");
    assert_eq!(n, 3);
    let (_, n) = c.get_stream("/me/likes", None).unwrap();
    assert_eq!(n, u64::MAX);
}

fn page(items: Vec<u32>, next: Option<&str>) -> Page<u32> {
    Page { collection: items, next_href: next.map(|s| s.to_string()) }
}

fn item(s: Step<u32>) -> u32 {
    match s {
        Step::Item(x) => x,
        _ => panic!("expected an item"),
    }
}

#[test]
fn cursor_walks_pages_in_order() {
    let mut c = PageCursor::new(page(vec![1, 2], Some("https://x/2")), u64::MAX);
    assert_eq!(item(c.next()), 1);
    assert_eq!(item(c.next()), 2);
    match c.next() {
        Step::Fetch(u) => assert_eq!(u, "https://x/2"),
        _ => panic!("expected a fetch"),
    }
    c.receive(page(vec![3], None));
    assert_eq!(item(c.next()), 3);
    assert!(matches!(c.next(), Step::Done));
    assert!(matches!(c.next(), Step::Done));
}

#[test]
fn cursor_stops_at_page_limit() {
    let mut c = PageCursor::new(page(vec![1], Some("https://x/2")), 1);
    assert_eq!(item(c.next()), 1);
    assert!(matches!(c.next(), Step::Done));
}

#[test]
fn cursor_ends_on_empty_fetched_page() {
    let mut c = PageCursor::new(page(vec![], Some("https://x/2")), 5);
    assert!(matches!(c.next(), Step::Fetch(_)));
    c.receive(page(vec![], Some("https://x/3")));
    assert!(matches!(c.next(), Step::Done));
}

#[test]
fn cursor_with_zero_limit_reads_all_pages() {
    let mut c = PageCursor::new(page(vec![], Some("https://x/2")), 0);
    assert!(matches!(c.next(), Step::Fetch(_)));
    c.receive(page(vec![7], Some("https://x/3")));
    assert_eq!(item(c.next()), 7);
    assert!(matches!(c.next(), Step::Fetch(_)));
    c.receive(page(vec![8], None));
    assert_eq!(item(c.next()), 8);
    assert!(matches!(c.next(), Step::Done));
}

#[test]
fn collect_query_keeps_last_value_per_name() {
    let pairs = vec![
        ("a".to_string(), "1".to_string()),
        ("b".to_string(), "2".to_string()),
        ("a".to_string(), "3".to_string()),
    ];
    let map = collect_query(&pairs);
    assert_eq!(map.len(), 2);
    assert!(map.contains(&("a".to_string(), "3".to_string())));
    assert!(map.contains(&("b".to_string(), "2".to_string())));
    assert!(collect_query(&vec![]).is_empty());
}

#[test]
fn client_id_in_query_is_found() {
    assert!(query_has_client_id(&vec![("x".to_string(), "1".to_string()), ("client_id".to_string(), "z".to_string())]));
    assert!(!query_has_client_id(&vec![("client".to_string(), "1".to_string())]));
}

#[test]
fn short_urls_fit() {
    let u = location_url(Some("https://api.soundcloud.com/x")).unwrap();
    assert!(url_fits(&u, &vec![("client_id".to_string(), "abc".to_string())]));
    assert!(url_fits(&u, &vec![]));
}

#[test]
fn parsing_normalizes_urls() {
    let u = location_url(Some("HTTPS://Example.COM/a b?q=1+2")).unwrap();
    assert_eq!(u.serialization, "https://example.com/a%20b?q=1+2");
    assert_eq!(u.path, "/a%20b");
    assert_eq!(u.query, vec![("q".to_string(), "1 2".to_string())]);
}

fn read_all(first: Page<u32>, pages: Vec<Page<u32>>, limit: u64) -> Vec<u32> {
    let mut c = PageCursor::new(first, limit);
    let mut served = pages.into_iter();
    let mut out = Vec::new();
    loop {
        match c.next() {
            Step::Item(x) => out.push(x),
            Step::Done => return out,
            Step::Fetch(_) => match served.next() {
                Some(p) => c.receive(p),
                None => return out,
            },
        }
    }
}

#[test]
fn smaller_limit_reads_a_prefix() {
    let pages = || vec![page(vec![3, 4], Some("https://x/3")), page(vec![5], None)];
    let one = read_all(page(vec![1, 2], Some("https://x/2")), pages(), 1);
    let two = read_all(page(vec![1, 2], Some("https://x/2")), pages(), 2);
    let all = read_all(page(vec![1, 2], Some("https://x/2")), pages(), 9);
    assert_eq!(one, vec![1, 2]);
    assert_eq!(two, vec![1, 2, 3, 4]);
    assert_eq!(all, vec![1, 2, 3, 4, 5]);
}

#[test]
fn appended_length_counts_encoded_bytes() {
    let pairs = vec![("k".to_string(), "v w&é".to_string())];
    // "k=v+w%26%C3%A9"
    assert_eq!(appended_len(&None, &pairs), 14);
    assert_eq!(appended_len(&Some(String::new()), &pairs), 14);
    assert_eq!(appended_len(&Some("a=1".to_string()), &pairs), 15);
    assert_eq!(appended_len(&Some("a=1".to_string()), &vec![]), 0);
}

#[test]
fn urls_with_a_fragment_fit() {
    let u = location_url(Some("https://example.com/a#frag")).unwrap();
    assert_eq!(u.fragment.as_deref(), Some("frag"));
    assert!(u.query_text.is_none());
    assert!(url_fits(&u, &vec![("client_id".to_string(), "abc".to_string())]));
}
