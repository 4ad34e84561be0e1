use mdeno::url_views::{hash_argument, protocol_argument, search_argument, UrlArena};

#[test]
fn setter_arguments() {
    assert_eq!(search_argument("?a=1"), Some("a=1".to_string()));
    assert_eq!(search_argument("??a=1"), Some("a=1".to_string()));
    assert_eq!(search_argument("a=1?"), Some("a=1?".to_string()));
    assert_eq!(search_argument("?"), None);
    assert_eq!(search_argument(""), None);
    assert_eq!(hash_argument("#top"), Some("top".to_string()));
    assert_eq!(hash_argument("top"), Some("top".to_string()));
    assert_eq!(hash_argument("##"), None);
    assert_eq!(protocol_argument("https:"), "https");
    assert_eq!(protocol_argument("https"), "https");
    assert_eq!(protocol_argument("https::"), "https");
    assert_eq!(protocol_argument(":"), "");
}

#[test]
fn a_view_follows_its_own_writes() {
    let mut arena = UrlArena::new();
    let url = arena.add("a=1".to_string());
    assert_eq!(arena.search(url), Some("a=1"));
    let mut view = arena.view(url).unwrap();
    assert!(arena.is_current(&view));
    assert_eq!(view.url(), url);
    assert!(arena.write_back(&mut view, "a=1&b=2"));
    assert_eq!(arena.search(url), Some("a=1&b=2"));
    assert!(arena.is_current(&view));
    assert!(arena.write_back(&mut view, ""));
    assert_eq!(arena.search(url), Some(""));
    assert!(arena.is_current(&view));
}

#[test]
fn a_write_to_the_url_outdates_its_views() {
    let mut arena = UrlArena::new();
    let url = arena.add(String::new());
    let other = arena.add("x=1".to_string());
    let mut view = arena.view(url).unwrap();
    let mut second = arena.view(url).unwrap();
    let other_view = arena.view(other).unwrap();

    assert!(arena.set_search(url, "?q=rust"));
    assert_eq!(arena.search(url), Some("q=rust"));
    assert!(!arena.is_current(&view));
    assert!(!arena.is_current(&second));
    assert!(arena.is_current(&other_view));
    assert_eq!(arena.search(other), Some("x=1"));

    // a view that is behind does not write
    assert!(!arena.write_back(&mut view, "stale=1"));
    assert_eq!(arena.search(url), Some("q=rust"));

    // one view's write outdates the other
    view = arena.view(url).unwrap();
    second = arena.view(url).unwrap();
    assert!(arena.write_back(&mut view, "q=verus"));
    assert!(arena.is_current(&view));
    assert!(!arena.is_current(&second));
    assert!(!arena.write_back(&mut second, "q=other"));
    assert_eq!(arena.search(url), Some("q=verus"));
}

#[test]
fn an_empty_search_clears_the_query() {
    let mut arena = UrlArena::new();
    let url = arena.add("a=1".to_string());
    assert!(arena.set_search(url, "?"));
    assert_eq!(arena.search(url), Some(""));
    assert!(arena.set_search(url, ""));
    assert_eq!(arena.search(url), Some(""));
}

#[test]
fn foreign_handles_are_refused() {
    let mut small = UrlArena::new();
    let mut large = UrlArena::new();
    large.add(String::new());
    let far = large.add("far".to_string());
    assert_eq!(small.search(far), None);
    assert!(small.view(far).is_none());
    assert!(!small.set_search(far, "x"));
    let mut view = large.view(far).unwrap();
    assert!(!small.is_current(&view));
    assert!(!small.write_back(&mut view, "x"));
    assert!(large.is_current(&view));
}
