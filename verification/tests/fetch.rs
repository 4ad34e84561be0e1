use mdeno::fetch::{
    after_response, follow_resolved, method_of, status_ok, Headers, Method, Redirect, Response,
    MAX_REDIRECTS,
};

fn pair(name: &str, value: &str) -> (String, String) {
    (name.to_string(), value.to_string())
}

#[test]
fn header_names_are_compared_without_case() {
    let mut headers = Headers::new();
    headers.set("Content-Type", "text/plain".to_string());
    assert_eq!(headers.get("content-type"), Some("text/plain".to_string()));
    assert_eq!(headers.get("CONTENT-TYPE"), Some("text/plain".to_string()));
    assert!(headers.has("Content-type"));
    assert!(!headers.has("Accept"));
    assert_eq!(headers.get("Accept"), None);
    assert_eq!(headers.keys(), vec!["content-type".to_string()]);
}

#[test]
fn a_header_set_again_is_replaced_in_place() {
    let mut headers = Headers::new();
    headers.set("A", "1".to_string());
    headers.set("B", "2".to_string());
    headers.set("a", "3".to_string());
    assert_eq!(headers.len(), 2);
    assert_eq!(headers.entries(), vec![pair("a", "3"), pair("b", "2")]);
    assert_eq!(headers.values(), vec!["3".to_string(), "2".to_string()]);
}

#[test]
fn a_deleted_header_is_gone() {
    let mut headers = Headers::from_pairs(&vec![pair("X-One", "1"), pair("X-Two", "2")]);
    headers.delete("x-ONE");
    assert!(!headers.has("X-One"));
    assert_eq!(headers.entries(), vec![pair("x-two", "2")]);
    headers.delete("x-one");
    headers.delete("never-set");
    assert_eq!(headers.len(), 1);
}

#[test]
fn of_two_pairs_with_one_name_the_later_stays() {
    let headers = Headers::from_pairs(&vec![pair("Accept", "a"), pair("ACCEPT", "b")]);
    assert_eq!(headers.len(), 1);
    assert_eq!(headers.get("accept"), Some("b".to_string()));
}

#[test]
fn a_copy_of_headers_is_independent() {
    let mut headers = Headers::from_pairs(&vec![pair("A", "1"), pair("B", "2")]);
    let copy = headers.copy();
    headers.delete("a");
    assert_eq!(copy.entries(), vec![pair("a", "1"), pair("b", "2")]);
}

#[test]
fn success_is_a_status_from_200_to_299() {
    assert!(!status_ok(199));
    assert!(status_ok(200));
    assert!(status_ok(204));
    assert!(status_ok(299));
    assert!(!status_ok(300));
    assert!(!status_ok(404));
    assert!(!status_ok(0));
}

#[test]
fn a_response_made_without_anything_has_the_defaults() {
    let response = Response::new(None, None, None, None);
    assert_eq!(response.status(), 200);
    assert_eq!(response.status_text(), "");
    assert!(response.ok());
    assert!(!response.body_used());
    assert_eq!(response.headers().len(), 0);
}

#[test]
fn a_response_keeps_what_it_was_made_with() {
    let headers = Headers::from_pairs(&vec![pair("Content-Type", "application/json")]);
    let mut response = Response::new(
        Some("{}".to_string()),
        Some(404),
        Some("Not Found".to_string()),
        Some(headers),
    );
    assert_eq!(response.status(), 404);
    assert_eq!(response.status_text(), "Not Found");
    assert!(!response.ok());
    assert_eq!(response.headers().get("content-type"), Some("application/json".to_string()));
    assert_eq!(response.text(), Ok("{}".to_string()));
}

#[test]
fn the_body_is_handed_out_once() {
    let mut response = Response::from_fetch(200, Headers::new(), "hello".to_string());
    assert!(!response.body_used());
    assert_eq!(response.text(), Ok("hello".to_string()));
    assert!(response.body_used());
    assert_eq!(response.text(), Err("Body has already been consumed".to_string()));
    assert!(response.body_used());
    assert_eq!(response.status(), 200);
}

#[test]
fn a_consumed_response_gives_no_copy() {
    let mut response = Response::from_fetch(
        201,
        Headers::from_pairs(&vec![pair("A", "1")]),
        "body".to_string(),
    );
    let mut copy = response.clone_response().ok().unwrap();
    assert_eq!(copy.status(), 201);
    assert_eq!(copy.headers().get("a"), Some("1".to_string()));
    assert_eq!(copy.text(), Ok("body".to_string()));
    assert_eq!(response.text(), Ok("body".to_string()));
    assert_eq!(
        response.clone_response().err(),
        Some("Cannot clone a response that has been consumed".to_string())
    );
}

#[test]
fn methods_are_named_in_any_case() {
    assert_eq!(method_of("GET"), Ok(Method::Get));
    assert_eq!(method_of("get"), Ok(Method::Get));
    assert_eq!(method_of("Post"), Ok(Method::Post));
    assert_eq!(method_of("put"), Ok(Method::Put));
    assert_eq!(method_of("DELETE"), Ok(Method::Delete));
    assert_eq!(method_of("patch"), Ok(Method::Patch));
    assert_eq!(method_of("head"), Ok(Method::Head));
    assert_eq!(method_of("trace"), Err("Unsupported HTTP method: trace".to_string()));
    assert_eq!(method_of(""), Err("Unsupported HTTP method: ".to_string()));
}

#[test]
fn a_redirect_to_a_whole_url_is_followed_as_it_is() {
    assert_eq!(
        after_response(302, Some("https://other.example/x"), 0, "http://example.com/a"),
        Redirect::Follow("https://other.example/x".to_string())
    );
    assert_eq!(
        after_response(301, Some("http://other.example/"), 19, "http://example.com/a"),
        Redirect::Follow("http://other.example/".to_string())
    );
}

#[test]
fn a_relative_location_is_resolved_against_the_request() {
    assert_eq!(
        after_response(302, Some("/b?x=1"), 0, "http://example.com/a/c"),
        Redirect::Follow("http://example.com/b?x=1".to_string())
    );
    assert_eq!(
        after_response(307, Some("d"), 3, "http://example.com/a/c"),
        Redirect::Follow("http://example.com/a/d".to_string())
    );
    let lost = after_response(302, Some("/b"), 0, "no url at all");
    assert_eq!(lost, Redirect::Unresolved);
    assert_eq!(lost.failure(), Some("Failed to resolve relative URL".to_string()));
}

#[test]
fn everything_else_is_delivered() {
    assert_eq!(after_response(200, Some("http://x.example/"), 0, "http://e.example/"), Redirect::Deliver);
    assert_eq!(after_response(404, None, 0, "http://e.example/"), Redirect::Deliver);
    assert_eq!(after_response(302, None, 0, "http://e.example/"), Redirect::Deliver);
    assert_eq!(after_response(299, Some("/b"), 0, "http://e.example/"), Redirect::Deliver);
    assert_eq!(after_response(400, Some("/b"), 0, "http://e.example/"), Redirect::Deliver);
    assert_eq!(
        after_response(302, Some("http://x.example/"), MAX_REDIRECTS, "http://e.example/"),
        Redirect::Deliver
    );
    assert_eq!(Redirect::Deliver.failure(), None);
    assert_eq!(follow_resolved(None), Redirect::Unresolved);
    assert_eq!(follow_resolved(Some("http://a.example/".to_string())), Redirect::Follow("http://a.example/".to_string()));
}

#[test]
fn odd_locations_are_followed_or_refused() {
    let odd = [
        "", " ", "?", "#", "/", "//", "///", "\\", "\\\\", ":", "::", "a:", ":a", "%", "%zz", "%00",
        "..", "../..", "../../../../x", "./", "[", "]", "[::1]", "//[::1", "//[::1]:99999", "@",
        "//@", "//:@", "//user:pass@", "?#", "#?", "\u{0}", "\u{FEFF}", "\u{1F600}", "é", "//é",
        "//xn--", "//xn--a", "//a..b", "//.", "//..", "//a:b", "//a:-1", "//256.256.256.256",
        "//0x", "//1.2.3.4.5", "ht tp://x", "file:", "file:///", "data:,", "javascript:", "mailto:a",
        "blob:x", "\t\n\r", "a\tb", "//a\nb/",
    ];
    let bases = ["http://example.com/a/b?c#d", "file:///x/y", "data:text/plain,x", "", "no url", "x:"];
    for base in bases {
        for location in odd {
            let step = after_response(302, Some(location), 0, base);
            assert!(matches!(step, Redirect::Follow(_) | Redirect::Unresolved));
        }
        let long = "a/".repeat(5000);
        let step = after_response(302, Some(long.as_str()), 0, base);
        assert!(matches!(step, Redirect::Follow(_) | Redirect::Unresolved));
    }
}
