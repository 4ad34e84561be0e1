//! What a script sees of an HTTP exchange: the headers of a message and the
//! response to a request.
//!
//! Header names are compared without regard to case: every name is stored and
//! looked up in lower case. A response hands its body out once.

use vstd::prelude::*;
use crate::encoding::{lowercase, lowercased};
use crate::map::{text_views, SpecifierMap};
use crate::text::{chars_of, has_prefix, opt_text, push_str, same_str, starts_with, string_of, text_result};

verus! {

/// What `str::to_uppercase` of the standard library makes of a text: its
/// upper-case form by the rules of Unicode.
pub uninterp spec fn uppercased(text: Seq<char>) -> Seq<char>;

/// Calls `str::to_uppercase`.
#[verifier::external_body]
fn uppercase(text: &str) -> (upper: String)
    ensures
        upper@ == uppercased(text@),
{
    text.to_uppercase()
}

/// The methods of a request that a script may ask for.
#[derive(Clone, Copy, Debug, PartialEq, Eq, Structural)]
pub enum Method {
    /// `GET`
    Get,
    /// `POST`
    Post,
    /// `PUT`
    Put,
    /// `DELETE`
    Delete,
    /// `PATCH`
    Patch,
    /// `HEAD`
    Head,
}

/// The method that a name in upper case stands for.
pub open spec fn method_named(upper: Seq<char>) -> Option<Method> {
    if upper == "GET"@ {
        Some(Method::Get)
    } else if upper == "POST"@ {
        Some(Method::Post)
    } else if upper == "PUT"@ {
        Some(Method::Put)
    } else if upper == "DELETE"@ {
        Some(Method::Delete)
    } else if upper == "PATCH"@ {
        Some(Method::Patch)
    } else if upper == "HEAD"@ {
        Some(Method::Head)
    } else {
        None
    }
}

/// The message for a method that is not supported.
pub open spec fn unsupported_method(method: Seq<char>) -> Seq<char> {
    "Unsupported HTTP method: "@ + method
}

/// The method that a script asked for, in whatever case it wrote it.
pub fn method_of(method: &str) -> (r: Result<Method, String>)
    ensures
        match r {
            Ok(m) => method_named(uppercased(method@)) == Some(m),
            Err(message) => method_named(uppercased(method@)) is None && message@
                == unsupported_method(method@),
        },
{
    let upper = uppercase(method);
    if same_str(upper.as_str(), "GET") {
        Ok(Method::Get)
    } else if same_str(upper.as_str(), "POST") {
        Ok(Method::Post)
    } else if same_str(upper.as_str(), "PUT") {
        Ok(Method::Put)
    } else if same_str(upper.as_str(), "DELETE") {
        Ok(Method::Delete)
    } else if same_str(upper.as_str(), "PATCH") {
        Ok(Method::Patch)
    } else if same_str(upper.as_str(), "HEAD") {
        Ok(Method::Head)
    } else {
        let mut message = chars_of("Unsupported HTTP method: ");
        push_str(&mut message, method);
        Err(string_of(message.as_slice()))
    }
}

/// How many redirects a request follows at most.
pub const MAX_REDIRECTS: usize = 20;

/// Whether a response with this status is a redirect that is still followed
/// after `followed` earlier ones.
pub open spec fn is_followed(status: u16, followed: usize) -> bool {
    300 <= status < 400 && followed < MAX_REDIRECTS
}

/// Whether a location is a whole URL rather than one relative to the URL of
/// the request.
pub open spec fn is_whole_url(location: Seq<char>) -> bool {
    has_prefix(location, "http://"@) || has_prefix(location, "https://"@)
}

/// What `ars::Url::parse` makes of a location and the URL that it is relative
/// to: the whole URL, as its `href`, or `None` where the two give no URL.
pub uninterp spec fn resolved_url(location: Seq<char>, base: Seq<char>) -> Option<Seq<char>>;

/// Calls `ars::Url::parse` with the location as input and the URL of the
/// request as base, and takes the `href` of the URL that comes out.
#[verifier::external_body]
fn resolve_url(location: &str, base: &str) -> (url: Option<String>)
    ensures
        opt_text(url) == resolved_url(location@, base@),
{
    ars::Url::parse(location, Some(base)).ok().map(|url| url.href().to_string())
}

/// What to do with a response.
#[derive(Debug, PartialEq, Eq)]
pub enum Redirect {
    /// Request this URL next.
    Follow(String),
    /// The response redirects to a location that gives no URL.
    Unresolved,
    /// Hand the response to the script.
    Deliver,
}

/// What to do with a response, as plain values.
pub enum RedirectView {
    /// Request this URL next.
    Follow(Seq<char>),
    /// The response redirects to a location that gives no URL.
    Unresolved,
    /// Hand the response to the script.
    Deliver,
}

impl Redirect {
    /// The step as plain values.
    pub open spec fn view(&self) -> RedirectView {
        match *self {
            Redirect::Follow(url) => RedirectView::Follow(url@),
            Redirect::Unresolved => RedirectView::Unresolved,
            Redirect::Deliver => RedirectView::Deliver,
        }
    }

    /// The message with which a request fails at this step, if it does.
    pub fn failure(&self) -> (message: Option<String>)
        ensures
            opt_text(message) == if *self is Unresolved {
                Some("Failed to resolve relative URL"@)
            } else {
                None
            },
    {
        match self {
            Redirect::Unresolved => Some("Failed to resolve relative URL".to_owned()),
            _ => None,
        }
    }
}

/// The step to which a resolved location leads.
pub open spec fn resolved_step(resolved: Option<Seq<char>>) -> RedirectView {
    match resolved {
        Some(url) => RedirectView::Follow(url),
        None => RedirectView::Unresolved,
    }
}

/// What to do with a response that came from `url`. A redirect with a
/// location is followed while the limit is not reached: to the location itself
/// where it is a whole URL, else to what it gives relative to `url`.
/// Everything else is delivered.
pub open spec fn redirect_of(
    status: u16,
    location: Option<Seq<char>>,
    followed: usize,
    url: Seq<char>,
) -> RedirectView {
    match location {
        Some(target) => if !is_followed(status, followed) {
            RedirectView::Deliver
        } else if is_whole_url(target) {
            RedirectView::Follow(target)
        } else {
            resolved_step(resolved_url(target, url))
        },
        None => RedirectView::Deliver,
    }
}

/// The step to which a location leads once it was resolved against the URL of
/// the request.
pub fn follow_resolved(resolved: Option<String>) -> (step: Redirect)
    ensures
        step@ == resolved_step(opt_text(resolved)),
{
    match resolved {
        Some(url) => Redirect::Follow(url),
        None => Redirect::Unresolved,
    }
}

/// Decides what to do with a response from its status, the `Location` header
/// that it came with, the number of redirects followed before it, and the URL
/// that was requested.
pub fn after_response(status: u16, location: Option<&str>, followed: usize, url: &str) -> (step:
    Redirect)
    ensures
        step@ == redirect_of(
            status,
            match location {
                Some(target) => Some(target@),
                None => None,
            },
            followed,
            url@,
        ),
{
    if !(300 <= status && status < 400 && followed < MAX_REDIRECTS) {
        return Redirect::Deliver;
    }
    match location {
        Some(target) => {
            let text = chars_of(target);
            let plain = chars_of("http://");
            let secure = chars_of("https://");
            if starts_with(text.as_slice(), plain.as_slice()) || starts_with(
                text.as_slice(),
                secure.as_slice(),
            ) {
                Redirect::Follow(target.to_owned())
            } else {
                follow_resolved(resolve_url(target, url))
            }
        },
        None => Redirect::Deliver,
    }
}

/// The headers after one more list of pairs was set, one pair after the other.
pub open spec fn with_pairs(headers: Map<Seq<char>, Seq<char>>, pairs: Seq<(String, String)>) -> Map<
    Seq<char>,
    Seq<char>,
>
    decreases pairs.len(),
{
    if pairs.len() == 0 {
        headers
    } else {
        with_pairs(headers, pairs.drop_last()).insert(
            lowercased(pairs.last().0@),
            pairs.last().1@,
        )
    }
}

/// The value that the headers hold for a name, whatever its case.
pub open spec fn header(headers: Map<Seq<char>, Seq<char>>, name: Seq<char>) -> Option<Seq<char>> {
    if headers.contains_key(lowercased(name)) {
        Some(headers[lowercased(name)])
    } else {
        None
    }
}

/// Whether a status code reports success: one from 200 to 299.
pub open spec fn is_success(status: u16) -> bool {
    200 <= status < 300
}

/// The message for a body that was read before.
pub open spec fn body_consumed() -> Seq<char> {
    "Body has already been consumed"@
}

/// The message for a copy of a response whose body was read before.
pub open spec fn clone_consumed() -> Seq<char> {
    "Cannot clone a response that has been consumed"@
}

proof fn lemma_text_views_insert(m: Map<Seq<char>, String>, key: Seq<char>, value: String)
    ensures
        text_views(m.insert(key, value)) == text_views(m).insert(key, value@),
{
    assert(text_views(m.insert(key, value)) =~= text_views(m).insert(key, value@));
}

proof fn lemma_text_views_remove(m: Map<Seq<char>, String>, key: Seq<char>)
    ensures
        text_views(m.remove(key)) == text_views(m).remove(key),
{
    assert(text_views(m.remove(key)) =~= text_views(m).remove(key));
}

/// The headers of a message: at most one value for a name, the names in lower
/// case and in the order in which they were first set.
pub struct Headers {
    entries: SpecifierMap<String>,
}

impl Headers {
    /// No name is held twice.
    pub closed spec fn wf(&self) -> bool {
        self.entries.wf()
    }

    /// The value of each name.
    pub closed spec fn view(&self) -> Map<Seq<char>, Seq<char>> {
        text_views(self.entries@)
    }

    /// The names, in the order in which they were first set.
    pub closed spec fn names(&self) -> Seq<Seq<char>> {
        self.entries.keys()
    }

    /// The names are those that have a value, each once.
    pub proof fn lemma_names(&self)
        requires
            self.wf(),
        ensures
            self.names().no_duplicates(),
            forall|name: Seq<char>| self.names().contains(name) <==> self@.contains_key(name),
    {
    }

    /// No headers.
    pub fn new() -> (h: Self)
        ensures
            h.wf(),
            h@ == Map::<Seq<char>, Seq<char>>::empty(),
            h.names() == Seq::<Seq<char>>::empty(),
    {
        let h = Headers { entries: SpecifierMap::new() };
        assert(h@ =~= Map::<Seq<char>, Seq<char>>::empty());
        h
    }

    /// The headers that a list of pairs describes: each pair is set in turn,
    /// so that of two pairs with one name the later stays.
    pub fn from_pairs(pairs: &Vec<(String, String)>) -> (h: Self)
        ensures
            h.wf(),
            h@ == with_pairs(Map::empty(), pairs@),
    {
        let mut h = Headers::new();
        let mut i: usize = 0;
        assert(pairs@.take(0) == Seq::<(String, String)>::empty());
        while i < pairs.len()
            invariant
                i <= pairs.len(),
                h.wf(),
                h@ == with_pairs(Map::empty(), pairs@.take(i as int)),
            decreases pairs.len() - i,
        {
            proof {
                assert(pairs@.take(i + 1).drop_last() == pairs@.take(i as int));
                assert(pairs@.take(i + 1).last() == pairs@[i as int]);
            }
            h.set(pairs[i].0.as_str(), pairs[i].1.as_str().to_owned());
            i += 1;
        }
        assert(pairs@.take(pairs.len() as int) == pairs@);
        h
    }

    /// The value of a header.
    pub fn get(&self, name: &str) -> (value: Option<String>)
        requires
            self.wf(),
        ensures
            opt_text(value) == header(self@, name@),
    {
        let key = lowercase(name);
        match self.entries.get(key.as_str()) {
            Some(value) => Some(value.as_str().to_owned()),
            None => None,
        }
    }

    /// Sets a header. An earlier value of the same name, in whatever case it
    /// was written, is replaced.
    pub fn set(&mut self, name: &str, value: String)
        requires
            old(self).wf(),
        ensures
            final(self).wf(),
            final(self)@ == old(self)@.insert(lowercased(name@), value@),
    {
        let key = lowercase(name);
        proof {
            lemma_text_views_insert(self.entries@, key@, value);
        }
        self.entries.insert(key, value);
    }

    /// Whether a header is set.
    pub fn has(&self, name: &str) -> (b: bool)
        requires
            self.wf(),
        ensures
            b == self@.contains_key(lowercased(name@)),
    {
        let key = lowercase(name);
        self.entries.contains_key(key.as_str())
    }

    /// Removes a header, if it is set.
    pub fn delete(&mut self, name: &str)
        requires
            old(self).wf(),
        ensures
            final(self).wf(),
            final(self)@ == old(self)@.remove(lowercased(name@)),
    {
        let key = lowercase(name);
        proof {
            lemma_text_views_remove(self.entries@, key@);
        }
        self.entries.remove(key.as_str());
    }

    /// A copy of the headers: the same names in the same order, with the same
    /// values.
    pub fn copy(&self) -> (h: Headers)
        requires
            self.wf(),
        ensures
            h.wf(),
            h@ == self@,
            h.names() == self.names(),
    {
        let mut entries: SpecifierMap<String> = SpecifierMap::new();
        let mut i: usize = 0;
        assert(self.entries.keys().take(0) =~= Seq::<Seq<char>>::empty());
        assert(text_views(entries@) =~= text_views(self.entries.prefix(0)));
        while i < self.entries.len()
            invariant
                self.entries.wf(),
                entries.wf(),
                i <= self.entries.keys().len(),
                entries.keys() == self.entries.keys().take(i as int),
                text_views(entries@) == text_views(self.entries.prefix(i as int)),
            decreases self.entries.keys().len() - i,
        {
            let key = self.entries.key_at(i).to_owned();
            let value = self.entries.value_at(i).as_str().to_owned();
            proof {
                let keys = self.entries.keys();
                assert(!entries.keys().contains(key@)) by {
                    if entries.keys().contains(key@) {
                        let j = choose|j: int| 0 <= j < i && entries.keys()[j] == key@;
                        assert(keys[j] == keys[i as int]);
                    }
                }
                lemma_text_views_insert(entries@, key@, value);
                lemma_text_views_insert(
                    self.entries.prefix(i as int),
                    key@,
                    self.entries.values()[i as int],
                );
                assert(keys.take(i + 1) =~= keys.take(i as int).push(key@));
            }
            entries.insert(key, value);
            i += 1;
        }
        proof {
            self.entries.lemma_prefix_is_view();
            assert(self.entries.keys().take(i as int) =~= self.entries.keys());
        }
        Headers { entries }
    }

    /// How many headers are set.
    pub fn len(&self) -> (n: usize)
        ensures
            n == self.names().len(),
    {
        self.entries.len()
    }

    /// The names, in the order in which they were first set.
    pub fn keys(&self) -> (list: Vec<String>)
        requires
            self.wf(),
        ensures
            list@.len() == self.names().len(),
            forall|i: int| 0 <= i < list@.len() ==> (#[trigger] list@[i])@ == self.names()[i],
    {
        let mut list: Vec<String> = Vec::new();
        let mut i: usize = 0;
        while i < self.entries.len()
            invariant
                i <= self.names().len(),
                list@.len() == i,
                forall|j: int| 0 <= j < i ==> (#[trigger] list@[j])@ == self.names()[j],
            decreases self.names().len() - i,
        {
            list.push(self.entries.key_at(i).to_owned());
            i += 1;
        }
        list
    }

    /// The values, each at the place of its name in `keys`.
    pub fn values(&self) -> (list: Vec<String>)
        requires
            self.wf(),
        ensures
            list@.len() == self.names().len(),
            forall|i: int|
                0 <= i < list@.len() ==> (#[trigger] list@[i])@ == self@[self.names()[i]],
    {
        let mut list: Vec<String> = Vec::new();
        let mut i: usize = 0;
        while i < self.entries.len()
            invariant
                self.wf(),
                i <= self.names().len(),
                list@.len() == i,
                forall|j: int| 0 <= j < i ==> (#[trigger] list@[j])@ == self@[self.names()[j]],
            decreases self.names().len() - i,
        {
            proof {
                crate::map::lemma_index_of_unique(self.entries.keys(), i as int);
            }
            list.push(self.entries.value_at(i).as_str().to_owned());
            i += 1;
        }
        list
    }

    /// The headers as pairs of name and value, in the order of `keys`.
    pub fn entries(&self) -> (list: Vec<(String, String)>)
        requires
            self.wf(),
        ensures
            list@.len() == self.names().len(),
            forall|i: int|
                0 <= i < list@.len() ==> (#[trigger] list@[i]).0@ == self.names()[i] && list@[i].1@
                    == self@[self.names()[i]],
    {
        let mut list: Vec<(String, String)> = Vec::new();
        let mut i: usize = 0;
        while i < self.entries.len()
            invariant
                self.wf(),
                i <= self.names().len(),
                list@.len() == i,
                forall|j: int|
                    0 <= j < i ==> (#[trigger] list@[j]).0@ == self.names()[j] && list@[j].1@
                        == self@[self.names()[j]],
            decreases self.names().len() - i,
        {
            proof {
                crate::map::lemma_index_of_unique(self.entries.keys(), i as int);
            }
            let name = self.entries.key_at(i).to_owned();
            let value = self.entries.value_at(i).as_str().to_owned();
            list.push((name, value));
            i += 1;
        }
        list
    }
}

/// A header that was set is read back under its name in whatever case.
pub proof fn law_a_header_set_is_read_back(
    headers: Map<Seq<char>, Seq<char>>,
    name: Seq<char>,
    value: Seq<char>,
    asked: Seq<char>,
)
    requires
        lowercased(asked) == lowercased(name),
    ensures
        header(headers.insert(lowercased(name), value), asked) == Some(value),
{
}

/// Setting or deleting a header leaves every header alone whose name differs
/// in more than case.
pub proof fn law_other_headers_are_kept(
    headers: Map<Seq<char>, Seq<char>>,
    name: Seq<char>,
    value: Seq<char>,
    other: Seq<char>,
)
    requires
        lowercased(other) != lowercased(name),
    ensures
        header(headers.insert(lowercased(name), value), other) == header(headers, other),
        header(headers.remove(lowercased(name)), other) == header(headers, other),
        header(headers.remove(lowercased(name)), name) is None,
{
}

/// Whether a status code reports success.
pub fn status_ok(status: u16) -> (b: bool)
    ensures
        b == is_success(status),
{
    200 <= status && status < 300
}

/// The response to a request: a status, headers, and a body that is handed out
/// once.
pub struct Response {
    status: u16,
    status_text: String,
    headers: Headers,
    body: String,
    body_used: bool,
}

/// A response as plain values.
pub struct ResponseView {
    /// The status code.
    pub status: u16,
    /// The text that came with the status.
    pub status_text: Seq<char>,
    /// The headers.
    pub headers: Map<Seq<char>, Seq<char>>,
    /// The body.
    pub body: Seq<char>,
    /// Whether the body was handed out.
    pub body_used: bool,
}

impl Response {
    /// The headers hold no name twice.
    pub closed spec fn wf(&self) -> bool {
        self.headers.wf()
    }

    /// The response as plain values.
    pub closed spec fn view(&self) -> ResponseView {
        ResponseView {
            status: self.status,
            status_text: self.status_text@,
            headers: self.headers@,
            body: self.body@,
            body_used: self.body_used,
        }
    }

    /// A response made by a script. What is not given is the empty body,
    /// status 200, no status text and no headers.
    pub fn new(
        body: Option<String>,
        status: Option<u16>,
        status_text: Option<String>,
        headers: Option<Headers>,
    ) -> (r: Self)
        requires
            headers matches Some(h) ==> h.wf(),
        ensures
            r.wf(),
            r@.body == match body {
                Some(b) => b@,
                None => Seq::<char>::empty(),
            },
            r@.status == match status {
                Some(s) => s,
                None => 200u16,
            },
            r@.status_text == match status_text {
                Some(t) => t@,
                None => Seq::<char>::empty(),
            },
            r@.headers == match headers {
                Some(h) => h@,
                None => Map::<Seq<char>, Seq<char>>::empty(),
            },
            !r@.body_used,
    {
        Response {
            status: match status {
                Some(s) => s,
                None => 200,
            },
            status_text: match status_text {
                Some(t) => t,
                None => String::new(),
            },
            headers: match headers {
                Some(h) => h,
                None => Headers::new(),
            },
            body: match body {
                Some(b) => b,
                None => String::new(),
            },
            body_used: false,
        }
    }

    /// The response that a fetch brought: without a status text, its body not
    /// yet handed out.
    pub fn from_fetch(status: u16, headers: Headers, body: String) -> (r: Self)
        requires
            headers.wf(),
        ensures
            r.wf(),
            r@ == (ResponseView {
                status,
                status_text: Seq::<char>::empty(),
                headers: headers@,
                body: body@,
                body_used: false,
            }),
    {
        Response { status, status_text: String::new(), headers, body, body_used: false }
    }

    /// The status code.
    pub fn status(&self) -> (s: u16)
        ensures
            s == self@.status,
    {
        self.status
    }

    /// The text that came with the status.
    pub fn status_text(&self) -> (t: String)
        ensures
            t@ == self@.status_text,
    {
        self.status_text.as_str().to_owned()
    }

    /// Whether the status reports success.
    pub fn ok(&self) -> (b: bool)
        ensures
            b == is_success(self@.status),
    {
        status_ok(self.status)
    }

    /// The headers.
    pub fn headers(&self) -> (h: &Headers)
        requires
            self.wf(),
        ensures
            h.wf(),
            h@ == self@.headers,
    {
        &self.headers
    }

    /// Whether the body was handed out.
    pub fn body_used(&self) -> (b: bool)
        ensures
            b == self@.body_used,
    {
        self.body_used
    }

    /// Hands the body out as text, once. A second call is refused and
    /// changes nothing.
    pub fn text(&mut self) -> (r: Result<String, String>)
        ensures
            final(self).wf() == old(self).wf(),
            final(self)@ == (ResponseView { body_used: true, ..old(self)@ }),
            text_result(r) == if old(self)@.body_used {
                Err::<Seq<char>, Seq<char>>(body_consumed())
            } else {
                Ok::<Seq<char>, Seq<char>>(old(self)@.body)
            },
    {
        if self.body_used {
            return Err("Body has already been consumed".to_owned());
        }
        self.body_used = true;
        Ok(self.body.as_str().to_owned())
    }

    /// A copy of the response, which a response whose body was handed out
    /// does not give.
    pub fn clone_response(&self) -> (r: Result<Response, String>)
        requires
            self.wf(),
        ensures
            match r {
                Ok(copy) => !self@.body_used && copy.wf() && copy@ == self@,
                Err(message) => self@.body_used && message@ == clone_consumed(),
            },
    {
        if self.body_used {
            return Err("Cannot clone a response that has been consumed".to_owned());
        }
        let headers = self.headers.copy();
        Ok(
            Response {
                status: self.status,
                status_text: self.status_text.as_str().to_owned(),
                headers,
                body: self.body.as_str().to_owned(),
                body_used: false,
            },
        )
    }
}

} // verus!
