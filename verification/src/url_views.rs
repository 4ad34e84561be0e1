//! URLs of scripts and the views of their query that scripts hold.
//!
//! A URL object and the search-parameters object of the same URL show one
//! value from two sides: a change through either has to show in the other.
//! Here the value lives in one place, a slot of an arena, and both sides hold
//! a handle to it. A view remembers the version of the slot at which it last
//! looked; every write bumps the version, so a view that is behind knows that it
//! has to look again. Parsing and serializing URLs is not done here: the host
//! hands in the query as text.

use vstd::prelude::*;
use crate::text::{
    trim_start, trim_end, opt_text, chars_of, string_of, trimmed_start, trimmed_end,
};

verus! {

/// A handle to a URL in an arena.
#[derive(Clone, Copy, Debug, PartialEq, Eq, Structural)]
pub struct UrlHandle {
    index: usize,
}

/// A view of the query of a URL, as of some version of the URL.
#[derive(Clone, Copy, Debug, PartialEq, Eq, Structural)]
pub struct ParamsView {
    url: UrlHandle,
    version: u64,
}

struct UrlSlot {
    search: String,
    version: u64,
}

/// The URLs of one session.
pub struct UrlArena {
    slots: Vec<UrlSlot>,
}

/// What a setter argument stands for once the given character is trimmed
/// from its start: nothing where nothing is left, the rest else.
pub open spec fn trimmed_argument(value: Seq<char>, lead: char) -> Option<Seq<char>> {
    let rest = trim_start(value, seq![lead]);
    if rest.len() == 0 {
        None
    } else {
        Some(rest)
    }
}

/// The scheme that an assignment to `protocol` means: the value without the
/// colons at its end.
pub open spec fn scheme_of(value: Seq<char>) -> Seq<char> {
    trim_end(value, seq![':'])
}

fn argument(value: &str, lead: char) -> (r: Option<String>)
    ensures
        opt_text(r) == trimmed_argument(value@, lead),
{
    let text = chars_of(value);
    let mut pattern: Vec<char> = Vec::new();
    pattern.push(lead);
    assert(pattern@ == seq![lead]);
    let rest = trimmed_start(text.as_slice(), pattern.as_slice());
    if rest.len() == 0 {
        None
    } else {
        Some(string_of(rest.as_slice()))
    }
}

/// The query that an assignment to `search` means: the value without leading
/// question marks, and no query at all where nothing is left.
pub fn search_argument(value: &str) -> (r: Option<String>)
    ensures
        opt_text(r) == trimmed_argument(value@, '?'),
{
    argument(value, '?')
}

/// The fragment that an assignment to `hash` means: the value without
/// leading number signs, and no fragment at all where nothing is left.
pub fn hash_argument(value: &str) -> (r: Option<String>)
    ensures
        opt_text(r) == trimmed_argument(value@, '#'),
{
    argument(value, '#')
}

/// The scheme that an assignment to `protocol` means.
pub fn protocol_argument(value: &str) -> (scheme: String)
    ensures
        scheme@ == scheme_of(value@),
{
    let text = chars_of(value);
    let mut pattern: Vec<char> = Vec::new();
    pattern.push(':');
    assert(pattern@ == seq![':']);
    let rest = trimmed_end(text.as_slice(), pattern.as_slice());
    string_of(rest.as_slice())
}

impl UrlHandle {
    /// The position of the URL in its arena.
    pub closed spec fn position(self) -> int {
        self.index as int
    }
}

impl ParamsView {
    /// The URL that the view looks at.
    pub closed spec fn of(self) -> UrlHandle {
        self.url
    }

    /// The version of the URL that the view has seen.
    pub closed spec fn seen(self) -> nat {
        self.version as nat
    }

    /// The URL that the view looks at.
    pub fn url(&self) -> (h: UrlHandle)
        ensures
            h == self.of(),
    {
        self.url
    }
}

impl UrlArena {
    /// The number of URLs.
    pub closed spec fn len(&self) -> nat {
        self.slots@.len()
    }

    /// The handle belongs to a URL of this arena.
    pub open spec fn holds(&self, h: UrlHandle) -> bool {
        0 <= h.position() < self.len()
    }

    /// The query of a URL, without its question mark; empty where the URL
    /// has none.
    pub closed spec fn search_of(&self, h: UrlHandle) -> Seq<char> {
        self.slots@[h.position()].search@
    }

    /// How often the query of a URL has been written.
    pub closed spec fn version_of(&self, h: UrlHandle) -> nat {
        self.slots@[h.position()].version as nat
    }

    /// The view has seen the URL as it is now.
    pub open spec fn current(&self, view: ParamsView) -> bool {
        self.holds(view.of()) && self.version_of(view.of()) == view.seen()
    }

    /// Every URL but `h` is as it was in `before`.
    pub open spec fn others_kept(&self, before: UrlArena, h: UrlHandle) -> bool {
        &&& self.len() == before.len()
        &&& forall|o: UrlHandle|
            before.holds(o) && o != h ==> self.search_of(o) == before.search_of(o)
                && self.version_of(o) == before.version_of(o)
    }

    /// An arena without URLs.
    pub fn new() -> (arena: Self)
        ensures
            arena.len() == 0,
    {
        UrlArena { slots: Vec::new() }
    }

    /// Takes a URL with the given query in, and answers with its handle.
    pub fn add(&mut self, search: String) -> (h: UrlHandle)
        ensures
            h.position() == old(self).len(),
            final(self).len() == old(self).len() + 1,
            final(self).holds(h),
            final(self).search_of(h) == search@,
            final(self).version_of(h) == 0,
            forall|o: UrlHandle|
                old(self).holds(o) ==> final(self).search_of(o) == old(self).search_of(o)
                    && final(self).version_of(o) == old(self).version_of(o),
    {
        let index = self.slots.len();
        self.slots.push(UrlSlot { search, version: 0 });
        UrlHandle { index }
    }

    /// The query of a URL.
    pub fn search(&self, h: UrlHandle) -> (r: Option<&str>)
        ensures
            match r {
                Some(text) => self.holds(h) && text@ == self.search_of(h),
                None => !self.holds(h),
            },
    {
        if h.index < self.slots.len() {
            Some(self.slots[h.index].search.as_str())
        } else {
            None
        }
    }

    /// A view of the query of a URL as it is now.
    pub fn view(&self, h: UrlHandle) -> (r: Option<ParamsView>)
        ensures
            match r {
                Some(view) => self.holds(h) && view.of() == h && self.current(view),
                None => !self.holds(h),
            },
    {
        if h.index < self.slots.len() {
            Some(ParamsView { url: h, version: self.slots[h.index].version })
        } else {
            None
        }
    }

    /// Whether the view has seen the URL as it is now.
    pub fn is_current(&self, view: &ParamsView) -> (b: bool)
        ensures
            b == self.current(*view),
    {
        view.url.index < self.slots.len() && self.slots[view.url.index].version == view.version
    }

    /// Writes the query of a URL, as an assignment to `search` does. Every
    /// view of the URL is behind from then on. Nothing is written, and `false`
    /// the answer, where the handle is of no URL here or the URL has been written
    /// as often as can be counted.
    pub fn set_search(&mut self, h: UrlHandle, value: &str) -> (written: bool)
        ensures
            final(self).others_kept(*old(self), h),
            written == (old(self).holds(h) && old(self).version_of(h) < u64::MAX),
            written ==> final(self).search_of(h) == match trimmed_argument(value@, '?') {
                Some(query) => query,
                None => Seq::<char>::empty(),
            } && final(self).version_of(h) == old(self).version_of(h) + 1,
            !written && old(self).holds(h) ==> final(self).search_of(h) == old(self).search_of(h)
                && final(self).version_of(h) == old(self).version_of(h),
    {
        if h.index >= self.slots.len() {
            return false;
        }
        let version = self.slots[h.index].version;
        if version == u64::MAX {
            return false;
        }
        let search = match search_argument(value) {
            Some(query) => query,
            None => String::new(),
        };
        self.slots.set(h.index, UrlSlot { search, version: version + 1 });
        true
    }

    /// Writes what a view has made of the query back to its URL. The view
    /// has seen the result; every other view of the URL is behind. A view that is
    /// behind itself writes nothing: it has to look again first.
    pub fn write_back(&mut self, view: &mut ParamsView, query: &str) -> (written: bool)
        ensures
            final(view).of() == old(view).of(),
            final(self).others_kept(*old(self), old(view).of()),
            written == (old(self).current(*old(view)) && old(view).seen() < u64::MAX),
            written ==> final(self).search_of(old(view).of()) == query@ && final(self).version_of(
                old(view).of(),
            ) == old(view).seen() + 1 && final(self).current(*final(view)),
            !written ==> *final(view) == *old(view) && (old(self).holds(old(view).of())
                ==> final(self).search_of(old(view).of()) == old(self).search_of(old(view).of())
                && final(self).version_of(old(view).of()) == old(self).version_of(
                old(view).of(),
            )),
    {
        if !self.is_current(view) || view.version == u64::MAX {
            return false;
        }
        let version = view.version + 1;
        self.slots.set(view.url.index, UrlSlot { search: query.to_owned(), version });
        view.version = version;
        true
    }
}

/// A write leaves every view taken before it behind: whoever holds such a
/// view finds out that the URL has changed under it.
pub proof fn law_a_write_outdates_earlier_views(
    before: UrlArena,
    after: UrlArena,
    h: UrlHandle,
    view: ParamsView,
)
    requires
        before.current(view),
        view.of() == h,
        after.len() == before.len(),
        after.version_of(h) == before.version_of(h) + 1,
    ensures
        !after.current(view),
{
}

/// A write to one URL leaves the views of every other URL as they were.
pub proof fn law_a_write_keeps_other_views(
    before: UrlArena,
    after: UrlArena,
    h: UrlHandle,
    view: ParamsView,
)
    requires
        after.others_kept(before, h),
        view.of() != h,
    ensures
        after.current(view) == before.current(view),
{
}

} // verus!
