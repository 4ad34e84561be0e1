//! The registry of built-in modules and the list of global initializers.
//!
//! Built-in modules are those whose source the host itself supplies. The
//! registry is assembled once by a `ModuleBuilder`, split off by `build`, and
//! only read afterwards: every resolver and loader of a session shares the same
//! registry.

use vstd::prelude::*;
use crate::map::SpecifierMap;

verus! {

/// The built-in modules of a host: each name with the source text it stands
/// for.
pub struct ModuleRegistry {
    module_sources: SpecifierMap<String>,
}

impl ModuleRegistry {
    /// The registry holds no name twice.
    pub closed spec fn wf(&self) -> bool {
        self.module_sources.wf()
    }

    /// The built-in names.
    pub closed spec fn names(&self) -> Set<Seq<char>> {
        self.module_sources@.dom()
    }

    /// The source text of the built-in module `name`.
    pub closed spec fn source_of(&self, name: Seq<char>) -> Seq<char> {
        self.module_sources@[name]@
    }

    /// The registry as a map from name to source text.
    pub open spec fn view(&self) -> Map<Seq<char>, Seq<char>> {
        Map::new(|name: Seq<char>| self.names().contains(name), |name: Seq<char>| self.source_of(name))
    }

    /// The source of the built-in module `name`, if there is one.
    pub fn get_source(&self, name: &str) -> (r: Option<&str>)
        requires
            self.wf(),
        ensures
            match r {
                Some(source) => self@.contains_key(name@) && source@ == self@[name@],
                None => !self@.contains_key(name@),
            },
    {
        match self.module_sources.get(name) {
            Some(source) => Some(source.as_str()),
            None => None,
        }
    }

    /// Whether `name` is a built-in module.
    pub fn has_module(&self, name: &str) -> (b: bool)
        requires
            self.wf(),
        ensures
            b == self@.contains_key(name@),
    {
        self.module_sources.contains_key(name)
    }
}

/// The global initializers of a host, by name, in the order in which they
/// were registered. An initializer may rely on the names that those before it
/// have installed, so the order is part of the value.
pub struct GlobalAttachment {
    globals: Vec<String>,
}

impl GlobalAttachment {
    /// The initializer names in registration order.
    pub closed spec fn view(&self) -> Seq<Seq<char>> {
        Seq::new(self.globals@.len(), |i: int| self.globals@[i]@)
    }

    /// The number of initializers.
    pub fn len(&self) -> (n: usize)
        ensures
            n == self@.len(),
    {
        self.globals.len()
    }

    /// The name of the initializer that runs at position `i`.
    pub fn name_at(&self, i: usize) -> (name: &str)
        requires
            i < self@.len(),
        ensures
            name@ == self@[i as int],
    {
        self.globals[i].as_str()
    }
}

/// Collects global initializers and built-in modules before a session starts.
pub struct ModuleBuilder {
    globals: Vec<String>,
    module_sources: SpecifierMap<String>,
}

impl ModuleBuilder {
    /// The builder holds no module name twice.
    pub closed spec fn wf(&self) -> bool {
        self.module_sources.wf()
    }

    /// The initializer names registered so far, in order.
    pub closed spec fn globals(&self) -> Seq<Seq<char>> {
        Seq::new(self.globals@.len(), |i: int| self.globals@[i]@)
    }

    /// The built-in modules registered so far.
    pub closed spec fn modules(&self) -> Map<Seq<char>, Seq<char>> {
        Map::new(
            |name: Seq<char>| self.module_sources@.dom().contains(name),
            |name: Seq<char>| self.module_sources@[name]@,
        )
    }

    /// A builder with nothing registered.
    pub fn new() -> (b: Self)
        ensures
            b.wf(),
            b.globals() == Seq::<Seq<char>>::empty(),
            b.modules() == Map::<Seq<char>, Seq<char>>::empty(),
    {
        let b = ModuleBuilder { globals: Vec::new(), module_sources: SpecifierMap::new() };
        assert(b.globals() =~= Seq::<Seq<char>>::empty());
        assert(b.modules() =~= Map::<Seq<char>, Seq<char>>::empty());
        b
    }

    /// Registers the initializer `name` after those already registered.
    pub fn with_global(self, name: &str) -> (b: Self)
        requires
            self.wf(),
        ensures
            b.wf(),
            b.globals() == self.globals().push(name@),
            b.modules() == self.modules(),
    {
        let mut b = self;
        b.globals.push(name.to_owned());
        assert(b.globals() =~= self.globals().push(name@));
        b
    }

    /// Registers the built-in module `name` with its source text. A name
    /// registered before gets the new source.
    pub fn with_module(self, name: &str, source: &str) -> (b: Self)
        requires
            self.wf(),
        ensures
            b.wf(),
            b.globals() == self.globals(),
            b.modules() == self.modules().insert(name@, source@),
    {
        let mut b = self;
        b.module_sources.insert(name.to_owned(), source.to_owned());
        assert(b.modules() =~= self.modules().insert(name@, source@));
        b
    }

    /// Splits the builder into the ordered initializer list and the registry.
    pub fn build(self) -> (parts: (GlobalAttachment, ModuleRegistry))
        requires
            self.wf(),
        ensures
            parts.0@ == self.globals(),
            parts.1.wf(),
            parts.1@ == self.modules(),
    {
        let attachment = GlobalAttachment { globals: self.globals };
        let registry = ModuleRegistry { module_sources: self.module_sources };
        assert(attachment@ =~= self.globals());
        assert(registry@ =~= self.modules());
        (attachment, registry)
    }
}

/// The initializer names of the standard host, in the order in which they
/// have to run: the common namespace first, the web globals, then the file
/// system and process modules, the namespace that gathers them, and the test
/// runner, which extends that namespace, last.
pub open spec fn standard_globals() -> Seq<Seq<char>> {
    seq![
        "deno_common"@,
        "web_console"@,
        "web_crypto"@,
        "web_url"@,
        "web_encoding"@,
        "web_fetch"@,
        "web_navigator"@,
        "deno_fs"@,
        "deno_os"@,
        "deno_ns"@,
        "deno_test"@,
    ]
}

impl Default for ModuleBuilder {
    /// The builder of the standard host: its initializers in their order and
    /// no built-in module.
    fn default() -> (b: Self)
        ensures
            b.wf(),
            b.globals() == standard_globals(),
            b.modules() == Map::<Seq<char>, Seq<char>>::empty(),
    {
        let b = ModuleBuilder::new();
        let b = b.with_global("deno_common");
        let b = b.with_global("web_console");
        let b = b.with_global("web_crypto");
        let b = b.with_global("web_url");
        let b = b.with_global("web_encoding");
        let b = b.with_global("web_fetch");
        let b = b.with_global("web_navigator");
        let b = b.with_global("deno_fs");
        let b = b.with_global("deno_os");
        let b = b.with_global("deno_ns");
        let b = b.with_global("deno_test");
        assert(b.globals() =~= standard_globals());
        b
    }
}

} // verus!
