//! Specifier resolution: from the importing module and the requested name to
//! the canonical specifier of the module that is meant.
//!
//! Three resolvers share one rule and differ in the universe they resolve
//! into: the file system, the modules of a bytecode bundle, or a set of
//! sources held in memory. Resolution is a function of its inputs. What it
//! needs to know of the file system it reads from a `FileFacts` value that the
//! host filled in beforehand, so that no resolver performs I/O itself.

use std::path::Path;
use std::sync::Arc;
use vstd::prelude::*;
use crate::map::SpecifierMap;
use crate::path_util::{main_separator, path_text, shown_text, text_to_file_url};
use crate::registry::ModuleRegistry;
use crate::specifier::{
    is_remote, is_relative, resolve_relative, rebase_in_package, file_url_on, check_remote,
    check_relative, relative_target, package_target, file_url,
};
use crate::text::{chars_of, string_of, find_char};

verus! {

/// Why a request could not be resolved.
#[derive(Clone, Copy, Debug, PartialEq, Eq, Structural)]
pub enum ResolutionError {
    /// Nothing in the resolution universe answers to the request.
    NotFound,
    /// The request names a remote package that nobody resolved beforehand.
    /// This layer never goes to the network.
    RequiresUpstreamResolution,
}

/// What the host observed of one path.
pub struct FileFact {
    /// The path names an existing regular file.
    pub is_file: bool,
    /// The canonical form of the path, where the file system gave one.
    pub canonical: Option<String>,
}

/// What the host observed of the file system: whether it is Windows', which
/// decides the form of a `file://` URL, and what it holds, path by path. A path
/// without a fact counts as absent: it names no file and has no canonical form.
pub struct FileFacts {
    windows: bool,
    facts: SpecifierMap<FileFact>,
}

impl FileFacts {
    /// No path has two facts.
    pub closed spec fn wf(&self) -> bool {
        self.facts.wf()
    }

    /// The file system is Windows'.
    pub closed spec fn windows(&self) -> bool {
        self.windows
    }

    /// The path is known to name a regular file.
    pub closed spec fn names_file(&self, path: Seq<char>) -> bool {
        self.facts@.contains_key(path) && self.facts@[path].is_file
    }

    /// The canonical form recorded for the path.
    pub closed spec fn canonical_form(&self, path: Seq<char>) -> Option<Seq<char>> {
        if self.facts@.contains_key(path) {
            match self.facts@[path].canonical {
                Some(c) => Some(c@),
                None => None,
            }
        } else {
            None
        }
    }

    /// No observation yet of a file system that is Windows' or not.
    pub fn new(windows: bool) -> (f: Self)
        ensures
            f.wf(),
            f.windows() == windows,
            forall|p: Seq<char>| !#[trigger] f.names_file(p),
            forall|p: Seq<char>| #[trigger] f.canonical_form(p) is None,
    {
        FileFacts { windows, facts: SpecifierMap::new() }
    }

    /// Records what was observed of `path`; an earlier observation of the same
    /// path is replaced.
    pub fn record(&mut self, path: &str, is_file: bool, canonical: Option<String>)
        requires
            old(self).wf(),
        ensures
            final(self).wf(),
            final(self).windows() == old(self).windows(),
            forall|p: Seq<char>| #[trigger]
                final(self).names_file(p) == if p == path@ {
                    is_file
                } else {
                    old(self).names_file(p)
                },
            forall|p: Seq<char>| #[trigger]
                final(self).canonical_form(p) == if p == path@ {
                    match canonical {
                        Some(c) => Some(c@),
                        None => None,
                    }
                } else {
                    old(self).canonical_form(p)
                },
    {
        self.facts.insert(path.to_owned(), FileFact { is_file, canonical });
    }

    /// Whether the file system is Windows'.
    pub fn on_windows(&self) -> (b: bool)
        ensures
            b == self.windows(),
    {
        self.windows
    }

    /// Whether `path` is known to name a regular file.
    pub fn is_file(&self, path: &str) -> (b: bool)
        requires
            self.wf(),
        ensures
            b == self.names_file(path@),
    {
        match self.facts.get(path) {
            Some(fact) => fact.is_file,
            None => false,
        }
    }

    /// The canonical form recorded for `path`.
    pub fn canonical(&self, path: &str) -> (r: Option<&str>)
        requires
            self.wf(),
        ensures
            match r {
                Some(c) => self.canonical_form(path@) == Some(c@),
                None => self.canonical_form(path@) is None,
            },
    {
        match self.facts.get(path) {
            Some(fact) => match &fact.canonical {
                Some(c) => Some(c.as_str()),
                None => None,
            },
            None => None,
        }
    }
}

/// The outcome of a resolution with the specifier as plain text.
pub open spec fn as_text<E>(r: Result<String, E>) -> Result<Seq<char>, E> {
    match r {
        Ok(s) => Ok(s@),
        Err(e) => Err(e),
    }
}

/// Resolution into the file system.
///
/// A built-in name resolves to itself. A remote-package request is refused. A
/// relative request is joined to the directory of `base`, or to `base` itself
/// where `base` is no file, and resolves to the normalized path if that names
/// a file. Everything else is not found.
pub open spec fn file_resolution(
    builtins: Set<Seq<char>>,
    files: FileFacts,
    base: Seq<char>,
    name: Seq<char>,
) -> Result<Seq<char>, ResolutionError> {
    if builtins.contains(name) {
        Ok(name)
    } else if is_remote(name) {
        Err(ResolutionError::RequiresUpstreamResolution)
    } else if is_relative(name) {
        let target = resolve_relative(base, name, files.names_file(base));
        if files.names_file(target) {
            Ok(target)
        } else {
            Err(ResolutionError::NotFound)
        }
    } else {
        Err(ResolutionError::NotFound)
    }
}

/// Resolution into a keyed store: the modules of a bundle or a set of sources.
///
/// A built-in name resolves to itself, and so does a request that is a key of
/// the store already. Any other remote-package request is refused. A relative
/// request from a module of a remote package is rebased inside that package and
/// never treated as a file path. A relative request from anywhere else is
/// joined to the directory of `base` where `base` is a key of the store or a
/// file, to `base` itself where it is neither, and normalized; it resolves to
/// the first of these that is a key: the normalized path, its canonical form as
/// the file system gave it, the `file://` URL of that form on the platform of
/// that file system. Everything else is not found.
pub open spec fn store_resolution(
    builtins: Set<Seq<char>>,
    keys: Set<Seq<char>>,
    files: FileFacts,
    base: Seq<char>,
    name: Seq<char>,
) -> Result<Seq<char>, ResolutionError> {
    if builtins.contains(name) || keys.contains(name) {
        Ok(name)
    } else if is_remote(name) {
        Err(ResolutionError::RequiresUpstreamResolution)
    } else if is_relative(name) {
        if is_remote(base) {
            let target = rebase_in_package(base, name);
            if base.contains('/') && keys.contains(target) {
                Ok(target)
            } else {
                Err(ResolutionError::NotFound)
            }
        } else {
            let target = resolve_relative(
                base,
                name,
                keys.contains(base) || files.names_file(base),
            );
            if keys.contains(target) {
                Ok(target)
            } else {
                match files.canonical_form(target) {
                    Some(canonical) => if keys.contains(canonical) {
                        Ok(canonical)
                    } else if keys.contains(file_url_on(canonical, files.windows())) {
                        Ok(file_url_on(canonical, files.windows()))
                    } else {
                        Err(ResolutionError::NotFound)
                    },
                    None => Err(ResolutionError::NotFound),
                }
            }
        }
    } else {
        Err(ResolutionError::NotFound)
    }
}

/// The paths whose facts a resolution of `name` from `base` may read: `base`
/// itself and the two places the request can lead to, depending on whether
/// `base` turns out to be a file.
pub open spec fn probes(base: Seq<char>, name: Seq<char>) -> Seq<Seq<char>> {
    seq![base, resolve_relative(base, name, true), resolve_relative(base, name, false)]
}

/// Resolution is a function of what it is given: whatever two calls with the
/// same registry, store, facts, base and name return, it is the same outcome.
pub proof fn law_resolution_is_repeatable(
    builtins: Set<Seq<char>>,
    keys: Set<Seq<char>>,
    files: FileFacts,
    base: Seq<char>,
    name: Seq<char>,
    first: Result<String, ResolutionError>,
    second: Result<String, ResolutionError>,
)
    requires
        as_text(first) == store_resolution(builtins, keys, files, base, name),
        as_text(second) == store_resolution(builtins, keys, files, base, name),
    ensures
        as_text(first) == as_text(second),
        first is Ok <==> second is Ok,
        first is Ok ==> first->Ok_0@ == second->Ok_0@,
        first is Err ==> first->Err_0 == second->Err_0,
{
}

/// The same for resolution into the file system.
pub proof fn law_file_resolution_is_repeatable(
    builtins: Set<Seq<char>>,
    files: FileFacts,
    base: Seq<char>,
    name: Seq<char>,
    first: Result<String, ResolutionError>,
    second: Result<String, ResolutionError>,
)
    requires
        as_text(first) == file_resolution(builtins, files, base, name),
        as_text(second) == file_resolution(builtins, files, base, name),
    ensures
        as_text(first) == as_text(second),
        first is Ok <==> second is Ok,
        first is Ok ==> first->Ok_0@ == second->Ok_0@,
        first is Err ==> first->Err_0 == second->Err_0,
{
}

/// What resolution into a store returns is canonical: it is a built-in name or
/// a key of the store, and resolving it again, from any module and whatever the
/// file system holds by then, returns it unchanged.
pub proof fn law_resolved_specifier_is_canonical(
    builtins: Set<Seq<char>>,
    keys: Set<Seq<char>>,
    files: FileFacts,
    base: Seq<char>,
    name: Seq<char>,
    later_files: FileFacts,
    later_base: Seq<char>,
)
    requires
        store_resolution(builtins, keys, files, base, name) is Ok,
    ensures
        ({
            let found = store_resolution(builtins, keys, files, base, name)->Ok_0;
            &&& builtins.contains(found) || keys.contains(found)
            &&& store_resolution(builtins, keys, later_files, later_base, found) == Ok::<
                Seq<char>,
                ResolutionError,
            >(found)
        }),
{
}

/// Resolution reads the file system at the probe paths only: two sets of
/// facts of one platform that agree there give the same outcome.
pub proof fn law_resolution_reads_only_probes(
    builtins: Set<Seq<char>>,
    keys: Set<Seq<char>>,
    one: FileFacts,
    other: FileFacts,
    base: Seq<char>,
    name: Seq<char>,
)
    requires
        one.windows() == other.windows(),
        forall|i: int|
            0 <= i < 3 ==> one.names_file(#[trigger] probes(base, name)[i]) == other.names_file(
                probes(base, name)[i],
            ),
        forall|i: int|
            0 <= i < 3 ==> one.canonical_form(#[trigger] probes(base, name)[i])
                == other.canonical_form(probes(base, name)[i]),
    ensures
        store_resolution(builtins, keys, one, base, name) == store_resolution(
            builtins,
            keys,
            other,
            base,
            name,
        ),
        file_resolution(builtins, one, base, name) == file_resolution(builtins, other, base, name),
{
    let p = probes(base, name);
    assert(p[0] == base);
    assert(p[1] == resolve_relative(base, name, true));
    assert(p[2] == resolve_relative(base, name, false));
}

/// The paths that the host has to look at before it asks for a resolution.
pub fn probe_paths(base: &str, name: &str) -> (paths: Vec<String>)
    ensures
        paths@.len() == 3,
        forall|i: int| 0 <= i < 3 ==> (#[trigger] paths@[i])@ == probes(base@, name@)[i],
{
    let b = chars_of(base);
    let n = chars_of(name);
    let as_file = relative_target(b.as_slice(), n.as_slice(), true);
    let as_dir = relative_target(b.as_slice(), n.as_slice(), false);
    let mut paths: Vec<String> = Vec::new();
    paths.push(base.to_owned());
    paths.push(string_of(as_file.as_slice()));
    paths.push(string_of(as_dir.as_slice()));
    paths
}

fn resolve_in_files(registry: &ModuleRegistry, files: &FileFacts, base: &str, name: &str) -> (r:
    Result<String, ResolutionError>)
    requires
        registry.wf(),
        files.wf(),
    ensures
        as_text(r) == file_resolution(registry@.dom(), *files, base@, name@),
{
    if registry.has_module(name) {
        return Ok(name.to_owned());
    }
    let n = chars_of(name);
    if check_remote(n.as_slice()) {
        return Err(ResolutionError::RequiresUpstreamResolution);
    }
    if check_relative(n.as_slice()) {
        let b = chars_of(base);
        let target = relative_target(b.as_slice(), n.as_slice(), files.is_file(base));
        let target = string_of(target.as_slice());
        if files.is_file(target.as_str()) {
            return Ok(target);
        }
    }
    Err(ResolutionError::NotFound)
}

fn resolve_in_store<V>(
    registry: &ModuleRegistry,
    store: &SpecifierMap<V>,
    files: &FileFacts,
    base: &str,
    name: &str,
) -> (r: Result<String, ResolutionError>)
    requires
        registry.wf(),
        store.wf(),
        files.wf(),
    ensures
        as_text(r) == store_resolution(registry@.dom(), store@.dom(), *files, base@, name@),
{
    if registry.has_module(name) || store.contains_key(name) {
        return Ok(name.to_owned());
    }
    let n = chars_of(name);
    if check_remote(n.as_slice()) {
        return Err(ResolutionError::RequiresUpstreamResolution);
    }
    if !check_relative(n.as_slice()) {
        return Err(ResolutionError::NotFound);
    }
    let b = chars_of(base);
    if check_remote(b.as_slice()) {
        let has_slash = find_char(b.as_slice(), '/').is_some();
        proof {
            b@.index_of_first_ensures('/');
        }
        let target = package_target(b.as_slice(), n.as_slice());
        let target = string_of(target.as_slice());
        if has_slash && store.contains_key(target.as_str()) {
            return Ok(target);
        }
        return Err(ResolutionError::NotFound);
    }
    let base_is_file = store.contains_key(base) || files.is_file(base);
    let target = relative_target(b.as_slice(), n.as_slice(), base_is_file);
    let target = string_of(target.as_slice());
    if store.contains_key(target.as_str()) {
        return Ok(target);
    }
    match files.canonical(target.as_str()) {
        Some(canonical) => {
            if store.contains_key(canonical) {
                return Ok(canonical.to_owned());
            }
            let c = chars_of(canonical);
            let url = file_url(c.as_slice(), files.on_windows());
            let url = string_of(url.as_slice());
            if store.contains_key(url.as_str()) {
                return Ok(url);
            }
            Err(ResolutionError::NotFound)
        },
        None => Err(ResolutionError::NotFound),
    }
}

/// The `file://` URL of a path of this platform, as a store may hold it for a
/// key: the URL of the text that the path shows as, in the form of this
/// platform.
pub fn to_file_url(path: &Path) -> (url: String)
    ensures
        url@ == file_url_on(shown_text(path), false) || url@ == file_url_on(
            shown_text(path),
            true,
        ),
{
    let text = path_text(path);
    let windows = main_separator() == '\\';
    text_to_file_url(text.as_str(), windows)
}

/// Resolves into the file system.
pub struct NodeResolver {
    registry: Arc<ModuleRegistry>,
}

impl NodeResolver {
    /// The registry that the resolver consults first.
    pub closed spec fn registry(&self) -> ModuleRegistry {
        *self.registry
    }

    /// The resolver's registry is well formed.
    pub open spec fn wf(&self) -> bool {
        self.registry().wf()
    }

    /// What `resolve` returns.
    pub open spec fn resolution(&self, files: FileFacts, base: Seq<char>, name: Seq<char>) -> Result<
        Seq<char>,
        ResolutionError,
    > {
        file_resolution(self.registry()@.dom(), files, base, name)
    }

    /// A resolver over the given registry.
    pub fn new(registry: Arc<ModuleRegistry>) -> (r: Self)
        ensures
            r.registry() == *registry,
    {
        NodeResolver { registry }
    }

    /// The canonical specifier of the module that `name` means when imported
    /// from `base`.
    pub fn resolve(&self, base: &str, name: &str, files: &FileFacts) -> (r: Result<
        String,
        ResolutionError,
    >)
        requires
            self.wf(),
            files.wf(),
        ensures
            as_text(r) == self.resolution(*files, base@, name@),
    {
        resolve_in_files(&*self.registry, files, base, name)
    }
}

/// Resolves into the modules of a bytecode bundle.
pub struct BytecodeMapResolver {
    registry: Arc<ModuleRegistry>,
    bytecode_map: Arc<SpecifierMap<Vec<u8>>>,
}

impl BytecodeMapResolver {
    /// The registry that the resolver consults first.
    pub closed spec fn registry(&self) -> ModuleRegistry {
        *self.registry
    }

    /// The specifiers of the bundle's modules.
    pub closed spec fn keys(&self) -> Set<Seq<char>> {
        self.bytecode_map@.dom()
    }

    /// Registry and bundle are well formed.
    pub closed spec fn wf(&self) -> bool {
        self.registry.wf() && self.bytecode_map.wf()
    }

    /// What `resolve` returns.
    pub open spec fn resolution(&self, files: FileFacts, base: Seq<char>, name: Seq<char>) -> Result<
        Seq<char>,
        ResolutionError,
    > {
        store_resolution(self.registry()@.dom(), self.keys(), files, base, name)
    }

    /// A resolver over the given registry and bundle modules.
    pub fn new(registry: Arc<ModuleRegistry>, bytecode_map: Arc<SpecifierMap<Vec<u8>>>) -> (r: Self)
        requires
            registry.wf(),
            bytecode_map.wf(),
        ensures
            r.wf(),
            r.registry() == *registry,
            r.keys() == bytecode_map@.dom(),
    {
        BytecodeMapResolver { registry, bytecode_map }
    }

    /// The canonical specifier of the module that `name` means when imported
    /// from `base`.
    pub fn resolve(&self, base: &str, name: &str, files: &FileFacts) -> (r: Result<
        String,
        ResolutionError,
    >)
        requires
            self.wf(),
            files.wf(),
        ensures
            as_text(r) == self.resolution(*files, base@, name@),
    {
        resolve_in_store(&*self.registry, &*self.bytecode_map, files, base, name)
    }
}

/// Resolves into a set of sources held in memory.
pub struct SourceMapResolver {
    registry: Arc<ModuleRegistry>,
    source_map: Arc<SpecifierMap<String>>,
}

impl SourceMapResolver {
    /// The registry that the resolver consults first.
    pub closed spec fn registry(&self) -> ModuleRegistry {
        *self.registry
    }

    /// The specifiers of the sources.
    pub closed spec fn keys(&self) -> Set<Seq<char>> {
        self.source_map@.dom()
    }

    /// Registry and sources are well formed.
    pub closed spec fn wf(&self) -> bool {
        self.registry.wf() && self.source_map.wf()
    }

    /// What `resolve` returns.
    pub open spec fn resolution(&self, files: FileFacts, base: Seq<char>, name: Seq<char>) -> Result<
        Seq<char>,
        ResolutionError,
    > {
        store_resolution(self.registry()@.dom(), self.keys(), files, base, name)
    }

    /// A resolver over the given registry and sources.
    pub fn new(registry: Arc<ModuleRegistry>, source_map: Arc<SpecifierMap<String>>) -> (r: Self)
        requires
            registry.wf(),
            source_map.wf(),
        ensures
            r.wf(),
            r.registry() == *registry,
            r.keys() == source_map@.dom(),
    {
        SourceMapResolver { registry, source_map }
    }

    /// The canonical specifier of the module that `name` means when imported
    /// from `base`.
    pub fn resolve(&self, base: &str, name: &str, files: &FileFacts) -> (r: Result<
        String,
        ResolutionError,
    >)
        requires
            self.wf(),
            files.wf(),
        ensures
            as_text(r) == self.resolution(*files, base@, name@),
    {
        resolve_in_store(&*self.registry, &*self.source_map, files, base, name)
    }
}

} // verus!
