//! Module loading: from a canonical specifier to the module's source text or
//! its precompiled bytecode.
//!
//! A loader is paired with the resolver of the same universe. Built-in modules
//! come first in every variant; after that each variant looks in its own store
//! and nowhere else. The file-system variant does not read files itself: it
//! answers with the request to read one, and turns what the host then found
//! into a source or a typed error.

use std::sync::Arc;
use vstd::prelude::*;
use crate::map::SpecifierMap;
use crate::registry::ModuleRegistry;
use crate::specifier::{is_typescript, check_typescript};
use crate::text::chars_of;

verus! {

/// Why a module could not be loaded.
#[derive(Clone, Copy, Debug, PartialEq, Eq, Structural)]
pub enum LoadError {
    /// Nothing is stored under the specifier.
    NotFound,
    /// The store was there but reading from it failed.
    IoFailure,
    /// The specifier names a kind of module that this layer never loads.
    DisallowedKind,
    /// The engine did not accept the stored bytes as a module.
    DeserializeFailure,
}

/// The body of a module as a loader hands it to the engine.
pub enum ModuleSource<'a> {
    /// Source text, which the engine parses.
    Text(&'a str),
    /// Precompiled bytecode, which the engine reads directly.
    Bytecode(&'a [u8]),
}

/// The content of a module body as plain values.
pub enum ModuleContent {
    /// Source text.
    Text(Seq<char>),
    /// Precompiled bytecode.
    Bytecode(Seq<u8>),
}

impl<'a> ModuleSource<'a> {
    /// The content, whoever owns it.
    pub open spec fn view(&self) -> ModuleContent {
        match *self {
            ModuleSource::Text(text) => ModuleContent::Text(text@),
            ModuleSource::Bytecode(bytes) => ModuleContent::Bytecode(bytes@),
        }
    }
}

/// What the host found when it tried to read a file.
pub enum FileRead {
    /// There is no regular file at the path.
    Missing,
    /// There is a file, and reading it failed.
    Failed,
    /// The text of the file.
    Text(String),
}

/// What a file-system loader answers before any file is touched.
pub enum FileLoad<'a> {
    /// The module is built in; this is its source.
    Builtin(&'a str),
    /// The module has to be read from the file at the given path.
    Read(&'a str),
}

/// A `FileLoad` as plain values.
pub enum FilePlan {
    /// The source of a built-in module.
    Builtin(Seq<char>),
    /// The path of the file to read.
    Read(Seq<char>),
}

impl<'a> FileLoad<'a> {
    /// The answer as plain values.
    pub open spec fn view(&self) -> FilePlan {
        match *self {
            FileLoad::Builtin(source) => FilePlan::Builtin(source@),
            FileLoad::Read(path) => FilePlan::Read(path@),
        }
    }
}

/// The outcome of a file-system load with the answer as plain values.
pub open spec fn as_plan<'a>(r: Result<FileLoad<'a>, LoadError>) -> Result<FilePlan, LoadError> {
    match r {
        Ok(load) => Ok(load@),
        Err(e) => Err(e),
    }
}

/// What a file-system load answers: the built-in source where `specifier` is
/// a built-in name; else `DisallowedKind` where it names a TypeScript source,
/// without any read; else the request to read the file at that path.
pub open spec fn file_load(builtins: Map<Seq<char>, Seq<char>>, specifier: Seq<char>) -> Result<
    FilePlan,
    LoadError,
> {
    if builtins.contains_key(specifier) {
        Ok(FilePlan::Builtin(builtins[specifier]))
    } else if is_typescript(specifier) {
        Err(LoadError::DisallowedKind)
    } else {
        Ok(FilePlan::Read(specifier))
    }
}

/// What loading from a store returns: the built-in source where `specifier`
/// is a built-in name, else what the store holds under it, else `NotFound`.
pub open spec fn store_load(
    builtins: Map<Seq<char>, Seq<char>>,
    store: Map<Seq<char>, ModuleContent>,
    specifier: Seq<char>,
) -> Result<ModuleContent, LoadError> {
    if builtins.contains_key(specifier) {
        Ok(ModuleContent::Text(builtins[specifier]))
    } else if store.contains_key(specifier) {
        Ok(store[specifier])
    } else {
        Err(LoadError::NotFound)
    }
}

/// The outcome of a load with the content as plain values.
pub open spec fn as_content<'a>(r: Result<ModuleSource<'a>, LoadError>) -> Result<
    ModuleContent,
    LoadError,
> {
    match r {
        Ok(source) => Ok(source@),
        Err(e) => Err(e),
    }
}

/// What a file read becomes: the text is the module's source, a missing file
/// is `NotFound`, any other failure is `IoFailure`.
pub open spec fn read_outcome(read: FileRead) -> Result<ModuleContent, LoadError> {
    match read {
        FileRead::Text(text) => Ok(ModuleContent::Text(text@)),
        FileRead::Missing => Err(LoadError::NotFound),
        FileRead::Failed => Err(LoadError::IoFailure),
    }
}

/// Turns what the host found at the path of a `FileLoad::Read` into the
/// module's source.
pub fn finish_read<'a>(read: &'a FileRead) -> (r: Result<ModuleSource<'a>, LoadError>)
    ensures
        as_content(r) == read_outcome(*read),
{
    match read {
        FileRead::Text(text) => Ok(ModuleSource::Text(text.as_str())),
        FileRead::Missing => Err(LoadError::NotFound),
        FileRead::Failed => Err(LoadError::IoFailure),
    }
}

/// Turns the engine's verdict on a module's bytecode into the outcome of the
/// load: bytes that the engine did not accept are a `DeserializeFailure`.
pub fn finish_bytecode(accepted: bool) -> (r: Result<(), LoadError>)
    ensures
        r == if accepted {
            Ok::<(), LoadError>(())
        } else {
            Err::<(), LoadError>(LoadError::DeserializeFailure)
        },
{
    if accepted {
        Ok(())
    } else {
        Err(LoadError::DeserializeFailure)
    }
}

/// Loads from the file system.
pub struct NodeLoader {
    registry: Arc<ModuleRegistry>,
}

impl NodeLoader {
    /// The registry that the loader consults first.
    pub closed spec fn registry(&self) -> ModuleRegistry {
        *self.registry
    }

    /// The loader's registry is well formed.
    pub open spec fn wf(&self) -> bool {
        self.registry().wf()
    }

    /// A loader over the given registry.
    pub fn new(registry: Arc<ModuleRegistry>) -> (l: Self)
        ensures
            l.registry() == *registry,
    {
        NodeLoader { registry }
    }

    /// Decides how the module `specifier` is to be had. A built-in module is
    /// answered with its source. A TypeScript file is refused at once, before
    /// anything is read. Any other specifier is a path for the host to read.
    pub fn load<'a>(&'a self, specifier: &'a str) -> (r: Result<FileLoad<'a>, LoadError>)
        requires
            self.wf(),
        ensures
            as_plan(r) == file_load(self.registry()@, specifier@),
    {
        if let Some(source) = self.registry.get_source(specifier) {
            return Ok(FileLoad::Builtin(source));
        }
        let name = chars_of(specifier);
        if check_typescript(name.as_slice()) {
            return Err(LoadError::DisallowedKind);
        }
        Ok(FileLoad::Read(specifier))
    }
}

/// Loads from the modules of a bytecode bundle.
pub struct BytecodeMapLoader {
    registry: Arc<ModuleRegistry>,
    bytecode_map: Arc<SpecifierMap<Vec<u8>>>,
}

impl BytecodeMapLoader {
    /// The registry that the loader consults first.
    pub closed spec fn registry(&self) -> ModuleRegistry {
        *self.registry
    }

    /// The bundle's modules as module contents.
    pub closed spec fn store(&self) -> Map<Seq<char>, ModuleContent> {
        Map::new(
            |k: Seq<char>| self.bytecode_map@.contains_key(k),
            |k: Seq<char>| ModuleContent::Bytecode(self.bytecode_map@[k]@),
        )
    }

    /// Registry and bundle are well formed.
    pub closed spec fn wf(&self) -> bool {
        self.registry.wf() && self.bytecode_map.wf()
    }

    /// A loader over the given registry and bundle modules.
    pub fn new(registry: Arc<ModuleRegistry>, bytecode_map: Arc<SpecifierMap<Vec<u8>>>) -> (l: Self)
        requires
            registry.wf(),
            bytecode_map.wf(),
        ensures
            l.wf(),
            l.registry() == *registry,
            l.store().dom() == bytecode_map@.dom(),
            forall|k: Seq<char>| #[trigger]
                bytecode_map@.contains_key(k) ==> l.store()[k] == ModuleContent::Bytecode(
                    bytecode_map@[k]@,
                ),
    {
        let l = BytecodeMapLoader { registry, bytecode_map };
        assert(l.store().dom() =~= bytecode_map@.dom());
        l
    }

    /// The body of the module `specifier`.
    pub fn load<'a>(&'a self, specifier: &str) -> (r: Result<ModuleSource<'a>, LoadError>)
        requires
            self.wf(),
        ensures
            as_content(r) == store_load(self.registry()@, self.store(), specifier@),
    {
        if let Some(source) = self.registry.get_source(specifier) {
            return Ok(ModuleSource::Text(source));
        }
        match self.bytecode_map.get(specifier) {
            Some(bytes) => Ok(ModuleSource::Bytecode(bytes.as_slice())),
            None => Err(LoadError::NotFound),
        }
    }
}

/// Loads from a set of sources held in memory.
pub struct SourceMapLoader {
    registry: Arc<ModuleRegistry>,
    source_map: Arc<SpecifierMap<String>>,
}

impl SourceMapLoader {
    /// The registry that the loader consults first.
    pub closed spec fn registry(&self) -> ModuleRegistry {
        *self.registry
    }

    /// The sources as module contents.
    pub closed spec fn store(&self) -> Map<Seq<char>, ModuleContent> {
        Map::new(
            |k: Seq<char>| self.source_map@.contains_key(k),
            |k: Seq<char>| ModuleContent::Text(self.source_map@[k]@),
        )
    }

    /// Registry and sources are well formed.
    pub closed spec fn wf(&self) -> bool {
        self.registry.wf() && self.source_map.wf()
    }

    /// A loader over the given registry and sources.
    pub fn new(registry: Arc<ModuleRegistry>, source_map: Arc<SpecifierMap<String>>) -> (l: Self)
        requires
            registry.wf(),
            source_map.wf(),
        ensures
            l.wf(),
            l.registry() == *registry,
            l.store().dom() == source_map@.dom(),
            forall|k: Seq<char>| #[trigger]
                source_map@.contains_key(k) ==> l.store()[k] == ModuleContent::Text(
                    source_map@[k]@,
                ),
    {
        let l = SourceMapLoader { registry, source_map };
        assert(l.store().dom() =~= source_map@.dom());
        l
    }

    /// The body of the module `specifier`.
    pub fn load<'a>(&'a self, specifier: &str) -> (r: Result<ModuleSource<'a>, LoadError>)
        requires
            self.wf(),
        ensures
            as_content(r) == store_load(self.registry()@, self.store(), specifier@),
    {
        if let Some(source) = self.registry.get_source(specifier) {
            return Ok(ModuleSource::Text(source));
        }
        match self.source_map.get(specifier) {
            Some(text) => Ok(ModuleSource::Text(text.as_str())),
            None => Err(LoadError::NotFound),
        }
    }
}

/// Whatever resolution into a store returns, the loader of the same store
/// can load: a resolved specifier is never `NotFound` for its own universe.
pub proof fn law_resolved_specifier_loads(
    builtins: Map<Seq<char>, Seq<char>>,
    store: Map<Seq<char>, ModuleContent>,
    files: crate::resolver::FileFacts,
    base: Seq<char>,
    name: Seq<char>,
)
    requires
        crate::resolver::store_resolution(builtins.dom(), store.dom(), files, base, name) is Ok,
    ensures
        store_load(
            builtins,
            store,
            crate::resolver::store_resolution(builtins.dom(), store.dom(), files, base, name)->Ok_0,
        ) is Ok,
{
}

} // verus!
