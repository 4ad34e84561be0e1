//! Bytecode bundles: the entry point of a program together with the bytecode
//! of each of its modules, and the single byte array that carries both.
//!
//! A bundle is assembled once, from what the engine compiled each source to,
//! and never changed afterwards. Its bytes are one `rkyv` archive of the pair
//! of entry point and module map. Bytes that are no such archive are taken to
//! be the bytecode of a single module, as written before bundles existed.

use std::collections::HashMap;
use vstd::prelude::*;
use crate::map::{SpecifierMap, byte_views, text_views};
use crate::text::{opt_text, string_of, push_str};

verus! {

/// The name of the place in a standalone executable at which its bundle is
/// attached: a resource, a section, or a trailing region, as the platform has
/// it.
pub const SECTION_NAME: &'static str = "md3n04cl1";

/// What `rkyv::from_bytes`, asked for a pair of a `String` and a
/// `HashMap<String, Vec<u8>>`, makes of the given bytes: the pair as plain
/// values where the bytes validate as such an archive, `None` where they do
/// not.
pub uninterp spec fn decoded_bundle(bytes: Seq<u8>) -> Option<(Seq<char>, Map<Seq<char>, Seq<u8>>)>;

/// The map that a list of pairs stands for: each key with the bytes paired
/// to it, a later pair counting over an earlier one with the same key.
pub open spec fn pairs_map(pairs: Seq<(String, Vec<u8>)>) -> Map<Seq<char>, Seq<u8>>
    decreases pairs.len(),
{
    if pairs.len() == 0 {
        Map::empty()
    } else {
        pairs_map(pairs.drop_last()).insert(pairs.last().0@, pairs.last().1@)
    }
}

/// No two pairs have the same key.
pub open spec fn distinct_keys(pairs: Seq<(String, Vec<u8>)>) -> bool {
    forall|i: int, j: int|
        0 <= i < pairs.len() && 0 <= j < pairs.len() && i != j ==> (#[trigger] pairs[i]).0@ != (
        #[trigger] pairs[j]).0@
}

/// Calls `rkyv::to_bytes` on the pair of entry point and module map, the
/// modules collected into a `HashMap`. The contract claims the round trip that
/// rkyv documents for its two functions: the bytes that come out are an archive
/// from which `rkyv::from_bytes` gets the same entry point and the same modules
/// back. Nothing is claimed of the bytes themselves, whose layout follows the
/// order in which the hash map is walked.
#[verifier::external_body]
fn archive_bundle(entry_point: &str, modules: &Vec<(String, Vec<u8>)>) -> (r: Option<Vec<u8>>)
    requires
        distinct_keys(modules@),
    ensures
        r matches Some(bytes) ==> decoded_bundle(bytes@) == Some((entry_point@, pairs_map(modules@))),
{
    let map: HashMap<String, Vec<u8>> = modules.iter().cloned().collect();
    let archived = rkyv::to_bytes::<rkyv::rancor::Error>(&(entry_point.to_string(), map));
    archived.ok().map(|bytes| bytes.to_vec())
}

/// Calls `rkyv::from_bytes` for a pair of a `String` and a
/// `HashMap<String, Vec<u8>>` on a copy of the bytes that is aligned as rkyv
/// asks, so that the answer depends on the bytes alone. The modules come back
/// as the pairs of the hash map, in no particular order and with distinct keys.
#[verifier::external_body]
fn unarchive_bundle(bytes: &[u8]) -> (r: Option<(String, Vec<(String, Vec<u8>)>)>)
    ensures
        match r {
            Some(pair) => distinct_keys(pair.1@) && decoded_bundle(bytes@) == Some(
                (pair.0@, pairs_map(pair.1@)),
            ),
            None => decoded_bundle(bytes@) is None,
        },
{
    let mut aligned = rkyv::util::AlignedVec::<16>::with_capacity(bytes.len());
    aligned.extend_from_slice(bytes);
    let pair = rkyv::from_bytes::<(String, HashMap<String, Vec<u8>>), rkyv::rancor::Error>(&aligned);
    pair.ok().map(|(entry_point, map)| (entry_point, map.into_iter().collect()))
}

proof fn lemma_byte_views_insert(m: Map<Seq<char>, Vec<u8>>, k: Seq<char>, v: Vec<u8>)
    ensures
        byte_views(m.insert(k, v)) == byte_views(m).insert(k, v@),
{
    assert(byte_views(m.insert(k, v)) =~= byte_views(m).insert(k, v@));
}

/// A copy of the bytes.
pub fn copy_bytes(bytes: &[u8]) -> (v: Vec<u8>)
    ensures
        v@ == bytes@,
{
    let mut v: Vec<u8> = Vec::new();
    let mut i: usize = 0;
    while i < bytes.len()
        invariant
            i <= bytes.len(),
            v@ == bytes@.take(i as int),
        decreases bytes.len() - i,
    {
        v.push(bytes[i]);
        i += 1;
    }
    v
}

/// What the engine reported when it refused a source: the message and the
/// stack of its exception, as far as it gave them.
pub struct EngineDiagnostic {
    /// The exception's message.
    pub message: Option<String>,
    /// The exception's stack.
    pub stack: Option<String>,
}

/// A failed compilation: the module that failed and the engine's diagnostic.
pub struct CompileError {
    /// The specifier of the module that did not compile.
    pub specifier: String,
    /// What the engine said.
    pub message: String,
    /// Where the engine said it, if it did.
    pub stack: Option<String>,
}

/// A `CompileError` as plain values.
pub struct CompileFailure {
    /// The specifier of the module that did not compile.
    pub specifier: Seq<char>,
    /// What the engine said.
    pub message: Seq<char>,
    /// Where the engine said it, if it did.
    pub stack: Option<Seq<char>>,
}

/// The message that stands in for an exception without one.
pub open spec fn unknown_exception() -> Seq<char> {
    "Unknown exception"@
}

/// The message of a bundle whose entry point is not among its modules.
pub open spec fn entry_not_found() -> Seq<char> {
    "Entry module not found"@
}

/// The message for a module that nobody handed to the engine.
pub open spec fn not_compiled() -> Seq<char> {
    "Module was not compiled"@
}

/// The failure that the engine's diagnostic for `specifier` amounts to.
pub open spec fn failure_of(specifier: Seq<char>, message: Option<Seq<char>>, stack: Option<Seq<char>>) -> CompileFailure {
    CompileFailure {
        specifier,
        message: match message {
            Some(m) => m,
            None => unknown_exception(),
        },
        stack,
    }
}

impl CompileError {
    /// The error as plain values.
    pub open spec fn view(&self) -> CompileFailure {
        CompileFailure {
            specifier: self.specifier@,
            message: self.message@,
            stack: opt_text(self.stack),
        }
    }

    /// The line or lines that report the failure.
    pub open spec fn description(failure: CompileFailure) -> Seq<char> {
        let head = "Error compiling "@ + failure.specifier + ": Failed to declare module "@
            + failure.specifier + ": "@ + failure.message;
        match failure.stack {
            Some(stack) => head + "\nStack: "@ + stack,
            None => head,
        }
    }

    /// Renders the failure for the diagnostic stream: the failing specifier,
    /// the engine's message, and the stack where there is one.
    pub fn describe(&self) -> (text: String)
        ensures
            text@ == Self::description(self@),
    {
        let mut out: Vec<char> = Vec::new();
        push_str(&mut out, "Error compiling ");
        push_str(&mut out, self.specifier.as_str());
        push_str(&mut out, ": Failed to declare module ");
        push_str(&mut out, self.specifier.as_str());
        push_str(&mut out, ": ");
        push_str(&mut out, self.message.as_str());
        if let Some(stack) = &self.stack {
            push_str(&mut out, "\nStack: ");
            push_str(&mut out, stack.as_str());
        }
        string_of(out.as_slice())
    }
}

/// The bytes are neither a bundle nor the bytecode of a single module.
#[derive(Clone, Copy, Debug, PartialEq, Eq, Structural)]
pub enum BundleFormatError {
    /// Neither encoding matched.
    NeitherEncodingMatched,
}

/// A program ready to run: the specifier of its entry module and the bytecode
/// of every module, the entry module among them.
pub struct BytecodeBundle {
    entry_point: String,
    modules: SpecifierMap<Vec<u8>>,
}

impl BytecodeBundle {
    /// The entry point is one of the modules, and no module is there twice.
    pub closed spec fn wf(&self) -> bool {
        self.modules.wf() && self.modules@.contains_key(self.entry_point@)
    }

    /// The specifier of the entry module.
    pub closed spec fn entry(&self) -> Seq<char> {
        self.entry_point@
    }

    /// The bytecode of each module.
    pub closed spec fn bytecode(&self) -> Map<Seq<char>, Seq<u8>> {
        byte_views(self.modules@)
    }

    /// The bundle as a pair of plain values.
    pub open spec fn view(&self) -> (Seq<char>, Map<Seq<char>, Seq<u8>>) {
        (self.entry(), self.bytecode())
    }

    /// A well-formed bundle has its entry point among its modules.
    pub proof fn lemma_entry_is_module(&self)
        requires
            self.wf(),
        ensures
            self.bytecode().contains_key(self.entry()),
    {
    }

    /// The bundle of the given modules, where `entry_point` is one of them.
    pub fn new(entry_point: String, modules: SpecifierMap<Vec<u8>>) -> (r: Option<Self>)
        requires
            modules.wf(),
        ensures
            match r {
                Some(bundle) => bundle.wf() && bundle@ == (entry_point@, byte_views(modules@)),
                None => !modules@.contains_key(entry_point@),
            },
    {
        if modules.contains_key(entry_point.as_str()) {
            Some(BytecodeBundle { entry_point, modules })
        } else {
            None
        }
    }

    /// The specifier of the entry module.
    pub fn entry_point(&self) -> (e: &str)
        ensures
            e@ == self.entry(),
    {
        self.entry_point.as_str()
    }

    /// The modules of the bundle.
    pub fn modules(&self) -> (m: &SpecifierMap<Vec<u8>>)
        requires
            self.wf(),
        ensures
            m.wf(),
            byte_views(m@) == self.bytecode(),
            m@.contains_key(self.entry()),
    {
        &self.modules
    }

    /// Takes the bundle apart into its entry point and its modules.
    pub fn into_parts(self) -> (parts: (String, SpecifierMap<Vec<u8>>))
        requires
            self.wf(),
        ensures
            parts.0@ == self.entry(),
            parts.1.wf(),
            byte_views(parts.1@) == self.bytecode(),
            parts.1@.contains_key(parts.0@),
    {
        (self.entry_point, self.modules)
    }

    /// The bytecode of the entry module.
    pub fn entry_bytecode(&self) -> (bytes: &[u8])
        requires
            self.wf(),
        ensures
            bytes@ == self.bytecode()[self.entry()],
    {
        match self.modules.get(self.entry_point.as_str()) {
            Some(bytes) => bytes.as_slice(),
            None => {
                proof {
                    assert(false);
                }
                &[]
            },
        }
    }

    /// The bundle as one byte array, or `None` where the archive could not
    /// be written. Reading the bytes gives the same bundle back.
    ///
    /// No bundle is promised an archive. The archiver decides, and it refuses
    /// what its format cannot hold: a text longer than the format has room
    /// for, or an archive whose parts lie further apart than its offsets
    /// reach. Which bytes come out is not stated either: they follow the order
    /// in which the archiver walks the modules.
    pub fn to_bytes(&self) -> (r: Option<Vec<u8>>)
        requires
            self.wf(),
        ensures
            r matches Some(bytes) ==> decoded_bundle(bytes@) == Some(self@) && reading(bytes@)
                == Ok::<Reading, BundleFormatError>(Reading::Bundle(self.entry(), self.bytecode())),
    {
        let mut pairs: Vec<(String, Vec<u8>)> = Vec::new();
        let mut i: usize = 0;
        while i < self.modules.len()
            invariant
                self.modules.wf(),
                i <= self.modules.keys().len(),
                pairs@.len() == i,
                forall|j: int| 0 <= j < i ==> (#[trigger] pairs@[j]).0@ == self.modules.keys()[j],
                pairs_map(pairs@) == byte_views(self.modules.prefix(i as int)),
            decreases self.modules.keys().len() - i,
        {
            let ghost before = pairs@;
            let key = self.modules.key_at(i).to_owned();
            let value = copy_bytes(self.modules.value_at(i).as_slice());
            pairs.push((key, value));
            proof {
                assert(pairs@.drop_last() == before);
                lemma_byte_views_insert(
                    self.modules.prefix(i as int),
                    self.modules.keys()[i as int],
                    self.modules.values()[i as int],
                );
            }
            i += 1;
        }
        proof {
            self.modules.lemma_prefix_is_view();
            assert forall|a: int, b: int|
                0 <= a < pairs@.len() && 0 <= b < pairs@.len() && a != b implies (
            #[trigger] pairs@[a]).0@ != (#[trigger] pairs@[b]).0@ by {
                assert(self.modules.keys()[a] != self.modules.keys()[b]);
            }
        }
        archive_bundle(self.entry_point.as_str(), &pairs)
    }
}

/// What a byte array holds, as plain values.
pub enum Reading {
    /// A bundle: its entry point and the bytecode of each module.
    Bundle(Seq<char>, Map<Seq<char>, Seq<u8>>),
    /// The bytecode of a single module, without any wrapper.
    RawModule(Seq<u8>),
}

/// What a byte array is read as. Bytes that are an archive of a bundle are
/// that bundle, provided its entry point is among its modules. Bytes that are
/// no such archive are taken whole, untouched, as the bytecode of a single
/// module. An archive without its entry module, and an empty array, are
/// neither.
pub open spec fn reading(bytes: Seq<u8>) -> Result<Reading, BundleFormatError> {
    match decoded_bundle(bytes) {
        Some(pair) => if pair.1.contains_key(pair.0) {
            Ok(Reading::Bundle(pair.0, pair.1))
        } else {
            Err(BundleFormatError::NeitherEncodingMatched)
        },
        None => if bytes.len() == 0 {
            Err(BundleFormatError::NeitherEncodingMatched)
        } else {
            Ok(Reading::RawModule(bytes))
        },
    }
}

/// What a byte array holds.
pub enum LoadedBytes<'a> {
    /// A bundle.
    Bundle(BytecodeBundle),
    /// The bytecode of a single module: the bytes that were given.
    RawModule(&'a [u8]),
}

impl<'a> LoadedBytes<'a> {
    /// The content as plain values.
    pub open spec fn view(&self) -> Reading {
        match *self {
            LoadedBytes::Bundle(bundle) => Reading::Bundle(bundle.entry(), bundle.bytecode()),
            LoadedBytes::RawModule(bytes) => Reading::RawModule(bytes@),
        }
    }

    /// A bundle that was read is well formed.
    pub open spec fn wf(&self) -> bool {
        match *self {
            LoadedBytes::Bundle(bundle) => bundle.wf(),
            LoadedBytes::RawModule(_) => true,
        }
    }
}

/// The outcome of a read as plain values.
pub open spec fn as_reading<'a>(r: Result<LoadedBytes<'a>, BundleFormatError>) -> Result<
    Reading,
    BundleFormatError,
> {
    match r {
        Ok(loaded) => Ok(loaded@),
        Err(e) => Err(e),
    }
}

/// Reads a byte array: as a bundle first, and as the bytecode of a single
/// module where it is no bundle. The bytes themselves are only read, so the
/// fallback sees them exactly as they came.
pub fn load<'a>(bytes: &'a [u8]) -> (r: Result<LoadedBytes<'a>, BundleFormatError>)
    ensures
        as_reading(r) == reading(bytes@),
        r matches Ok(loaded) ==> loaded.wf(),
{
    match unarchive_bundle(bytes) {
        Some(pair) => {
            let (entry_point, pairs) = pair;
            let mut modules: SpecifierMap<Vec<u8>> = SpecifierMap::new();
            let mut i: usize = 0;
            assert(pairs@.take(0) == Seq::<(String, Vec<u8>)>::empty());
            assert(byte_views(modules@) =~= pairs_map(pairs@.take(0)));
            while i < pairs.len()
                invariant
                    i <= pairs.len(),
                    modules.wf(),
                    byte_views(modules@) == pairs_map(pairs@.take(i as int)),
                decreases pairs.len() - i,
            {
                let key = pairs[i].0.clone();
                let value = copy_bytes(pairs[i].1.as_slice());
                proof {
                    assert(pairs@.take(i + 1).drop_last() == pairs@.take(i as int));
                    assert(pairs@.take(i + 1).last() == pairs@[i as int]);
                    lemma_byte_views_insert(modules@, key@, value);
                }
                modules.insert(key, value);
                i += 1;
            }
            assert(pairs@.take(pairs.len() as int) == pairs@);
            match BytecodeBundle::new(entry_point, modules) {
                Some(bundle) => Ok(LoadedBytes::Bundle(bundle)),
                None => Err(BundleFormatError::NeitherEncodingMatched),
            }
        },
        None => {
            if bytes.len() == 0 {
                Err(BundleFormatError::NeitherEncodingMatched)
            } else {
                Ok(LoadedBytes::RawModule(bytes))
            }
        },
    }
}

/// Why a byte array cannot be run as a file of tests.
#[derive(Clone, Copy, Debug, PartialEq, Eq, Structural)]
pub enum TestInputError {
    /// The bytes are the bytecode of a single module: tests run from bundles
    /// only.
    SingleModule,
    /// The bytes are neither a bundle nor the bytecode of a single module.
    Format(BundleFormatError),
}

impl TestInputError {
    /// The message of the error.
    pub open spec fn message(&self) -> Seq<char> {
        match *self {
            TestInputError::SingleModule => "Single module bytecode not supported for tests"@,
            TestInputError::Format(_) => "Bytecode is neither a bundle nor a single module"@,
        }
    }

    /// The message of the error.
    pub fn describe(&self) -> (text: String)
        ensures
            text@ == self.message(),
    {
        match self {
            TestInputError::SingleModule => {
                "Single module bytecode not supported for tests".to_owned()
            },
            TestInputError::Format(_) => "Bytecode is neither a bundle nor a single module".to_owned(),
        }
    }
}

/// What `test_bundle` makes of what a byte array is read as.
pub open spec fn test_reading(bytes: Seq<u8>) -> Result<
    (Seq<char>, Map<Seq<char>, Seq<u8>>),
    TestInputError,
> {
    match reading(bytes) {
        Ok(Reading::Bundle(entry, modules)) => Ok((entry, modules)),
        Ok(Reading::RawModule(_)) => Err(TestInputError::SingleModule),
        Err(e) => Err(TestInputError::Format(e)),
    }
}

/// Reads a byte array as a file of tests. Only a bundle will do: the
/// bytecode of a single module is refused, and so are bytes that are neither.
pub fn test_bundle(bytes: &[u8]) -> (r: Result<BytecodeBundle, TestInputError>)
    ensures
        match r {
            Ok(bundle) => bundle.wf() && test_reading(bytes@) == Ok::<
                (Seq<char>, Map<Seq<char>, Seq<u8>>),
                TestInputError,
            >(bundle@),
            Err(e) => test_reading(bytes@) == Err::<
                (Seq<char>, Map<Seq<char>, Seq<u8>>),
                TestInputError,
            >(e),
        },
{
    match load(bytes) {
        Ok(LoadedBytes::Bundle(bundle)) => Ok(bundle),
        Ok(LoadedBytes::RawModule(_)) => Err(TestInputError::SingleModule),
        Err(e) => Err(TestInputError::Format(e)),
    }
}

/// Turns the engine's verdict on bytes that were read as a single module into
/// the outcome of the read: bytes that are no bundle and that the engine does
/// not accept either match neither encoding.
pub fn finish_raw(accepted: bool) -> (r: Result<(), BundleFormatError>)
    ensures
        r == if accepted {
            Ok::<(), BundleFormatError>(())
        } else {
            Err::<(), BundleFormatError>(BundleFormatError::NeitherEncodingMatched)
        },
{
    if accepted {
        Ok(())
    } else {
        Err(BundleFormatError::NeitherEncodingMatched)
    }
}

/// Compiles a set of sources into a bundle, one module after the other, with
/// the engine at the other end of `next` and `record`.
///
/// The compiler names the module that the engine has to compile next and takes
/// back what became of it. The first failure ends the batch: no further module
/// is asked for, and no bundle made of the modules that did compile ever comes
/// out.
pub struct BundleCompiler {
    sources: SpecifierMap<String>,
    entry_point: String,
    compiled: SpecifierMap<Vec<u8>>,
    failure: Option<CompileError>,
}

impl BundleCompiler {
    /// The modules compiled so far are the first of the sources, in order.
    pub closed spec fn wf(&self) -> bool {
        &&& self.sources.wf()
        &&& self.compiled.wf()
        &&& self.compiled.keys().len() <= self.sources.keys().len()
        &&& self.compiled.keys() == self.sources.keys().take(self.compiled.keys().len() as int)
        &&& self.failure is None ==> self.sources@.contains_key(self.entry_point@)
    }

    /// The specifiers of the sources, in the order in which they are compiled.
    pub closed spec fn order(&self) -> Seq<Seq<char>> {
        self.sources.keys()
    }

    /// The sources by specifier.
    pub closed spec fn sources(&self) -> Map<Seq<char>, Seq<char>> {
        text_views(self.sources@)
    }

    /// The entry point asked for.
    pub closed spec fn entry(&self) -> Seq<char> {
        self.entry_point@
    }

    /// The bytecode recorded so far.
    pub closed spec fn compiled(&self) -> Map<Seq<char>, Seq<u8>> {
        byte_views(self.compiled@)
    }

    /// How many modules have been compiled.
    pub closed spec fn progress(&self) -> nat {
        self.compiled.keys().len()
    }

    /// The failure that ended the batch, if one did.
    pub closed spec fn failure(&self) -> Option<CompileFailure> {
        match self.failure {
            Some(e) => Some(e@),
            None => None,
        }
    }

    /// The position of the module that the engine has to compile next;
    /// `None` once the batch has failed or every module is compiled.
    pub open spec fn pending(&self) -> Option<int> {
        if self.failure() is None && self.progress() < self.order().len() {
            Some(self.progress() as int)
        } else {
            None
        }
    }

    /// What the batch has come to: the failure that ended it; else, while a
    /// module is still to be compiled, that module as not compiled; else the
    /// bundle of all the modules.
    pub open spec fn outcome(&self) -> Result<(Seq<char>, Map<Seq<char>, Seq<u8>>), CompileFailure> {
        match self.failure() {
            Some(failure) => Err(failure),
            None => if self.progress() < self.order().len() {
                Err(
                    CompileFailure {
                        specifier: self.order()[self.progress() as int],
                        message: not_compiled(),
                        stack: None,
                    },
                )
            } else {
                Ok((self.entry(), self.compiled()))
            },
        }
    }

    /// A compiler for the given sources. Where `entry_point` is not one of
    /// them the batch has failed before it began.
    pub fn new(sources: SpecifierMap<String>, entry_point: String) -> (c: Self)
        requires
            sources.wf(),
        ensures
            c.wf(),
            c.order() == sources.keys(),
            c.sources() == text_views(sources@),
            c.entry() == entry_point@,
            c.progress() == 0,
            c.compiled() == Map::<Seq<char>, Seq<u8>>::empty(),
            c.failure() == if sources@.contains_key(entry_point@) {
                None::<CompileFailure>
            } else {
                Some(
                    CompileFailure {
                        specifier: entry_point@,
                        message: entry_not_found(),
                        stack: None,
                    },
                )
            },
    {
        let failure = if sources.contains_key(entry_point.as_str()) {
            None
        } else {
            Some(
                CompileError {
                    specifier: entry_point.clone(),
                    message: "Entry module not found".to_owned(),
                    stack: None,
                },
            )
        };
        let c = BundleCompiler { sources, entry_point, compiled: SpecifierMap::new(), failure };
        assert(c.compiled.keys() =~= c.sources.keys().take(0));
        assert(c.compiled() =~= Map::<Seq<char>, Seq<u8>>::empty());
        c
    }

    /// The module that the engine has to compile next: its specifier and its
    /// source.
    pub fn next(&self) -> (r: Option<(&str, &str)>)
        requires
            self.wf(),
        ensures
            match r {
                Some(module) => self.pending() is Some && module.0@ == self.order()[
                    self.pending()->Some_0
                ] && self.sources().contains_key(module.0@) && module.1@ == self.sources()[module.0@],
                None => self.pending() is None,
            },
    {
        if self.failure.is_some() {
            return None;
        }
        let i = self.compiled.len();
        if i < self.sources.len() {
            proof {
                crate::map::lemma_index_of_unique(self.sources.keys(), i as int);
            }
            Some((self.sources.key_at(i), self.sources.value_at(i).as_str()))
        } else {
            None
        }
    }

    /// How `record` changes a compiler. The sources, their order and the
    /// entry point stay. With no module pending nothing else changes either.
    /// Otherwise bytecode is stored under the pending specifier and the batch
    /// moves on, and a diagnostic becomes the failure that ends the batch, with
    /// the pending specifier as the one to blame.
    pub open spec fn recorded(
        before: Self,
        result: Result<Vec<u8>, EngineDiagnostic>,
        after: Self,
    ) -> bool {
        &&& after.order() == before.order()
        &&& after.sources() == before.sources()
        &&& after.entry() == before.entry()
        &&& match before.pending() {
            None => {
                &&& after.compiled() == before.compiled()
                &&& after.failure() == before.failure()
                &&& after.progress() == before.progress()
            },
            Some(i) => match result {
                Ok(bytes) => {
                    &&& after.compiled() == before.compiled().insert(before.order()[i], bytes@)
                    &&& after.failure() is None
                    &&& after.progress() == before.progress() + 1
                },
                Err(diagnostic) => {
                    &&& after.compiled() == before.compiled()
                    &&& after.progress() == before.progress()
                    &&& after.failure() == Some(
                        failure_of(
                            before.order()[i],
                            opt_text(diagnostic.message),
                            opt_text(diagnostic.stack),
                        ),
                    )
                },
            },
        }
    }

    /// Takes what the engine made of the pending module: its bytecode, or the
    /// diagnostic with which the engine refused it. With no module pending the
    /// call changes nothing.
    pub fn record(&mut self, result: Result<Vec<u8>, EngineDiagnostic>)
        requires
            old(self).wf(),
        ensures
            final(self).wf(),
            Self::recorded(*old(self), result, *final(self)),
    {
        if self.failure.is_some() {
            return ;
        }
        let i = self.compiled.len();
        if i >= self.sources.len() {
            return ;
        }
        let ghost before = *self;
        let specifier = self.sources.key_at(i).to_owned();
        match result {
            Ok(bytes) => {
                proof {
                    lemma_byte_views_insert(self.compiled@, specifier@, bytes);
                    assert(!self.compiled@.contains_key(specifier@)) by {
                        if self.compiled.keys().contains(specifier@) {
                            let j = self.compiled.keys().index_of(specifier@);
                            assert(self.sources.keys()[j] == self.sources.keys()[i as int]);
                        }
                    }
                }
                self.compiled.insert(specifier, bytes);
                assert(self.compiled.keys() =~= self.sources.keys().take(i + 1));
            },
            Err(diagnostic) => {
                let message = match diagnostic.message {
                    Some(m) => m,
                    None => "Unknown exception".to_owned(),
                };
                self.failure = Some(CompileError { specifier, message, stack: diagnostic.stack });
            },
        }
    }

    /// Ends the batch: the bundle of all the modules, or the failure.
    pub fn finish(self) -> (r: Result<BytecodeBundle, CompileError>)
        requires
            self.wf(),
        ensures
            match r {
                Ok(bundle) => bundle.wf() && self.outcome() == Ok::<
                    (Seq<char>, Map<Seq<char>, Seq<u8>>),
                    CompileFailure,
                >(bundle@) && bundle@.1.dom() == self.sources().dom(),
                Err(e) => self.outcome() == Err::<
                    (Seq<char>, Map<Seq<char>, Seq<u8>>),
                    CompileFailure,
                >(e@),
            },
    {
        if let Some(e) = self.failure {
            return Err(e);
        }
        let i = self.compiled.len();
        if i < self.sources.len() {
            return Err(
                CompileError {
                    specifier: self.sources.key_at(i).to_owned(),
                    message: "Module was not compiled".to_owned(),
                    stack: None,
                },
            );
        }
        proof {
            assert(self.sources.keys().take(i as int) == self.sources.keys());
            assert(self.compiled@.dom() =~= self.sources@.dom());
            assert(byte_views(self.compiled@).dom() =~= text_views(self.sources@).dom());
        }
        let entry_point = self.entry_point;
        let compiled = self.compiled;
        match BytecodeBundle::new(entry_point, compiled) {
            Some(bundle) => Ok(bundle),
            None => {
                proof {
                    assert(false);
                }
                Err(
                    CompileError {
                        specifier: String::new(),
                        message: "Entry module not found".to_owned(),
                        stack: None,
                    },
                )
            },
        }
    }
}

impl BundleCompiler {
    /// No source is there twice.
    pub proof fn lemma_order_is_distinct(&self)
        requires
            self.wf(),
        ensures
            self.order().no_duplicates(),
    {
    }
}

/// The engine compiled the first `n` modules of a batch, one after the other,
/// to the given bytecode.
pub open spec fn compiled_so_far(states: Seq<BundleCompiler>, bytecode: Seq<Vec<u8>>, n: int) -> bool {
    &&& 0 <= n <= bytecode.len()
    &&& n < states.len()
    &&& forall|i: int|
        0 <= i < n ==> BundleCompiler::recorded(
            #[trigger] states[i],
            Ok(bytecode[i]),
            states[i + 1],
        )
}

proof fn lemma_compiled_so_far(states: Seq<BundleCompiler>, bytecode: Seq<Vec<u8>>, n: int)
    requires
        compiled_so_far(states, bytecode, n),
        n <= states[0].order().len(),
        states[0].order().no_duplicates(),
        states[0].progress() == 0,
        states[0].failure() is None,
        states[0].compiled() == Map::<Seq<char>, Seq<u8>>::empty(),
    ensures
        states[n].order() == states[0].order(),
        states[n].sources() == states[0].sources(),
        states[n].entry() == states[0].entry(),
        states[n].progress() == n,
        states[n].failure() is None,
        forall|k: Seq<char>| #[trigger]
            states[n].compiled().contains_key(k) <==> exists|j: int|
                0 <= j < n && states[0].order()[j] == k,
        forall|j: int|
            0 <= j < n ==> states[n].compiled()[#[trigger] states[0].order()[j]] == bytecode[j]@,
    decreases n,
{
    if n > 0 {
        assert(compiled_so_far(states, bytecode, n - 1));
        lemma_compiled_so_far(states, bytecode, n - 1);
        let before = states[n - 1];
        let after = states[n];
        let order = states[0].order();
        assert(BundleCompiler::recorded(before, Ok(bytecode[n - 1]), after));
        assert(before.pending() == Some(n - 1));
        assert(after.compiled() == before.compiled().insert(order[n - 1], bytecode[n - 1]@));
        assert forall|k: Seq<char>| #[trigger]
            after.compiled().contains_key(k) <==> exists|j: int| 0 <= j < n && order[j] == k by {
            if after.compiled().contains_key(k) && k != order[n - 1] {
                assert(before.compiled().contains_key(k));
                let j = choose|j: int| 0 <= j < n - 1 && order[j] == k;
                assert(0 <= j < n && order[j] == k);
            }
            if exists|j: int| 0 <= j < n && order[j] == k {
                let j = choose|j: int| 0 <= j < n && order[j] == k;
                if j < n - 1 {
                    assert(before.compiled().contains_key(k));
                }
            }
        }
        assert forall|j: int| 0 <= j < n implies after.compiled()[#[trigger] order[j]]
            == bytecode[j]@ by {
            if j < n - 1 {
                assert(order[j] != order[n - 1]);
            }
        }
    }
}

/// A batch in which the engine compiles every module comes to a bundle: with
/// the entry point that was asked for, with exactly the specifiers of the sources
/// as its modules, and under each specifier the bytecode that the engine made of
/// that source.
pub proof fn law_a_successful_batch_is_a_bundle(states: Seq<BundleCompiler>, bytecode: Seq<Vec<u8>>)
    requires
        states.len() == bytecode.len() + 1,
        states[0].wf(),
        states[0].progress() == 0,
        states[0].failure() is None,
        states[0].compiled() == Map::<Seq<char>, Seq<u8>>::empty(),
        bytecode.len() == states[0].order().len(),
        compiled_so_far(states, bytecode, bytecode.len() as int),
    ensures
        states.last().outcome() is Ok,
        states.last().outcome()->Ok_0.0 == states[0].entry(),
        forall|k: Seq<char>| #[trigger]
            states.last().outcome()->Ok_0.1.contains_key(k) <==> states[0].order().contains(k),
        forall|j: int|
            0 <= j < bytecode.len() ==> states.last().outcome()->Ok_0.1[#[trigger] states[0].order()[j]]
                == bytecode[j]@,
{
    states[0].lemma_order_is_distinct();
    lemma_compiled_so_far(states, bytecode, bytecode.len() as int);
    let done = states[bytecode.len() as int];
    assert(done == states.last());
    let order = states[0].order();
    assert forall|k: Seq<char>| #[trigger]
        done.compiled().contains_key(k) <==> order.contains(k) by {
        if order.contains(k) {
            let j = order.index_of(k);
            assert(0 <= j < bytecode.len() && order[j] == k);
        }
    }
}

/// The first module that the engine refuses ends the batch: whatever is
/// recorded afterwards, the batch comes to the failure that names that module,
/// and never to a bundle of the modules that did compile.
pub proof fn law_the_first_failure_is_final(
    before: BundleCompiler,
    failed: BundleCompiler,
    later: BundleCompiler,
    diagnostic: EngineDiagnostic,
    next: Result<Vec<u8>, EngineDiagnostic>,
)
    requires
        before.pending() is Some,
        BundleCompiler::recorded(before, Err(diagnostic), failed),
        BundleCompiler::recorded(failed, next, later),
    ensures
        failed.pending() is None,
        failed.outcome() is Err,
        failed.outcome()->Err_0.specifier == before.order()[before.pending()->Some_0],
        later.outcome() == failed.outcome(),
{
}

/// A bundle that comes out of a batch has the entry point that was asked for
/// and exactly the specifiers of the sources as its modules, and its bytes read
/// back as that bundle: for any sources, any entry point among them, and
/// whatever bytecode the engine produced.
pub proof fn law_compiled_bundle_round_trips(
    compiler: BundleCompiler,
    bundle: BytecodeBundle,
    bytes: Seq<u8>,
)
    requires
        compiler.wf(),
        bundle.wf(),
        compiler.outcome() == Ok::<(Seq<char>, Map<Seq<char>, Seq<u8>>), CompileFailure>(bundle@),
        bundle@.1.dom() == compiler.sources().dom(),
        decoded_bundle(bytes) == Some(bundle@),
    ensures
        reading(bytes) matches Ok(Reading::Bundle(entry, modules)) && entry == compiler.entry()
            && modules.dom() == compiler.sources().dom(),
{
    bundle.lemma_entry_is_module();
}

/// Bytes are read as a bundle exactly when they are an archive of one that
/// holds its own entry module, and as a single raw module exactly when they are
/// no archive and not empty: never as both, and the one never as the other.
pub proof fn law_encodings_are_told_apart(bytes: Seq<u8>)
    ensures
        reading(bytes) is Ok && reading(bytes)->Ok_0 is Bundle <==> decoded_bundle(bytes) is Some
            && decoded_bundle(bytes)->Some_0.1.contains_key(decoded_bundle(bytes)->Some_0.0),
        reading(bytes) is Ok && reading(bytes)->Ok_0 is RawModule <==> decoded_bundle(bytes) is None
            && bytes.len() > 0,
        reading(bytes) matches Ok(Reading::RawModule(raw)) ==> raw == bytes,
{
}

} // verus!
