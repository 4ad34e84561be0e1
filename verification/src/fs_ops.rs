//! What the file-system functions of a script do, decided from what the
//! script asked for and what the host found on disk. The host does the reading
//! and writing itself.

use vstd::prelude::*;

verus! {

/// The options of a write as a script gave them; what it left out is `None`.
#[derive(Clone, Copy, Debug, PartialEq, Eq, Structural)]
pub struct WriteOptions {
    /// Add to the end of the file instead of replacing its content.
    pub append: Option<bool>,
    /// Make the file where there is none.
    pub create: Option<bool>,
    /// Write only where there is no file yet.
    pub create_new: Option<bool>,
}

/// How a write is carried out.
#[derive(Clone, Copy, Debug, PartialEq, Eq, Structural)]
pub enum WritePlan {
    /// Nothing is written: the file was to be new and is there already.
    Refuse,
    /// The data goes to the end of the file, which is made where there is
    /// none if `create` is set.
    Append { create: bool },
    /// The data replaces the content of the file.
    Replace,
}

/// An option that was left out has its default.
pub open spec fn or_default(option: Option<bool>, default: bool) -> bool {
    match option {
        Some(b) => b,
        None => default,
    }
}

/// How a write with the given options is carried out. A file that was to be
/// new and exists is left alone. Else the data is appended where that was asked
/// for, and replaces the content where it was not. A file is made unless
/// `create` says otherwise.
pub open spec fn write_plan_of(options: WriteOptions, exists: bool) -> WritePlan {
    if or_default(options.create_new, false) && exists {
        WritePlan::Refuse
    } else if or_default(options.append, false) {
        WritePlan::Append { create: or_default(options.create, true) }
    } else {
        WritePlan::Replace
    }
}

/// Decides how a write is carried out.
pub fn write_plan(options: WriteOptions, exists: bool) -> (plan: WritePlan)
    ensures
        plan == write_plan_of(options, exists),
{
    let create_new = match options.create_new {
        Some(b) => b,
        None => false,
    };
    let append = match options.append {
        Some(b) => b,
        None => false,
    };
    let create = match options.create {
        Some(b) => b,
        None => true,
    };
    if create_new && exists {
        WritePlan::Refuse
    } else if append {
        WritePlan::Append { create }
    } else {
        WritePlan::Replace
    }
}

/// How a path is removed.
#[derive(Clone, Copy, Debug, PartialEq, Eq, Structural)]
pub enum RemovePlan {
    /// There is nothing at the path.
    NotFound,
    /// A directory with all that it holds.
    DirectoryAndContent,
    /// A directory, which has to be empty.
    EmptyDirectory,
    /// A file.
    File,
}

/// How a path is removed, from what is there and whether all below it may go
/// too.
pub open spec fn remove_plan_of(exists: bool, is_directory: bool, recursive: Option<bool>) -> RemovePlan {
    if !exists {
        RemovePlan::NotFound
    } else if is_directory {
        if or_default(recursive, false) {
            RemovePlan::DirectoryAndContent
        } else {
            RemovePlan::EmptyDirectory
        }
    } else {
        RemovePlan::File
    }
}

/// Decides how a path is removed.
pub fn remove_plan(exists: bool, is_directory: bool, recursive: Option<bool>) -> (plan: RemovePlan)
    ensures
        plan == remove_plan_of(exists, is_directory, recursive),
{
    if !exists {
        RemovePlan::NotFound
    } else if is_directory {
        match recursive {
            Some(true) => RemovePlan::DirectoryAndContent,
            _ => RemovePlan::EmptyDirectory,
        }
    } else {
        RemovePlan::File
    }
}

/// Whether a directory is made together with the directories above it.
pub fn makes_parents(recursive: Option<bool>) -> (b: bool)
    ensures
        b == or_default(recursive, false),
{
    match recursive {
        Some(b) => b,
        None => false,
    }
}

} // verus!
