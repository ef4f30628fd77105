//! Build-manifest detection: the first recognized manifest among the entries
//! of a directory walk classifies the project.

use vstd::prelude::*;
use vstd::string::StrSliceExecFns;
use crate::project::ServiceError;
use crate::text::same_text;

verus! {

/// The project kinds told apart by their manifest file.
#[derive(Debug, Clone, Copy, PartialEq, Eq, Structural)]
pub enum KeyFile {
    Rust,
    Go,
    Gleam,
    NodeJS,
}

/// The manifest file name of each project kind.
pub open spec fn manifest_name(k: KeyFile) -> Seq<char> {
    match k {
        KeyFile::Rust => "Cargo.toml"@,
        KeyFile::Go => "go.mod"@,
        KeyFile::Gleam => "gleam.toml"@,
        KeyFile::NodeJS => "package.json"@,
    }
}

/// The project kind whose manifest is called `name`, if any.
pub open spec fn key_file_of(name: Seq<char>) -> Option<KeyFile> {
    if name == "Cargo.toml"@ {
        Some(KeyFile::Rust)
    } else if name == "go.mod"@ {
        Some(KeyFile::Go)
    } else if name == "gleam.toml"@ {
        Some(KeyFile::Gleam)
    } else if name == "package.json"@ {
        Some(KeyFile::NodeJS)
    } else {
        None
    }
}

impl KeyFile {
    /// The manifest file name of this kind.
    pub fn value(&self) -> (r: &'static str)
        ensures
            r@ == manifest_name(*self),
    {
        match self {
            KeyFile::Rust => "Cargo.toml",
            KeyFile::Go => "go.mod",
            KeyFile::Gleam => "gleam.toml",
            KeyFile::NodeJS => "package.json",
        }
    }

    /// Whether both kinds have the same manifest file name.
    pub fn cmp(&self, value: KeyFile) -> (r: bool)
        ensures
            r == (manifest_name(*self) == manifest_name(value)),
    {
        same_text(self.value(), value.value())
    }
}

/// Classifies a file by its name.
pub fn classify(file_name: &str) -> (r: Option<KeyFile>)
    ensures
        r == key_file_of(file_name@),
{
    if same_text(file_name, "Cargo.toml") {
        Some(KeyFile::Rust)
    } else if same_text(file_name, "go.mod") {
        Some(KeyFile::Go)
    } else if same_text(file_name, "gleam.toml") {
        Some(KeyFile::Gleam)
    } else if same_text(file_name, "package.json") {
        Some(KeyFile::NodeJS)
    } else {
        None
    }
}

/// One entry met while walking a directory tree.
pub struct FileEntry {
    /// The directory that holds the entry.
    pub dir: String,
    /// The entry's own name.
    pub name: String,
    /// Whether the entry is a regular file (after following links).
    pub is_file: bool,
    /// Whether the entry is a directory (after following links).
    pub is_dir: bool,
    /// Whether the walk failed on the entry, or could not name it.
    pub unreadable: bool,
}

/// Whether an entry is a readable file with a recognized manifest name.
pub open spec fn recognized(e: FileEntry) -> bool {
    !e.unreadable && e.is_file && key_file_of(e.name@) is Some
}

/// Whether an entry ends the walk: a directory that could not be read.
/// Unreadable files are passed over.
pub open spec fn blocks(e: FileEntry) -> bool {
    e.unreadable && e.is_dir
}

/// Whether entry `i` is the first one that settles the detection: a
/// recognized manifest or a directory that could not be read.
pub open spec fn first_decisive(entries: Seq<FileEntry>, i: int) -> bool {
    &&& 0 <= i < entries.len()
    &&& (recognized(entries[i]) || blocks(entries[i]))
    &&& forall|j: int| 0 <= j < i ==> !recognized(#[trigger] entries[j]) && !blocks(entries[j])
}

/// Goes through the entries in walk order. The first recognized manifest
/// gives its index and project kind; a directory that could not be read
/// before it fails the detection; so does a walk without a manifest.
pub fn detect_key_file(entries: &Vec<FileEntry>) -> (r: Result<(usize, KeyFile), ServiceError>)
    ensures
        match r {
            Ok((i, k)) => first_decisive(entries@, i as int) && recognized(entries@[i as int]) && key_file_of(
                entries@[i as int].name@,
            ) == Some(k),
            Err(ServiceError::TraversalError) => exists|i: int|
                first_decisive(entries@, i) && #[trigger] blocks(entries@[i]),
            Err(ServiceError::NoSupportedProjectFound) => forall|j: int|
                0 <= j < entries@.len() ==> !recognized(#[trigger] entries@[j]) && !blocks(entries@[j]),
            Err(_) => false,
        },
{
    let mut i: usize = 0;
    while i < entries.len()
        invariant
            i <= entries@.len(),
            forall|j: int| 0 <= j < i ==> !recognized(#[trigger] entries@[j]) && !blocks(entries@[j]),
        decreases entries@.len() - i,
    {
        let e = &entries[i];
        if e.unreadable {
            if e.is_dir {
                assert(first_decisive(entries@, i as int) && blocks(entries@[i as int]));
                return Err(ServiceError::TraversalError);
            }
        } else if e.is_file {
            match classify(e.name.as_str()) {
                Some(k) => {
                    return Ok((i, k));
                },
                None => {},
            }
        }
        i = i + 1;
    }
    Err(ServiceError::NoSupportedProjectFound)
}

/// A walk with exactly one recognized manifest, and no unreadable directory
/// before it, is classified by that manifest, however many other entries
/// surround it.
pub proof fn law_single_manifest(entries: Seq<FileEntry>, n: int)
    requires
        0 <= n < entries.len(),
        recognized(entries[n]),
        forall|j: int| 0 <= j < entries.len() && j != n ==> !recognized(#[trigger] entries[j]),
        forall|j: int| 0 <= j < n ==> !blocks(#[trigger] entries[j]),
    ensures
        forall|i: int| first_decisive(entries, i) <==> i == n,
{
    assert forall|i: int| first_decisive(entries, i) implies i == n by {
        if i < n {
            assert(!recognized(entries[n]));
        } else if i > n {
            assert(!recognized(entries[n]));
        }
    }
}

/// A walk without a recognized manifest or an unreadable directory has no
/// entry that settles the detection, so it finds no supported project.
pub proof fn law_no_manifest(entries: Seq<FileEntry>)
    requires
        forall|j: int| 0 <= j < entries.len() ==> !recognized(#[trigger] entries[j]) && !blocks(entries[j]),
    ensures
        forall|i: int| !first_decisive(entries, i),
{
}

/// Once a manifest is recognized, what the walk met after it does not
/// matter: a later unreadable directory does not fail the detection.
pub proof fn law_later_entries_ignored(entries: Seq<FileEntry>, n: int, m: int)
    requires
        first_decisive(entries, n),
        recognized(entries[n]),
        n < m < entries.len(),
    ensures
        !first_decisive(entries, m),
{
}

} // verus!
