//! The file classifier: which kind of project marker, if any, a directory
//! entry is.

use crate::text::{ascii_lowercase, lemma_ascii_lowercase_idempotent, to_ascii_lowercase};
use vstd::prelude::*;

verus! {

/// The kinds of file that mark a directory as a .NET project.
#[derive(Clone, Copy, Debug, PartialEq, Eq, Structural)]
pub enum FileType {
    /// A per-project JSON descriptor, `project.json`.
    ProjectJson,
    /// A build-project descriptor: `*.csproj`, `*.fsproj` or `*.xproj`.
    ProjectFile,
    /// The global pin file, `global.json`.
    GlobalJson,
    /// A solution aggregator, `*.sln`.
    SolutionFile,
}

/// A directory entry, reduced to the two parts of its path that
/// classification reads.
#[derive(Debug, PartialEq, Eq)]
pub struct EntryPath {
    /// The final component of the path, where the path has one and it is
    /// valid Unicode.
    pub file_name: Option<String>,
    /// The extension of the final component, without the dot, where the
    /// component has one and it is valid Unicode.
    pub extension: Option<String>,
}

/// The mathematical content of an [`EntryPath`].
pub struct EntryPathView {
    pub file_name: Option<Seq<char>>,
    pub extension: Option<Seq<char>>,
}

impl View for EntryPath {
    type V = EntryPathView;

    open spec fn view(&self) -> EntryPathView {
        EntryPathView {
            file_name: match self.file_name {
                Some(name) => Some(name@),
                None => None,
            },
            extension: match self.extension {
                Some(extension) => Some(extension@),
                None => None,
            },
        }
    }
}

/// Whether a path part is present and equals `pattern` once its ASCII
/// letters are folded to lower case.
pub open spec fn part_matches(part: Option<Seq<char>>, pattern: Seq<char>) -> bool {
    match part {
        Some(text) => ascii_lowercase(text) == pattern,
        None => false,
    }
}

/// The marker type of a path: decided by the file name first, then by the
/// extension, both compared without regard to ASCII case.
pub open spec fn file_type_of(path: EntryPathView) -> Option<FileType> {
    if part_matches(path.file_name, "global.json"@) {
        Some(FileType::GlobalJson)
    } else if part_matches(path.file_name, "project.json"@) {
        Some(FileType::ProjectJson)
    } else if part_matches(path.extension, "sln"@) {
        Some(FileType::SolutionFile)
    } else if part_matches(path.extension, "csproj"@) || part_matches(path.extension, "fsproj"@)
        || part_matches(path.extension, "xproj"@) {
        Some(FileType::ProjectFile)
    } else {
        None
    }
}

/// The ASCII lower-case form of a path part, where it is present.
pub fn map_to_lower(value: &Option<String>) -> (lowered: Option<String>)
    ensures
        match lowered {
            Some(text) => value matches Some(part) && text@ == ascii_lowercase(part@),
            None => value is None,
        },
{
    match value {
        Some(text) => Some(to_ascii_lowercase(text.as_str())),
        None => None,
    }
}

/// Whether `lowered` is present and spells exactly `pattern`.
fn is_exactly(lowered: &Option<String>, pattern: &str) -> (same: bool)
    ensures
        same == (lowered matches Some(text) && text@ == pattern@),
{
    match lowered {
        Some(text) => {
            let wanted = pattern.to_owned();
            *text == wanted
        },
        None => false,
    }
}

/// Classifies one directory entry.
pub fn get_dotnet_file_type(path: &EntryPath) -> (file_type: Option<FileType>)
    ensures
        file_type == file_type_of(path@),
{
    let file_name_lower = map_to_lower(&path.file_name);
    if is_exactly(&file_name_lower, "global.json") {
        return Some(FileType::GlobalJson);
    }
    if is_exactly(&file_name_lower, "project.json") {
        return Some(FileType::ProjectJson);
    }
    let extension_lower = map_to_lower(&path.extension);
    if is_exactly(&extension_lower, "sln") {
        return Some(FileType::SolutionFile);
    }
    if is_exactly(&extension_lower, "csproj") || is_exactly(&extension_lower, "fsproj")
        || is_exactly(&extension_lower, "xproj") {
        return Some(FileType::ProjectFile);
    }
    None
}

/// Whether two path parts are both absent, or both present and equal once
/// their ASCII letters are folded to lower case.
pub open spec fn same_ignoring_ascii_case(a: Option<Seq<char>>, b: Option<Seq<char>>) -> bool {
    match (a, b) {
        (Some(a), Some(b)) => ascii_lowercase(a) == ascii_lowercase(b),
        (None, None) => true,
        _ => false,
    }
}

/// A path with the ASCII letters of its file name and extension folded to
/// lower case.
pub open spec fn lowercase_form(path: EntryPathView) -> EntryPathView {
    EntryPathView {
        file_name: match path.file_name {
            Some(name) => Some(ascii_lowercase(name)),
            None => None,
        },
        extension: match path.extension {
            Some(extension) => Some(ascii_lowercase(extension)),
            None => None,
        },
    }
}

/// Classification does not see ASCII case: two paths whose file names and
/// extensions differ in nothing but the case of ASCII letters are of the
/// same type.
pub proof fn law_classification_ignores_ascii_case(a: EntryPathView, b: EntryPathView)
    requires
        same_ignoring_ascii_case(a.file_name, b.file_name),
        same_ignoring_ascii_case(a.extension, b.extension),
    ensures
        file_type_of(a) == file_type_of(b),
{
}

/// A path is classified as its lower-case form is.
pub proof fn law_lowercase_form_classifies_alike(path: EntryPathView)
    ensures
        file_type_of(lowercase_form(path)) == file_type_of(path),
{
    if let Some(name) = path.file_name {
        lemma_ascii_lowercase_idempotent(name);
    }
    if let Some(extension) = path.extension {
        lemma_ascii_lowercase_idempotent(extension);
    }
    law_classification_ignores_ascii_case(lowercase_form(path), path);
}

/// A path with neither a file name nor an extension is no marker.
pub proof fn law_path_without_name_and_extension_is_no_marker(path: EntryPathView)
    requires
        path.file_name is None,
        path.extension is None,
    ensures
        file_type_of(path) is None,
{
}

} // verus!
