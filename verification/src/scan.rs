//! The directory scanner: the markers among the entries of a listing, in the
//! order of the listing.

use crate::classify::{file_type_of, get_dotnet_file_type, EntryPath, FileType};
use vstd::prelude::*;

verus! {

/// The directory-listing provider could not list the current directory.
#[derive(Clone, Copy, Debug, PartialEq, Eq, Structural)]
pub struct ListingError;

/// What one render knows of the current directory.
#[derive(Debug, PartialEq, Eq)]
pub struct Context {
    /// The entries of the current directory as the listing provider returned
    /// them, or its failure.
    pub dir_files: Result<Vec<EntryPath>, ListingError>,
}

impl View for Context {
    type V = Result<Seq<EntryPath>, ListingError>;

    open spec fn view(&self) -> Result<Seq<EntryPath>, ListingError> {
        match self.dir_files {
            Ok(entries) => Ok(entries@),
            Err(e) => Err(e),
        }
    }
}

/// A marker found in the listing: the entry, borrowed from the listing, and
/// its type.
#[derive(Clone, Copy, Debug, PartialEq, Eq)]
pub struct DotNetFile<'a> {
    pub path: &'a EntryPath,
    pub file_type: FileType,
}

/// The markers among `entries`, in the order of `entries`.
pub open spec fn dotnet_files<'a>(entries: Seq<EntryPath>) -> Seq<DotNetFile<'a>>
    decreases entries.len(),
{
    if entries.len() == 0 {
        Seq::empty()
    } else {
        let found = dotnet_files(entries.drop_last());
        match file_type_of(entries.last()@) {
            Some(file_type) => found.push(DotNetFile { path: &entries.last(), file_type }),
            None => found,
        }
    }
}

/// Scans the listing held by `context`: every entry that the classifier
/// recognises, paired with its type, in listing order. A listing failure is
/// handed on unchanged.
pub fn get_local_dotnet_files<'a>(context: &'a Context) -> (found: Result<
    Vec<DotNetFile<'a>>,
    ListingError,
>)
    ensures
        match found {
            Ok(files) => context@ matches Ok(entries) && files@ == dotnet_files(entries),
            Err(error) => context@ == Err::<Seq<EntryPath>, ListingError>(error),
        },
{
    match &context.dir_files {
        Ok(entries) => {
            let mut files: Vec<DotNetFile<'a>> = Vec::new();
            let mut i: usize = 0;
            while i < entries.len()
                invariant
                    i <= entries.len(),
                    files@ == dotnet_files(entries@.take(i as int)),
                decreases entries.len() - i,
            {
                let path = &entries[i];
                proof {
                    assert(entries@.take(i + 1).drop_last() == entries@.take(i as int));
                }
                match get_dotnet_file_type(path) {
                    Some(file_type) => files.push(DotNetFile { path, file_type }),
                    None => {},
                }
                i += 1;
            }
            proof {
                assert(entries@.take(i as int) == entries@);
            }
            Ok(files)
        },
        Err(e) => Err(*e),
    }
}

/// Every file of a scan is an entry of the listing together with the type
/// that the classifier gives it. The result is the index of that entry.
pub proof fn lemma_found_files_are_markers(entries: Seq<EntryPath>, k: int) -> (i: int)
    requires
        0 <= k < dotnet_files(entries).len(),
    ensures
        0 <= i < entries.len(),
        *dotnet_files(entries)[k].path == entries[i],
        file_type_of(entries[i]@) == Some(dotnet_files(entries)[k].file_type),
    decreases entries.len(),
{
    let found = dotnet_files(entries.drop_last());
    if k < found.len() {
        lemma_found_files_are_markers(entries.drop_last(), k)
    } else {
        entries.len() - 1
    }
}

/// The place in the scan of the entry at `i`, should it be a marker: the
/// number of markers before it in the listing.
pub open spec fn place_in_scan(entries: Seq<EntryPath>, i: int) -> int {
    dotnet_files(entries.take(i)).len() as int
}

/// Every entry that the classifier recognises is a file of the scan, and
/// stands there behind the markers that stand before it in the listing.
pub proof fn lemma_markers_are_found(entries: Seq<EntryPath>, i: int)
    requires
        0 <= i < entries.len(),
        file_type_of(entries[i]@) is Some,
    ensures
        0 <= place_in_scan(entries, i) < dotnet_files(entries).len(),
        *dotnet_files(entries)[place_in_scan(entries, i)].path == entries[i],
        file_type_of(entries[i]@) == Some(
            dotnet_files(entries)[place_in_scan(entries, i)].file_type,
        ),
    decreases entries.len(),
{
    let found = dotnet_files(entries.drop_last());
    if i < entries.len() - 1 {
        lemma_markers_are_found(entries.drop_last(), i);
        assert(entries.drop_last().take(i) == entries.take(i));
        if file_type_of(entries.last()@) is Some {
            assert(dotnet_files(entries)[place_in_scan(entries, i)] == found[place_in_scan(
                entries,
                i,
            )]);
        }
    } else {
        assert(entries.take(i) == entries.drop_last());
    }
}

/// The scan keeps the order of the listing: of two markers, the one that
/// comes first in the listing comes first in the scan.
pub proof fn law_scan_keeps_listing_order(entries: Seq<EntryPath>, i: int, j: int)
    requires
        0 <= i < j < entries.len(),
        file_type_of(entries[i]@) is Some,
        file_type_of(entries[j]@) is Some,
    ensures
        place_in_scan(entries, i) < place_in_scan(entries, j) < dotnet_files(entries).len(),
        *dotnet_files(entries)[place_in_scan(entries, i)].path == entries[i],
        *dotnet_files(entries)[place_in_scan(entries, j)].path == entries[j],
{
    lemma_markers_are_found(entries, i);
    lemma_markers_are_found(entries, j);
    let before = entries.take(j);
    assert(before[i] == entries[i]);
    lemma_markers_are_found(before, i);
    assert(before.take(i) == entries.take(i));
}

/// A listing without a marker yields an empty scan.
pub proof fn law_scan_without_markers_is_empty(entries: Seq<EntryPath>)
    requires
        forall|i: int| 0 <= i < entries.len() ==> file_type_of((#[trigger] entries[i])@) is None,
    ensures
        dotnet_files(entries).len() == 0,
{
    if dotnet_files(entries).len() > 0 {
        let i = lemma_found_files_are_markers(entries, 0);
        assert(file_type_of(entries[i]@) is None);
    }
}

} // verus!
