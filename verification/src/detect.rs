//! The detector: from the listing of the current directory and the reply of
//! the toolchain to the module that the prompt shows, or to none.

use crate::classify::{file_type_of, EntryPath, FileType};
use crate::scan::{
    dotnet_files, get_local_dotnet_files, law_scan_without_markers_is_empty,
    lemma_found_files_are_markers, lemma_markers_are_found, place_in_scan, Context, ListingError,
};
use crate::segment::{bold_style, Module, ModuleView, SegmentView};
use crate::select::{law_selection_follows_priority, rank, relevant_file, relevant_file_of};
use crate::toolchain::{dotnet_version_of, get_dotnet_version, reply_view, LaunchError};
use vstd::prelude::*;

verus! {

/// The text of the symbol segment.
pub const DOTNET_SYMBOL: &'static str = "•NET ";

/// The type of the marker that decides the render: that of the relevant
/// file of the scan; none where the listing failed or holds no marker.
pub open spec fn relevant_marker(listing: Result<Seq<EntryPath>, ListingError>) -> Option<
    FileType,
> {
    match listing {
        Ok(entries) => match relevant_file_of(dotnet_files(entries)) {
            Some(file) => Some(file.file_type),
            None => None,
        },
        Err(_) => None,
    }
}

/// The module that shows `version`: named `dotnet`, bold blue, with the
/// segments `symbol` and `version` in this order.
pub open spec fn dotnet_module(version: Seq<char>) -> ModuleView {
    ModuleView {
        name: "dotnet"@,
        style: bold_style(ansi_term::Colour::Blue),
        segments: seq![
            SegmentView { name: "symbol"@, value: DOTNET_SYMBOL@ },
            SegmentView { name: "version"@, value: version },
        ],
    }
}

/// What a render shows: the module of the toolchain's version where the
/// directory holds a marker and the toolchain told its version, else
/// nothing.
pub open spec fn module_of(
    listing: Result<Seq<EntryPath>, ListingError>,
    reply: Result<Seq<u8>, LaunchError>,
) -> Option<ModuleView> {
    match relevant_marker(listing) {
        Some(_) => match dotnet_version_of(reply) {
            Some(version) => Some(dotnet_module(version)),
            None => None,
        },
        None => None,
    }
}

/// Selects the marker that decides the render.
pub fn select_marker(context: &Context) -> (marker: Option<FileType>)
    ensures
        marker == relevant_marker(context@),
{
    match get_local_dotnet_files(context) {
        Ok(dotnet_files) => match relevant_file(&dotnet_files) {
            Some(relevant_file) => Some(relevant_file.file_type),
            None => None,
        },
        Err(_) => None,
    }
}

/// Assembles the module that shows `version`.
pub fn emit(version: &str) -> (module: Module)
    ensures
        module@ == dotnet_module(version@),
{
    let mut module = Module::new("dotnet");
    module.set_style(ansi_term::Colour::Blue.bold());
    module.new_segment("symbol", DOTNET_SYMBOL);
    module.new_segment("version", version);
    proof {
        assert(module@.segments =~= dotnet_module(version@).segments);
    }
    module
}

/// Renders the module of the current directory: present only where the
/// directory holds a marker and the toolchain told its version.
pub fn module(context: &Context, reply: &Result<Vec<u8>, LaunchError>) -> (module: Option<Module>)
    ensures
        match module {
            Some(module) => module_of(context@, reply_view(*reply)) == Some(module@),
            None => module_of(context@, reply_view(*reply)) is None,
        },
{
    match select_marker(context) {
        Some(_) => match get_dotnet_version(reply) {
            Some(version) => Some(emit(version.as_str())),
            None => None,
        },
        None => None,
    }
}

/// The marker that decides the render is of the most relevant type that
/// the classifier finds in the listing: some entry is of that type, and no
/// entry is of a type before it in the priority order. No marker decides
/// only where no entry is one.
pub proof fn law_most_relevant_marker_decides(entries: Seq<EntryPath>)
    ensures
        match relevant_marker(Ok(entries)) {
            Some(marker) => {
                &&& exists|i: int|
                    0 <= i < entries.len() && file_type_of((#[trigger] entries[i])@) == Some(
                        marker,
                    )
                &&& forall|i: int|
                    0 <= i < entries.len() ==> (file_type_of((#[trigger] entries[i])@) matches Some(
                        other,
                    ) ==> rank(marker) <= rank(other))
            },
            None => forall|i: int|
                0 <= i < entries.len() ==> file_type_of((#[trigger] entries[i])@) is None,
        },
{
    let files = dotnet_files(entries);
    let at = law_selection_follows_priority(files);
    match relevant_file_of(files) {
        Some(file) => {
            let i = lemma_found_files_are_markers(entries, at);
            assert(file_type_of(entries[i]@) == Some(file.file_type));
            assert forall|i: int| 0 <= i < entries.len() implies (file_type_of(
                (#[trigger] entries[i])@,
            ) matches Some(other) ==> rank(file.file_type) <= rank(other)) by {
                if file_type_of(entries[i]@) is Some {
                    lemma_markers_are_found(entries, i);
                    let k = place_in_scan(entries, i);
                    assert(rank(file.file_type) <= rank(files[k].file_type));
                }
            }
        },
        None => {
            assert forall|i: int| 0 <= i < entries.len() implies file_type_of(
                (#[trigger] entries[i])@,
            ) is None by {
                if file_type_of(entries[i]@) is Some {
                    lemma_markers_are_found(entries, i);
                }
            }
        },
    }
}

/// A directory that holds `global.json` and no `project.json` is decided by
/// `global.json`, whichever project and solution files stand beside it.
pub proof fn law_global_json_decides(entries: Seq<EntryPath>)
    requires
        exists|i: int|
            0 <= i < entries.len() && file_type_of((#[trigger] entries[i])@) == Some(
                FileType::GlobalJson,
            ),
        forall|i: int|
            0 <= i < entries.len() ==> file_type_of((#[trigger] entries[i])@) != Some(
                FileType::ProjectJson,
            ),
    ensures
        relevant_marker(Ok(entries)) == Some(FileType::GlobalJson),
{
    law_most_relevant_marker_decides(entries);
    let i = choose|i: int|
        0 <= i < entries.len() && file_type_of((#[trigger] entries[i])@) == Some(
            FileType::GlobalJson,
        );
    assert(file_type_of(entries[i]@) == Some(FileType::GlobalJson));
}

/// A directory without a marker shows no module, whatever the toolchain
/// replies.
pub proof fn law_no_marker_no_module(entries: Seq<EntryPath>, reply: Result<Seq<u8>, LaunchError>)
    requires
        forall|i: int| 0 <= i < entries.len() ==> file_type_of((#[trigger] entries[i])@) is None,
    ensures
        module_of(Ok(entries), reply) is None,
{
    law_scan_without_markers_is_empty(entries);
    law_selection_follows_priority(dotnet_files(entries));
}

/// An empty directory shows no module, whatever the toolchain replies.
pub proof fn law_empty_directory_no_module(reply: Result<Seq<u8>, LaunchError>)
    ensures
        module_of(Ok(Seq::empty()), reply) is None,
{
    law_no_marker_no_module(Seq::empty(), reply);
}

/// A failed listing shows no module, whatever the toolchain replies.
pub proof fn law_failed_listing_no_module(error: ListingError, reply: Result<Seq<u8>, LaunchError>)
    ensures
        module_of(Err(error), reply) is None,
{
}

/// A module is never partial: where one is shown, it has exactly the symbol
/// segment and the version segment, in this order, and the version segment
/// is a `v` followed by at least one more character.
pub proof fn law_module_is_whole(
    listing: Result<Seq<EntryPath>, ListingError>,
    reply: Result<Seq<u8>, LaunchError>,
)
    requires
        module_of(listing, reply) is Some,
    ensures
        module_of(listing, reply)->0.segments.len() == 2,
        module_of(listing, reply)->0.segments[0].name == "symbol"@,
        module_of(listing, reply)->0.segments[0].value == DOTNET_SYMBOL@,
        module_of(listing, reply)->0.segments[1].name == "version"@,
        module_of(listing, reply)->0.segments[1].value.len() >= 2,
        module_of(listing, reply)->0.segments[1].value[0] == 'v',
        module_of(listing, reply)->0.style == bold_style(ansi_term::Colour::Blue),
{
}

} // verus!
