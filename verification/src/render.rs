//! One render, step by step: the detector says what it needs from outside,
//! the host performs it and hands back what came of it.

use crate::classify::{EntryPath, FileType};
use crate::detect::{dotnet_module, emit, module_of, relevant_marker, select_marker};
use crate::scan::{Context, ListingError};
use crate::segment::{Module, ModuleView};
use crate::toolchain::{dotnet_version_of, get_dotnet_version, reply_view, LaunchError};
use vstd::prelude::*;

verus! {

/// Where a render stands.
#[derive(Debug, PartialEq)]
pub enum Stage {
    /// Nothing is known yet of the current directory.
    Scanning,
    /// A marker of this type was selected; the version is still unknown.
    ResolvingVersion(FileType),
    /// The render shows nothing.
    Absent,
    /// The render shows this module.
    Emitting(Module),
}

/// The mathematical content of a [`Stage`].
pub enum StageView {
    Scanning,
    ResolvingVersion(FileType),
    Absent,
    Emitting(ModuleView),
}

impl View for Stage {
    type V = StageView;

    open spec fn view(&self) -> StageView {
        match self {
            Stage::Scanning => StageView::Scanning,
            Stage::ResolvingVersion(marker) => StageView::ResolvingVersion(*marker),
            Stage::Absent => StageView::Absent,
            Stage::Emitting(module) => StageView::Emitting(module@),
        }
    }
}

/// What the host is asked to do next.
#[derive(Clone, Copy, Debug, PartialEq, Eq, Structural)]
pub enum Action {
    /// List the current directory and report [`Event::Listed`].
    ListDirectory,
    /// Run the toolchain's version command and report [`Event::Replied`].
    QueryToolchain,
    /// Nothing more: the render is over.
    Finish,
}

/// What the host reports back.
#[derive(Debug, PartialEq, Eq)]
pub enum Event {
    /// The directory was listed, or the listing failed.
    Listed(Context),
    /// The toolchain wrote this to its standard output, or did not start.
    Replied(Result<Vec<u8>, LaunchError>),
}

/// The mathematical content of an [`Event`].
pub enum EventView {
    Listed(Result<Seq<EntryPath>, ListingError>),
    Replied(Result<Seq<u8>, LaunchError>),
}

impl View for Event {
    type V = EventView;

    open spec fn view(&self) -> EventView {
        match self {
            Event::Listed(context) => EventView::Listed(context@),
            Event::Replied(reply) => EventView::Replied(reply_view(*reply)),
        }
    }
}

/// What a stage asks of the host.
pub open spec fn action_of(stage: StageView) -> Action {
    match stage {
        StageView::Scanning => Action::ListDirectory,
        StageView::ResolvingVersion(_) => Action::QueryToolchain,
        StageView::Absent => Action::Finish,
        StageView::Emitting(_) => Action::Finish,
    }
}

/// The stage that follows on an event. A stage takes the one event that it
/// asked for; any other event leaves it as it is.
pub open spec fn stage_after(stage: StageView, event: EventView) -> StageView {
    match (stage, event) {
        (StageView::Scanning, EventView::Listed(listing)) => match relevant_marker(listing) {
            Some(marker) => StageView::ResolvingVersion(marker),
            None => StageView::Absent,
        },
        (StageView::ResolvingVersion(_), EventView::Replied(reply)) => match dotnet_version_of(
            reply,
        ) {
            Some(version) => StageView::Emitting(dotnet_module(version)),
            None => StageView::Absent,
        },
        _ => stage,
    }
}

/// The module that a stage shows.
pub open spec fn shown(stage: StageView) -> Option<ModuleView> {
    match stage {
        StageView::Emitting(module) => Some(module),
        _ => None,
    }
}

impl Stage {
    /// The stage in which every render begins.
    pub fn start() -> (stage: Stage)
        ensures
            stage@ == StageView::Scanning,
    {
        Stage::Scanning
    }

    /// What the host is to do next.
    pub fn action(&self) -> (action: Action)
        ensures
            action == action_of(self@),
    {
        match self {
            Stage::Scanning => Action::ListDirectory,
            Stage::ResolvingVersion(_) => Action::QueryToolchain,
            Stage::Absent => Action::Finish,
            Stage::Emitting(_) => Action::Finish,
        }
    }

    /// Takes what the host reports and moves on.
    pub fn step(self, event: &Event) -> (next: Stage)
        ensures
            next@ == stage_after(self@, event@),
    {
        match self {
            Stage::Scanning => match event {
                Event::Listed(context) => match select_marker(context) {
                    Some(marker) => Stage::ResolvingVersion(marker),
                    None => Stage::Absent,
                },
                Event::Replied(_) => Stage::Scanning,
            },
            Stage::ResolvingVersion(marker) => match event {
                Event::Replied(reply) => match get_dotnet_version(reply) {
                    Some(version) => Stage::Emitting(emit(version.as_str())),
                    None => Stage::Absent,
                },
                Event::Listed(_) => Stage::ResolvingVersion(marker),
            },
            Stage::Absent => Stage::Absent,
            Stage::Emitting(module) => Stage::Emitting(module),
        }
    }

    /// The module to show once the render is over.
    pub fn into_module(self) -> (module: Option<Module>)
        ensures
            match module {
                Some(module) => shown(self@) == Some(module@),
                None => shown(self@) is None,
            },
    {
        match self {
            Stage::Emitting(module) => Some(module),
            _ => None,
        }
    }
}

/// A render that is stepped through the listing and then the toolchain's
/// reply shows what [`module_of`] says of the two, and is over then.
pub proof fn law_steps_render_the_module(
    listing: Result<Seq<EntryPath>, ListingError>,
    reply: Result<Seq<u8>, LaunchError>,
)
    ensures
        ({
            let listed = stage_after(StageView::Scanning, EventView::Listed(listing));
            let replied = stage_after(listed, EventView::Replied(reply));
            &&& shown(replied) == module_of(listing, reply)
            &&& action_of(replied) == Action::Finish
        }),
{
}

/// The toolchain is asked only where a marker was selected: after the
/// listing the render either asks for the toolchain, and then a marker
/// decides it, or is over and shows nothing.
pub proof fn law_toolchain_is_asked_only_for_a_marker(
    listing: Result<Seq<EntryPath>, ListingError>,
)
    ensures
        ({
            let listed = stage_after(StageView::Scanning, EventView::Listed(listing));
            if relevant_marker(listing) is Some {
                action_of(listed) == Action::QueryToolchain
            } else {
                action_of(listed) == Action::Finish && shown(listed) is None
            }
        }),
{
}

} // verus!
