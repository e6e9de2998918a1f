//! Detection of .NET projects for a shell prompt.
//!
//! Given the entries of the current directory, the detector decides whether
//! the directory is a .NET project and, if so, which module the prompt
//! shows: a symbol and the version of the installed SDK.
//!
//! - [`classify`] tells which kind of project marker a directory entry is.
//! - [`scan`] collects the markers of a directory listing.
//! - [`select`] picks the one marker that decides, by a fixed priority.
//! - [`toolchain`] turns the output of `dotnet --version` into the version
//!   that is displayed.
//! - [`pinned`] reads the SDK version that a configuration file pins, out
//!   of a [`json`] document.
//! - [`segment`] holds the module and its segments.
//! - [`detect`] puts scanning, selection and the toolchain's version
//!   together.
//! - [`render`] does the same step by step, for a host that lists the
//!   directory and runs the toolchain only when it is asked to.
//!
//! The library performs no input or output: the host hands it what it read
//! and takes back what to show.

pub mod classify;
pub mod detect;
pub mod json;
pub mod pinned;
pub mod render;
pub mod scan;
pub mod segment;
pub mod select;
pub mod text;
pub mod toolchain;
pub mod version;

pub use classify::{get_dotnet_file_type, EntryPath, FileType};
pub use detect::module;
pub use pinned::get_pinned_sdk_version;
pub use scan::{get_local_dotnet_files, Context, DotNetFile};
pub use segment::{Module, Segment};
pub use toolchain::get_dotnet_version;
pub use version::Version;
