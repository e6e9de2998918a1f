//! The toolchain version query: what the prompt shows of the reply of
//! `dotnet --version`.

use crate::text::{from_utf8, is_white_space, law_trimmed_is_the_core, trim, trimmed};
use vstd::prelude::*;
use vstd::string::StringExecFns;
use vstd::utf8::{decode_utf8, valid_utf8};

verus! {

/// The program that is asked for the version.
pub const DOTNET_PROGRAM: &'static str = "dotnet";

/// The one argument that the program is given.
pub const VERSION_FLAG: &'static str = "--version";

/// The toolchain could not be started.
#[derive(Clone, Copy, Debug, PartialEq, Eq, Structural)]
pub struct LaunchError;

/// The reply of the toolchain as the contracts see it.
pub open spec fn reply_view(reply: Result<Vec<u8>, LaunchError>) -> Result<Seq<u8>, LaunchError> {
    match reply {
        Ok(stdout) => Ok(stdout@),
        Err(e) => Err(e),
    }
}

/// The display form of a trimmed version text: the text behind a `v`; there
/// is none of an empty text.
pub open spec fn display_version(version: Seq<char>) -> Option<Seq<char>> {
    if version.len() == 0 {
        None
    } else {
        Some(seq!['v'] + version)
    }
}

/// The display version that a reply of the toolchain yields: none where the
/// toolchain did not start, where its output is not valid UTF-8, or where
/// nothing but white space came out.
pub open spec fn dotnet_version_of(reply: Result<Seq<u8>, LaunchError>) -> Option<Seq<char>> {
    match reply {
        Ok(stdout) => if valid_utf8(stdout) {
            display_version(trimmed(decode_utf8(stdout)))
        } else {
            None
        },
        Err(_) => None,
    }
}

/// Puts a `v` before a trimmed version text.
pub fn format_version(version: &str) -> (display: Option<String>)
    ensures
        match display {
            Some(text) => display_version(version@) == Some(text@),
            None => display_version(version@) is None,
        },
{
    if version.is_empty() {
        return None;
    }
    let mut buffer = "v".to_owned();
    buffer.append(version);
    proof {
        reveal_strlit("v");
        assert("v"@ == seq!['v']);
    }
    Some(buffer)
}

/// Turns the reply of `dotnet --version` into the version that the prompt
/// displays.
pub fn get_dotnet_version(reply: &Result<Vec<u8>, LaunchError>) -> (display: Option<String>)
    ensures
        match display {
            Some(text) => dotnet_version_of(reply_view(*reply)) == Some(text@),
            None => dotnet_version_of(reply_view(*reply)) is None,
        },
{
    match reply {
        Ok(stdout) => match from_utf8(stdout.as_slice()) {
            Some(text) => format_version(trim(text)),
            None => None,
        },
        Err(_) => None,
    }
}

/// A display version is a `v` and, behind it, at least one character; what
/// stands behind the `v` is the trimmed output, which neither begins nor
/// ends with white space.
pub proof fn law_display_version_is_v_and_trimmed_output(stdout: Seq<u8>)
    requires
        dotnet_version_of(Ok(stdout)) is Some,
    ensures
        valid_utf8(stdout),
        dotnet_version_of(Ok(stdout))->0.len() >= 2,
        dotnet_version_of(Ok(stdout))->0[0] == 'v',
        dotnet_version_of(Ok(stdout))->0.skip(1) == trimmed(decode_utf8(stdout)),
        !is_white_space(dotnet_version_of(Ok(stdout))->0[1]),
        !is_white_space(dotnet_version_of(Ok(stdout))->0.last()),
{
    let text = decode_utf8(stdout);
    law_trimmed_is_the_core(text);
    let display = seq!['v'] + trimmed(text);
    assert(display.skip(1) == trimmed(text));
    assert(display[1] == trimmed(text)[0]);
    assert(display.last() == trimmed(text).last());
}

} // verus!
