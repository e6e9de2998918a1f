//! The pinned-version reader: the SDK version that a configuration file
//! fixes under `sdk.version`.

use crate::json::{json_document, parse_json, Json, JsonValue};
use crate::version::Version;
use vstd::prelude::*;

verus! {

/// The configuration file could not be read.
#[derive(Clone, Copy, Debug, PartialEq, Eq, Structural)]
pub struct ReadError;

/// What was read of a configuration file as the contracts see it.
pub open spec fn contents_view(contents: Result<String, ReadError>) -> Result<
    Seq<char>,
    ReadError,
> {
    match contents {
        Ok(text) => Ok(text@),
        Err(e) => Err(e),
    }
}

/// The version that a document pins: the text of the string member
/// `version` of the object member `sdk` of the root object, where all of
/// these exist and the text is not empty.
pub open spec fn pinned_version_of(document: Json) -> Option<Seq<char>> {
    match document.member("sdk"@) {
        Some(sdk) => match sdk.member("version"@) {
            Some(version) => match version.text() {
                Some(text) => if text.len() > 0 {
                    Some(text)
                } else {
                    None
                },
                None => None,
            },
            None => None,
        },
        None => None,
    }
}

/// The version that the contents of a configuration file pin: none where
/// the file could not be read or its text is not a JSON document.
pub open spec fn pinned_sdk_version_of(contents: Result<Seq<char>, ReadError>) -> Option<
    Seq<char>,
> {
    match contents {
        Ok(text) => match json_document(text) {
            Some(document) => pinned_version_of(document),
            None => None,
        },
        Err(_) => None,
    }
}

/// Extracts the pinned version from a parsed configuration document.
pub fn pinned_version(document: &JsonValue) -> (pinned: Option<Version>)
    ensures
        match pinned {
            Some(version) => pinned_version_of(document@) == Some(version@),
            None => pinned_version_of(document@) is None,
        },
{
    match document.get("sdk") {
        Some(sdk) => match sdk.get("version") {
            Some(version) => match version.as_str() {
                Some(text) => Version::new(text.to_owned()),
                None => None,
            },
            None => None,
        },
        None => None,
    }
}

/// Reads the pinned SDK version out of what was read of a configuration
/// file.
pub fn get_pinned_sdk_version(contents: &Result<String, ReadError>) -> (pinned: Option<Version>)
    ensures
        match pinned {
            Some(version) => pinned_sdk_version_of(contents_view(*contents)) == Some(version@),
            None => pinned_sdk_version_of(contents_view(*contents)) is None,
        },
{
    match contents {
        Ok(json_text) => match parse_json(json_text.as_str()) {
            Some(document) => pinned_version(&document),
            None => None,
        },
        Err(_) => None,
    }
}

/// A pinned version is never empty.
pub proof fn law_pinned_version_is_not_empty(document: Json)
    ensures
        pinned_version_of(document) matches Some(version) ==> version.len() > 0,
{
}

/// A document whose first member `sdk` is an object whose first member
/// `version` is a string that is not empty pins that string, unchanged,
/// whatever else the document holds.
pub proof fn law_pin_is_read_unchanged(
    document: Json,
    sdk: Seq<(Seq<char>, Json)>,
    version: Seq<char>,
)
    requires
        document.member("sdk"@) == Some(Json::Object(sdk)),
        Json::Object(sdk).member("version"@) == Some(Json::String(version)),
        version.len() > 0,
    ensures
        pinned_version_of(document) == Some(version),
{
}

/// What is no object pins nothing, and neither does a document without a
/// member `sdk`, nor one whose `sdk` is no object or has no member
/// `version`, nor one whose `version` is no string.
pub proof fn law_deviation_pins_nothing(document: Json)
    requires
        ({
            ||| !(document is Object)
            ||| document.member("sdk"@) is None
            ||| !(document.member("sdk"@)->0 is Object)
            ||| document.member("sdk"@)->0.member("version"@) is None
            ||| !(document.member("sdk"@)->0.member("version"@)->0 is String)
        }),
    ensures
        pinned_version_of(document) is None,
{
}

} // verus!
