//! Version identifiers, such as `6.0.100`.

use vstd::prelude::*;

verus! {

/// A version identifier: a text that is never empty.
#[derive(Debug, PartialEq, Eq)]
pub struct Version(String);

impl View for Version {
    type V = Seq<char>;

    closed spec fn view(&self) -> Seq<char> {
        self.0@
    }
}

impl Version {
    #[verifier::type_invariant]
    spec fn is_not_empty(&self) -> bool {
        self.0@.len() > 0
    }

    /// Makes a version of `text` as it stands; there is none of an empty
    /// text.
    pub fn new(text: String) -> (version: Option<Version>)
        ensures
            match version {
                Some(version) => text@.len() > 0 && version@ == text@,
                None => text@.len() == 0,
            },
    {
        if text.as_str().is_empty() {
            None
        } else {
            Some(Version(text))
        }
    }

    /// The text of the version.
    pub fn as_str(&self) -> (text: &str)
        ensures
            text@ == self@,
            text@.len() > 0,
    {
        proof {
            use_type_invariant(self);
        }
        self.0.as_str()
    }
}

impl std::ops::Deref for Version {
    type Target = String;

    /// The text of the version.
    fn deref(&self) -> (text: &String)
        ensures
            text@ == self@,
            text@.len() > 0,
    {
        proof {
            use_type_invariant(self);
        }
        &self.0
    }
}

} // verus!
