//! The protocol version tag carried by every envelope.

use vstd::prelude::*;
use crate::error::DecodeError;
use crate::error::DecodeErrorView;
use crate::text::text_eq;

verus! {

/// The characters of the only protocol version this library speaks.
pub open spec fn version_literal() -> Seq<char> {
    seq!['2', '.', '0']
}

/// The failure that a version tag other than the accepted literal gives.
pub open spec fn unsupported_version(found: Seq<char>) -> DecodeErrorView {
    DecodeErrorView::UnsupportedVersion { found, expected: version_literal() }
}

/// Marker for the fixed protocol version. It holds no data: there is one
/// version, and a value of this type is evidence that a tag was checked.
#[derive(Debug, Clone, Copy, PartialEq, Eq, Structural)]
pub struct Version;

impl Version {
    /// The literal that stands for the version on the wire.
    pub fn serialize(&self) -> (text: &'static str)
        ensures
            text@ == version_literal(),
    {
        let text = "2.0";
        proof {
            reveal_strlit("2.0");
            assert(text@ =~= version_literal());
        }
        text
    }

    /// Accepts the one version literal and rejects every other text, naming
    /// what was found and what would have been accepted.
    pub fn deserialize(text: &str) -> (res: Result<Version, DecodeError>)
        ensures
            match res {
                Ok(_) => text@ == version_literal(),
                Err(e) => text@ != version_literal() && e@ == unsupported_version(text@),
            },
    {
        let accepted = Version.serialize();
        if text_eq(text, accepted) {
            Ok(Version)
        } else {
            Err(
                DecodeError::UnsupportedVersion {
                    found: text.to_owned(),
                    expected: accepted.to_owned(),
                },
            )
        }
    }
}

} // verus!
