//! Semantic versions. The grammar of a version is that of the `semver` crate; this
//! module holds the parts of a parsed version and writes them down again.

use vstd::prelude::*;
use vstd::string::*;

use crate::text::{decimal, u64_text};

verus! {

/// The parts of a version: major, minor and patch number, pre-release and build metadata.
pub type VersionParts = (u64, u64, u64, Seq<char>, Seq<char>);

/// What `semver::Version::parse` reads a text as, if it is a version.
pub uninterp spec fn semver_parts(text: Seq<char>) -> Option<(u64, u64, u64, Seq<char>, Seq<char>)>;

/// How a version is written: `major.minor.patch`, then `-` and the pre-release and `+` and
/// the build metadata where they are not empty.
pub open spec fn version_text(v: VersionParts) -> Seq<char> {
    decimal(v.0 as nat) + "."@ + decimal(v.1 as nat) + "."@ + decimal(v.2 as nat) + (
    if v.3.len() > 0 {
        "-"@ + v.3
    } else {
        Seq::empty()
    }) + (if v.4.len() > 0 {
        "+"@ + v.4
    } else {
        Seq::empty()
    })
}

/// Calls `semver::Version::parse`. The parts of the version that it reads are named by
/// `semver_parts`. The grammar is strict (no blanks, no leading zeros, no empty
/// identifiers), so a version that was read is written exactly as the text it was read
/// from.
#[verifier::external_body]
fn semver_parse(text: &str) -> (r: Option<(u64, u64, u64, String, String)>)
    ensures
        match r {
            Some(p) => {
                &&& semver_parts(text@) == Some((p.0, p.1, p.2, p.3@, p.4@))
                &&& version_text((p.0, p.1, p.2, p.3@, p.4@)) == text@
            },
            None => semver_parts(text@) is None,
        },
{
    semver::Version::parse(text).ok().map(
        |v| (v.major, v.minor, v.patch, v.pre.as_str().to_string(), v.build.as_str().to_string()),
    )
}

/// A semantic version. A value can only be had by reading a text, so writing it down and
/// reading it again gives it back.
#[derive(Debug)]
pub struct Version {
    major: u64,
    minor: u64,
    patch: u64,
    pre: String,
    build: String,
}

impl View for Version {
    type V = VersionParts;

    closed spec fn view(&self) -> VersionParts {
        (self.major, self.minor, self.patch, self.pre@, self.build@)
    }
}

/// Whether the parts are those of a version that can be read: the text of the version is
/// read as these parts.
pub open spec fn is_version(v: VersionParts) -> bool {
    semver_parts(version_text(v)) == Some(v)
}

impl Version {
    #[verifier::type_invariant]
    spec fn reads_back(self) -> bool {
        is_version((self.major, self.minor, self.patch, self.pre@, self.build@))
    }

    /// Reads a version; there is none where the text is not a semantic version.
    pub fn from_str(text: &str) -> (r: Option<Version>)
        ensures
            match r {
                Some(v) => semver_parts(text@) == Some(v@) && version_text(v@) == text@,
                None => semver_parts(text@) is None,
            },
    {
        match semver_parse(text) {
            Some((major, minor, patch, pre, build)) => Some(
                Version { major, minor, patch, pre, build },
            ),
            None => None,
        }
    }

    /// The text of the version.
    pub fn to_text(&self) -> (r: String)
        ensures
            r@ == version_text(self@),
            is_version(self@),
    {
        proof {
            use_type_invariant(self);
        }
        let mut r = u64_text(self.major).concat(".").concat(u64_text(self.minor).as_str()).concat(
            ".",
        ).concat(u64_text(self.patch).as_str());
        if !self.pre.as_str().is_empty() {
            r = r.concat("-").concat(self.pre.as_str());
            assert(r@ =~= decimal(self.major as nat) + "."@ + decimal(self.minor as nat) + "."@
                + decimal(self.patch as nat) + ("-"@ + self.pre@));
        }
        if !self.build.as_str().is_empty() {
            r = r.concat("+").concat(self.build.as_str());
        }
        assert(r@ =~= version_text(self@));
        r
    }

    /// Whether two versions are the same, build metadata and all.
    pub fn same(&self, other: &Version) -> (r: bool)
        ensures
            r == (self@ == other@),
    {
        self.major == other.major && self.minor == other.minor && self.patch == other.patch
            && self.pre == other.pre && self.build == other.build
    }

    /// A copy of the version.
    pub fn copy(&self) -> (r: Version)
        ensures
            r@ == self@,
    {
        proof {
            use_type_invariant(self);
        }
        Version {
            major: self.major,
            minor: self.minor,
            patch: self.patch,
            pre: self.pre.clone(),
            build: self.build.clone(),
        }
    }
}

/// Two versions are written alike only if they are the same version.
pub proof fn version_text_is_injective(a: VersionParts, b: VersionParts)
    requires
        is_version(a),
        is_version(b),
    ensures
        version_text(a) == version_text(b) ==> a == b,
{
}

} // verus!
