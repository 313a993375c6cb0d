use vstd::prelude::*;
use vstd::std_specs::cmp::PartialEqSpecImpl;

verus! {

/// `semver::VersionReq` travels through library records unchanged; no library
/// logic reads inside it.
#[verifier::external_type_specification]
#[verifier::external_body]
pub struct ExVersionReq(semver::VersionReq);

/// `VersionReq::clone` (derived by semver) is believed to return; nothing more is claimed of the copy.
pub assume_specification[ <semver::VersionReq as Clone>::clone ](
    requirement: &semver::VersionReq,
) -> semver::VersionReq;

/// Whether semver reads `text` as a version requirement, that is, whether
/// `semver::VersionReq::parse` succeeds on it.
pub uninterp spec fn semver_parses_requirement(text: Seq<char>) -> bool;

/// The requirement that `semver::VersionReq::parse` builds from `text`, where
/// it succeeds.
pub uninterp spec fn semver_requirement(text: Seq<char>) -> semver::VersionReq;

/// Calls `semver::VersionReq::parse`. The contract claims that it succeeds
/// exactly where [`semver_parses_requirement`] holds, and that what it builds
/// is the requirement named by [`semver_requirement`] for the same text.
#[verifier::external_body]
pub(crate) fn parse_version_requirement(text: &str) -> (r: Option<semver::VersionReq>)
    ensures
        r is Some == semver_parses_requirement(text@),
        r matches Some(requirement) ==> requirement == semver_requirement(text@),
{
    semver::VersionReq::parse(text).ok()
}

/// A semantic version, held as the parts that `semver::Version` keeps: the
/// three numbers and the text of its pre-release and build-metadata parts
/// (empty when absent). Two versions are equal when all five parts are.
/// [`Version::parse`] and [`Version::new`] give parts that semver accepts; the
/// fields are public, as semver's are, and the type itself does not hold
/// the pre-release and build texts to semver's grammar.
#[derive(Debug, Hash)]
pub struct Version {
    /// Major version number.
    pub major: u64,
    /// Minor version number.
    pub minor: u64,
    /// Patch version number.
    pub patch: u64,
    /// Pre-release identifiers, such as `alpha.1`; empty for a release.
    pub pre: String,
    /// Build metadata, such as `build.5`; usually empty.
    pub build: String,
}

impl View for Version {
    type V = (u64, u64, u64, Seq<char>, Seq<char>);

    open spec fn view(&self) -> (u64, u64, u64, Seq<char>, Seq<char>) {
        (self.major, self.minor, self.patch, self.pre@, self.build@)
    }
}

/// The parts that `semver::Version::parse` reads from `text`: major, minor and
/// patch numbers and the text of the pre-release and build parts; `None` where
/// semver rejects the text.
pub uninterp spec fn semver_version_parts(text: Seq<char>) -> Option<
    (u64, u64, u64, Seq<char>, Seq<char>),
>;

/// Calls `semver::Version::parse` and hands back its parts. The contract
/// claims only that the parts are the ones named by [`semver_version_parts`].
#[verifier::external_body]
fn parse_semver_version(text: &str) -> (r: Option<(u64, u64, u64, String, String)>)
    ensures
        match r {
            Some(parts) => semver_version_parts(text@) == Some(
                (parts.0, parts.1, parts.2, parts.3@, parts.4@),
            ),
            None => semver_version_parts(text@) is None,
        },
{
    match semver::Version::parse(text) {
        Ok(v) => Some((v.major, v.minor, v.patch, v.pre.as_str().to_owned(), v.build.as_str().to_owned())),
        Err(_) => None,
    }
}

impl Version {
    /// Reads a version written as semver text, such as `1.0.0-alpha.1+build.5`.
    pub fn parse(text: &str) -> (r: Option<Version>)
        ensures
            match r {
                Some(version) => semver_version_parts(text@) == Some(version@),
                None => semver_version_parts(text@) is None,
            },
    {
        match parse_semver_version(text) {
            Some((major, minor, patch, pre, build)) => Some(Version { major, minor, patch, pre, build }),
            None => None,
        }
    }

    /// A release version `major.minor.patch` with no pre-release or build parts.
    pub fn new(major: u64, minor: u64, patch: u64) -> (r: Version)
        ensures
            r@ == (major, minor, patch, Seq::<char>::empty(), Seq::<char>::empty()),
    {
        Version { major, minor, patch, pre: String::new(), build: String::new() }
    }
}

impl Clone for Version {
    fn clone(&self) -> (r: Self)
        ensures
            r@ == self@,
    {
        Version {
            major: self.major,
            minor: self.minor,
            patch: self.patch,
            pre: self.pre.clone(),
            build: self.build.clone(),
        }
    }
}

impl PartialEq for Version {
    fn eq(&self, other: &Self) -> (r: bool) {
        self.major == other.major && self.minor == other.minor && self.patch == other.patch
            && self.pre == other.pre && self.build == other.build
    }
}

impl PartialEqSpecImpl for Version {
    open spec fn obeys_eq_spec() -> bool {
        true
    }

    open spec fn eq_spec(&self, other: &Self) -> bool {
        self@ == other@
    }
}

impl Eq for Version {

}

} // verus!
