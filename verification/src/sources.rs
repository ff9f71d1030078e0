//! Release metadata: versions, files and releases as reported by a release
//! source, and the named source backends the installer knows about.
//!
//! Fetching release listings talks to remote services, so the backends here
//! only carry their identity; the host hands the fetched listings to the
//! engine as plain [`Release`] values.

use vstd::prelude::*;

verus! {

/// A semantic version, reduced to its numeric triple.
#[derive(PartialEq, Eq, Structural, Clone, Copy, Debug)]
pub struct SemVer {
    pub major: u64,
    pub minor: u64,
    pub patch: u64,
}

/// The version of an application: either semantic or a plain counter.
#[derive(PartialEq, Eq, Structural, Clone, Copy, Debug)]
pub enum Version {
    Semver(SemVer),
    Integer(u64),
}

/// The numeric triple a version coarsens to: an integer version counts as a
/// major version with zero minor and patch fields.
pub open spec fn spec_coarse(v: Version) -> (int, int, int) {
    match v {
        Version::Semver(s) => (s.major as int, s.minor as int, s.patch as int),
        Version::Integer(n) => (n as int, 0, 0),
    }
}

/// The strict ordering of versions, by lexicographic comparison of their
/// coarse triples.
pub open spec fn spec_version_lt(a: Version, b: Version) -> bool {
    let (a0, a1, a2) = spec_coarse(a);
    let (b0, b1, b2) = spec_coarse(b);
    a0 < b0 || (a0 == b0 && (a1 < b1 || (a1 == b1 && a2 < b2)))
}

impl Version {
    /// Returns a new version backed by a semantic version triple.
    pub fn new_semver(version: SemVer) -> (r: Version)
        ensures
            r == Version::Semver(version),
    {
        Version::Semver(version)
    }

    /// Returns a new version backed by an integer.
    pub fn new_number(version: u64) -> (r: Version)
        ensures
            r == Version::Integer(version),
    {
        Version::Integer(version)
    }

    /// Whether this version is strictly older than `other`.
    pub fn lt(&self, other: &Version) -> (r: bool)
        ensures
            r == spec_version_lt(*self, *other),
    {
        let (a0, a1, a2) = self.coarse();
        let (b0, b1, b2) = other.coarse();
        a0 < b0 || (a0 == b0 && (a1 < b1 || (a1 == b1 && a2 < b2)))
    }

    /// The coarse numeric triple of this version.
    pub fn coarse(&self) -> (r: (u64, u64, u64))
        ensures
            (r.0 as int, r.1 as int, r.2 as int) == spec_coarse(*self),
    {
        match self {
            Version::Semver(s) => (s.major, s.minor, s.patch),
            Version::Integer(n) => (*n, 0, 0),
        }
    }
}

/// The mathematical content of a release file descriptor.
#[verifier::ext_equal]
pub struct FileView {
    pub name: Seq<char>,
    pub url: Seq<char>,
    pub requires_authorization: bool,
}

/// An individual file in a release.
#[derive(Debug)]
pub struct File {
    pub name: String,
    pub url: String,
    pub requires_authorization: bool,
}

impl View for File {
    type V = FileView;

    open spec fn view(&self) -> FileView {
        FileView {
            name: self.name@,
            url: self.url@,
            requires_authorization: self.requires_authorization,
        }
    }
}

impl File {
    /// A copy of this file descriptor with the same content.
    pub fn duplicate(&self) -> (r: File)
        ensures
            r@ == self@,
    {
        File {
            name: self.name.clone(),
            url: self.url.clone(),
            requires_authorization: self.requires_authorization,
        }
    }
}

/// The mathematical content of a release.
#[verifier::ext_equal]
pub struct ReleaseView {
    pub version: Version,
    pub files: Seq<FileView>,
}

/// An individual release of an application.
#[derive(Debug)]
pub struct Release {
    pub version: Version,
    pub files: Vec<File>,
}

impl View for Release {
    type V = ReleaseView;

    open spec fn view(&self) -> ReleaseView {
        ReleaseView {
            version: self.version,
            files: Seq::new(self.files@.len(), |i: int| self.files@[i]@),
        }
    }
}

impl Release {
    /// A copy of this release with the same content.
    pub fn duplicate(&self) -> (r: Release)
        ensures
            r@ == self@,
    {
        let mut files: Vec<File> = Vec::new();
        let mut i: usize = 0;
        while i < self.files.len()
            invariant
                i <= self.files@.len(),
                files@.len() == i,
                forall|j: int| 0 <= j < i ==> files@[j]@ == self.files@[j]@,
            decreases self.files@.len() - i,
        {
            files.push(self.files[i].duplicate());
            i = i + 1;
        }
        let r = Release { version: self.version, files };
        proof {
            assert(r@ =~~= self@);
        }
        r
    }
}

/// The GitHub releases backend.
#[derive(Debug)]
pub struct GithubReleases {}

impl GithubReleases {
    /// Returns the GitHub backend.
    pub fn new() -> (r: Self)
        ensures
            r == (GithubReleases {  }),
    {
        GithubReleases {  }
    }
}

/// The Patreon-gated releases backend.
#[derive(Debug)]
pub struct PatreonReleases {}

impl PatreonReleases {
    /// Returns the Patreon-gated backend.
    pub fn new() -> (r: Self)
        ensures
            r == (PatreonReleases {  }),
    {
        PatreonReleases {  }
    }
}

} // verus!
