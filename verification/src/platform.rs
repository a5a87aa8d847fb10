//! The platform-availability probe: is the web runtime that the shell needs
//! installed on this host?

use vstd::prelude::*;
use crate::host::path_exists;

verus! {

/// How availability of the web runtime is established on a platform.
#[derive(Clone, Copy, Debug, PartialEq, Eq, Structural)]
pub enum PlatformProbe {
    /// Windows: the runtime is installed separately; look for it on disk.
    Windows,
    /// Every other platform: the runtime is part of the system.
    Vacuous,
}

/// What a probe found.
#[derive(Clone, Copy, Debug, PartialEq, Eq, Structural)]
pub enum ProbeFinding {
    /// Nothing was inspected; the runtime is taken to be present.
    NotRequired,
    /// The installation path with this index exists.
    FoundAt(usize),
    /// None of the inspected paths exists.
    Missing,
}

/// First installation path that is inspected.
pub const WEBVIEW2_PATH_X86: &'static str = "C:\\Program Files (x86)\\Microsoft\\EdgeWebView\\Application";

/// Second installation path that is inspected.
pub const WEBVIEW2_PATH_NATIVE: &'static str = "C:\\Program Files\\Microsoft\\EdgeWebView\\Application";

/// Number of installation paths that the Windows probe inspects.
pub const WEBVIEW2_PATH_COUNT: usize = 2;

/// Whether some inspected path exists.
pub open spec fn any_exists(found: Seq<bool>) -> bool {
    exists|i: int| 0 <= i < found.len() && found[i]
}

/// Whether `i` is the first path that exists.
pub open spec fn is_first_existing(found: Seq<bool>, i: int) -> bool {
    &&& 0 <= i < found.len()
    &&& found[i]
    &&& forall|j: int| 0 <= j < i ==> !found[j]
}

/// The finding of `probe` when `found[i]` tells whether path `i` exists.
pub open spec fn finding_matches(probe: PlatformProbe, found: Seq<bool>, finding: ProbeFinding) -> bool {
    match finding {
        ProbeFinding::NotRequired => probe == PlatformProbe::Vacuous,
        ProbeFinding::FoundAt(i) => probe == PlatformProbe::Windows && is_first_existing(found, i as int),
        ProbeFinding::Missing => probe == PlatformProbe::Windows && !any_exists(found),
    }
}

/// Whether the runtime is available: always on a vacuous probe, and on
/// Windows exactly when some inspected path exists.
pub open spec fn runtime_available(probe: PlatformProbe, found: Seq<bool>) -> bool {
    probe == PlatformProbe::Vacuous || any_exists(found)
}

impl ProbeFinding {
    /// Whether the finding means that the runtime is available.
    pub open spec fn spec_available(self) -> bool {
        !(self is Missing)
    }

    /// Whether the finding means that the runtime is available.
    #[verifier::when_used_as_spec(spec_available)]
    pub fn available(self) -> (b: bool)
        ensures
            b == self.spec_available(),
    {
        match self {
            ProbeFinding::Missing => false,
            _ => true,
        }
    }
}

/// The installation path with index `i`.
pub fn webview2_path(i: usize) -> (path: &'static str)
    requires
        i < WEBVIEW2_PATH_COUNT,
    ensures
        path@ == (if i == 0 { WEBVIEW2_PATH_X86@ } else { WEBVIEW2_PATH_NATIVE@ }),
{
    if i == 0 {
        WEBVIEW2_PATH_X86
    } else {
        WEBVIEW2_PATH_NATIVE
    }
}

/// Decides the probe from what is on disk: `found[i]` tells whether the
/// installation path `i` exists. A vacuous probe looks at nothing; the
/// Windows probe reports the first path that exists, or that none does.
pub fn probe_finding(probe: PlatformProbe, found: &Vec<bool>) -> (finding: ProbeFinding)
    ensures
        finding_matches(probe, found@, finding),
        finding.available() == runtime_available(probe, found@),
{
    match probe {
        PlatformProbe::Vacuous => ProbeFinding::NotRequired,
        PlatformProbe::Windows => {
            let mut i: usize = 0;
            while i < found.len()
                invariant
                    probe == PlatformProbe::Windows,
                    i <= found.len(),
                    forall|j: int| 0 <= j < i ==> !found@[j],
                decreases found.len() - i,
            {
                if found[i] {
                    return ProbeFinding::FoundAt(i);
                }
                i = i + 1;
            }
            ProbeFinding::Missing
        },
    }
}

/// Runs the probe on this host and tells whether the runtime is available.
/// A vacuous probe inspects nothing and answers `true`. The Windows probe
/// asks the file system for each installation path in order, stops at the
/// first that exists, and answers as `probe_finding` decides.
pub fn check_webview2(probe: PlatformProbe) -> (available: bool)
    ensures
        probe == PlatformProbe::Vacuous ==> available,
{
    let mut found: Vec<bool> = Vec::new();
    if probe == PlatformProbe::Windows {
        let mut hit = false;
        while !hit && found.len() < WEBVIEW2_PATH_COUNT
            invariant
                found@.len() <= WEBVIEW2_PATH_COUNT,
            decreases WEBVIEW2_PATH_COUNT - found@.len() + (if hit { 0int } else { 1int }),
        {
            hit = path_exists(webview2_path(found.len()));
            found.push(hit);
        }
    }
    probe_finding(probe, &found).available()
}

} // verus!
