//! Operating-system and Linux-distribution classification.
//!
//! The platform profile is derived once per run: the operating-system name
//! selects the kind, and on Linux the contents of the system-identification
//! file select the distribution family by case-insensitive keyword search.
//! The keyword sets are checked in a fixed order, so a text matching several
//! families resolves to the earliest-checked one.

use vstd::prelude::*;

use crate::text::{contains_fold, contains_ignore_case, str_eq};

verus! {

/// The kind of operating system the wrapper runs on.
#[derive(Clone, Copy, PartialEq, Eq, Debug, Structural)]
pub enum OsKind {
    Linux,
    MacOS,
    Windows,
    Other,
}

/// The family of a Linux distribution, as far as the wrapper tells them apart.
#[derive(Clone, Copy, PartialEq, Eq, Debug, Structural)]
pub enum DistroFamily {
    DebianUbuntu,
    FedoraRhel,
    ArchLike,
    Unknown,
}

/// The resolved platform: a distribution family exists only on Linux.
#[derive(Clone, Copy, PartialEq, Eq, Debug, Structural)]
pub enum PlatformProfile {
    Linux { family: DistroFamily },
    MacOS,
    Windows,
    Other,
}

/// The identification text names Debian or Ubuntu.
pub open spec fn matches_debian_ubuntu(s: Seq<char>) -> bool {
    contains_fold(s, "ubuntu"@) || contains_fold(s, "debian"@)
}

/// The identification text names Fedora, RHEL or CentOS.
pub open spec fn matches_fedora_rhel(s: Seq<char>) -> bool {
    contains_fold(s, "fedora"@) || contains_fold(s, "rhel"@) || contains_fold(s, "centos"@)
}

/// The identification text names Arch or one of its derivatives.
pub open spec fn matches_arch_like(s: Seq<char>) -> bool {
    contains_fold(s, "arch"@) || contains_fold(s, "cachyos"@) || contains_fold(s, "manjaro"@)
}

/// The family an identification text classifies to: the keyword sets are
/// tried in a fixed order and the first match wins.
pub open spec fn classify_release_text(s: Seq<char>) -> DistroFamily {
    if matches_debian_ubuntu(s) {
        DistroFamily::DebianUbuntu
    } else if matches_fedora_rhel(s) {
        DistroFamily::FedoraRhel
    } else if matches_arch_like(s) {
        DistroFamily::ArchLike
    } else {
        DistroFamily::Unknown
    }
}

/// Classify a system-identification text into a distribution family.
pub fn classify_distro(release_text: &str) -> (family: DistroFamily)
    ensures
        family == classify_release_text(release_text@),
{
    if contains_ignore_case(release_text, "ubuntu") || contains_ignore_case(
        release_text,
        "debian",
    ) {
        DistroFamily::DebianUbuntu
    } else if contains_ignore_case(release_text, "fedora") || contains_ignore_case(
        release_text,
        "rhel",
    ) || contains_ignore_case(release_text, "centos") {
        DistroFamily::FedoraRhel
    } else if contains_ignore_case(release_text, "arch") || contains_ignore_case(
        release_text,
        "cachyos",
    ) || contains_ignore_case(release_text, "manjaro") {
        DistroFamily::ArchLike
    } else {
        DistroFamily::Unknown
    }
}

/// The kind an operating-system name classifies to.
pub open spec fn classify_os_name(s: Seq<char>) -> OsKind {
    if s == "linux"@ {
        OsKind::Linux
    } else if s == "macos"@ {
        OsKind::MacOS
    } else if s == "windows"@ {
        OsKind::Windows
    } else {
        OsKind::Other
    }
}

/// Classify an operating-system name into a kind.
pub fn classify_os(os_name: &str) -> (kind: OsKind)
    ensures
        kind == classify_os_name(os_name@),
{
    if str_eq(os_name, "linux") {
        OsKind::Linux
    } else if str_eq(os_name, "macos") {
        OsKind::MacOS
    } else if str_eq(os_name, "windows") {
        OsKind::Windows
    } else {
        OsKind::Other
    }
}

/// Build the platform profile.  Distribution detection applies only on Linux:
/// every other kind maps to a profile that carries no family at all.
pub fn build_profile(kind: OsKind, release_text: &str) -> (p: PlatformProfile)
    ensures
        kind == OsKind::Linux ==> p == (PlatformProfile::Linux {
            family: classify_release_text(release_text@),
        }),
        kind == OsKind::MacOS ==> p == PlatformProfile::MacOS,
        kind == OsKind::Windows ==> p == PlatformProfile::Windows,
        kind == OsKind::Other ==> p == PlatformProfile::Other,
{
    match kind {
        OsKind::Linux => PlatformProfile::Linux { family: classify_distro(release_text) },
        OsKind::MacOS => PlatformProfile::MacOS,
        OsKind::Windows => PlatformProfile::Windows,
        OsKind::Other => PlatformProfile::Other,
    }
}

/// A text naming Debian or Ubuntu always classifies to that family.
pub proof fn lemma_debian_keywords_win(s: Seq<char>)
    requires
        matches_debian_ubuntu(s),
    ensures
        classify_release_text(s) == DistroFamily::DebianUbuntu,
{
}

/// A text naming Fedora, RHEL or CentOS, and no earlier-checked family,
/// classifies to the Fedora family.
pub proof fn lemma_fedora_keywords_win(s: Seq<char>)
    requires
        matches_fedora_rhel(s),
        !matches_debian_ubuntu(s),
    ensures
        classify_release_text(s) == DistroFamily::FedoraRhel,
{
}

/// A text naming the Arch family, and no earlier-checked family, classifies
/// to the Arch family.
pub proof fn lemma_arch_keywords_win(s: Seq<char>)
    requires
        matches_arch_like(s),
        !matches_debian_ubuntu(s),
        !matches_fedora_rhel(s),
    ensures
        classify_release_text(s) == DistroFamily::ArchLike,
{
}

/// A text naming no known keyword set classifies as Unknown.
pub proof fn lemma_no_keywords_unknown(s: Seq<char>)
    requires
        !matches_debian_ubuntu(s),
        !matches_fedora_rhel(s),
        !matches_arch_like(s),
    ensures
        classify_release_text(s) == DistroFamily::Unknown,
{
}

/// An unreadable identification source is read as the empty text, which
/// classifies as Unknown: detection is best-effort, never an error.
pub proof fn lemma_empty_text_unknown()
    ensures
        classify_release_text(Seq::<char>::empty()) == DistroFamily::Unknown,
{
    reveal_strlit("ubuntu");
    reveal_strlit("debian");
    reveal_strlit("fedora");
    reveal_strlit("rhel");
    reveal_strlit("centos");
    reveal_strlit("arch");
    reveal_strlit("cachyos");
    reveal_strlit("manjaro");
}

} // verus!
