use xtask::platform::{build_profile, classify_distro, classify_os, DistroFamily, OsKind, PlatformProfile};
use xtask::text::{contains_ignore_case, str_eq};

#[test]
fn ubuntu_text_classifies_debian_ubuntu() {
    assert_eq!(classify_distro("ID=ubuntu"), DistroFamily::DebianUbuntu);
    assert_eq!(classify_distro("ID=debian"), DistroFamily::DebianUbuntu);
}

#[test]
fn classification_ignores_ascii_case() {
    assert_eq!(classify_distro("ID=UBUNTU"), DistroFamily::DebianUbuntu);
    assert_eq!(classify_distro("NAME=\"Debian GNU/Linux\""), DistroFamily::DebianUbuntu);
    assert_eq!(classify_distro("NAME=\"Fedora Linux\""), DistroFamily::FedoraRhel);
    assert_eq!(classify_distro("ID=Arch"), DistroFamily::ArchLike);
}

#[test]
fn fedora_family_text_classifies_fedora_rhel() {
    assert_eq!(classify_distro("ID=fedora"), DistroFamily::FedoraRhel);
    assert_eq!(classify_distro("ID_LIKE=rhel"), DistroFamily::FedoraRhel);
    assert_eq!(classify_distro("ID=centos"), DistroFamily::FedoraRhel);
}

#[test]
fn arch_family_text_classifies_arch_like() {
    assert_eq!(classify_distro("ID=arch"), DistroFamily::ArchLike);
    assert_eq!(classify_distro("ID=cachyos"), DistroFamily::ArchLike);
    assert_eq!(classify_distro("ID=manjaro"), DistroFamily::ArchLike);
}

#[test]
fn unknown_text_classifies_unknown() {
    assert_eq!(classify_distro("ID=gentoo"), DistroFamily::Unknown);
    assert_eq!(classify_distro("ID=opensuse-tumbleweed"), DistroFamily::Unknown);
}

#[test]
fn empty_text_classifies_unknown() {
    assert_eq!(classify_distro(""), DistroFamily::Unknown);
}

#[test]
fn earliest_checked_family_wins_a_tie() {
    assert_eq!(classify_distro("ID=ubuntu ID_LIKE=fedora"), DistroFamily::DebianUbuntu);
    assert_eq!(classify_distro("ID=fedora ID_LIKE=arch"), DistroFamily::FedoraRhel);
}

#[test]
fn os_names_classify_to_kinds() {
    assert_eq!(classify_os("linux"), OsKind::Linux);
    assert_eq!(classify_os("macos"), OsKind::MacOS);
    assert_eq!(classify_os("windows"), OsKind::Windows);
    assert_eq!(classify_os("freebsd"), OsKind::Other);
    assert_eq!(classify_os(""), OsKind::Other);
}

#[test]
fn profile_carries_a_family_only_on_linux() {
    assert_eq!(
        build_profile(OsKind::Linux, "ID=ubuntu\nID_LIKE=debian"),
        PlatformProfile::Linux { family: DistroFamily::DebianUbuntu }
    );
    assert_eq!(build_profile(OsKind::Windows, "ID=windows"), PlatformProfile::Windows);
    assert_eq!(build_profile(OsKind::MacOS, "ID=ubuntu"), PlatformProfile::MacOS);
    assert_eq!(build_profile(OsKind::Other, "ID=ubuntu"), PlatformProfile::Other);
}

#[test]
fn substring_search_ignores_case_and_position() {
    assert!(contains_ignore_case("xxUbUnTuxx", "ubuntu"));
    assert!(contains_ignore_case("ubuntu", "ubuntu"));
    assert!(!contains_ignore_case("ubunt", "ubuntu"));
    assert!(!contains_ignore_case("", "ubuntu"));
    assert!(contains_ignore_case("anything", ""));
}

#[test]
fn string_equality_is_exact() {
    assert!(str_eq("linux", "linux"));
    assert!(!str_eq("linux", "Linux"));
    assert!(!str_eq("linux", "linu"));
}
