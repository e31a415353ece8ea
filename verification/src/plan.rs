//! Package-manager invocation plans and their selection.
//!
//! One plan exists per Linux distribution family, plus one for macOS.  A plan
//! fixes the refresh step (if any), the install invocation, the ordered
//! package list, and whether a non-zero exit of a step aborts the run.  An
//! unknown Linux distribution and Windows have no executable plan: the
//! resolver answers with manual instructions and the run still succeeds.
//! Every other kind of platform is unsupported and fails.

use vstd::prelude::*;

use crate::command::{cmd_is, CommandSpec};
use crate::platform::{
    classify_release_text, matches_arch_like, matches_debian_ubuntu, matches_fedora_rhel,
    DistroFamily, PlatformProfile,
};

verus! {

/// The package-manager commands to run for one platform profile.
pub struct PackagePlan {
    /// The package-index refresh step, where the manager has one.
    pub refresh: Option<CommandSpec>,
    /// The program of the install invocation.
    pub install_program: String,
    /// The fixed arguments of the install invocation, before the packages.
    pub install_prefix: Vec<String>,
    /// The packages to install, in a fixed order.
    pub package_names: Vec<String>,
    /// Whether a non-zero exit of a step warns instead of aborting the run.
    pub continue_on_nonzero_exit: bool,
}

/// Push one literal onto a list of owned strings.
fn push_str(v: &mut Vec<String>, s: &str)
    ensures
        final(v).deep_view() == old(v).deep_view().push(s@),
{
    v.push(String::from_str(s));
    proof {
        assert(v.deep_view() =~= old(v).deep_view().push(s@));
    }
}

/// Append clones of all strings of `src` onto `dst`.
fn append_all(dst: &mut Vec<String>, src: &Vec<String>)
    ensures
        final(dst).deep_view() == old(dst).deep_view() + src.deep_view(),
{
    let n: usize = src.len();
    let mut i: usize = 0;
    while i < n
        invariant
            n == src.len(),
            i <= n,
            dst.deep_view() == old(dst).deep_view() + src.deep_view().take(i as int),
        decreases n - i,
    {
        let ghost prev = dst.deep_view();
        let elem = src[i].clone();
        dst.push(elem);
        proof {
            assert(dst.deep_view() =~= prev.push(src.deep_view()[i as int]));
            assert(prev.push(src.deep_view()[i as int]) =~= old(dst).deep_view()
                + src.deep_view().take(i as int + 1));
        }
        i = i + 1;
    }
    proof {
        assert(src.deep_view().take(n as int) =~= src.deep_view());
    }
}

impl PackagePlan {
    /// The single install invocation: the fixed prefix, then the full package
    /// list, in order.
    pub fn install_command(&self) -> (c: CommandSpec)
        ensures
            cmd_is(
                c,
                self.install_program@,
                self.install_prefix.deep_view() + self.package_names.deep_view(),
            ),
    {
        let mut args: Vec<String> = Vec::new();
        proof {
            assert(args.deep_view() =~= Seq::<Seq<char>>::empty());
        }
        append_all(&mut args, &self.install_prefix);
        proof {
            assert(Seq::<Seq<char>>::empty() + self.install_prefix.deep_view()
                =~= self.install_prefix.deep_view());
        }
        append_all(&mut args, &self.package_names);
        let c = CommandSpec { program: self.install_program.clone(), args, env: Vec::new() };
        proof {
            assert(c.env.deep_view() =~= Seq::<(Seq<char>, Seq<char>)>::empty());
        }
        c
    }
}

/// The Debian/Ubuntu package list, in the order it is handed to the manager.
pub open spec fn debian_ubuntu_packages() -> Seq<Seq<char>> {
    seq![
        "libwebkit2gtk-4.1-dev"@,
        "libjavascriptcoregtk-4.1-dev"@,
        "libglib2.0-dev"@,
        "build-essential"@,
        "curl"@,
        "wget"@,
        "libssl-dev"@,
        "pkg-config"@,
    ]
}

/// The Fedora/RHEL/CentOS package list.
pub open spec fn fedora_rhel_packages() -> Seq<Seq<char>> {
    seq![
        "webkit2gtk3-devel"@,
        "libjavascriptcoregtk4.1-devel"@,
        "glib2-devel"@,
        "gcc"@,
        "gcc-c++"@,
        "make"@,
        "curl"@,
        "wget"@,
        "openssl-devel"@,
        "pkg-config"@,
    ]
}

/// The Arch-family package list.
pub open spec fn arch_like_packages() -> Seq<Seq<char>> {
    seq![
        "webkit2gtk-4.1"@,
        "glib2"@,
        "base-devel"@,
        "curl"@,
        "wget"@,
        "openssl"@,
        "pkg-config"@,
    ]
}

/// The macOS package list.
pub open spec fn macos_packages() -> Seq<Seq<char>> {
    seq!["webkit2gtk"@, "libsoup"@, "cairo"@, "pango"@, "glib"@]
}

/// The plan for Debian/Ubuntu: refresh the index, then install with apt-get;
/// a failing step aborts.
pub open spec fn plan_is_debian_ubuntu(p: PackagePlan) -> bool {
    &&& p.refresh matches Some(rc) && cmd_is(rc, "sudo"@, seq!["apt-get"@, "update"@])
    &&& p.install_program@ == "sudo"@
    &&& p.install_prefix.deep_view() == seq!["apt-get"@, "install"@, "-y"@]
    &&& p.package_names.deep_view() == debian_ubuntu_packages()
    &&& !p.continue_on_nonzero_exit
}

/// The plan for Fedora/RHEL/CentOS: a single dnf install; a failing step
/// aborts.
pub open spec fn plan_is_fedora_rhel(p: PackagePlan) -> bool {
    &&& p.refresh is None
    &&& p.install_program@ == "sudo"@
    &&& p.install_prefix.deep_view() == seq!["dnf"@, "install"@, "-y"@]
    &&& p.package_names.deep_view() == fedora_rhel_packages()
    &&& !p.continue_on_nonzero_exit
}

/// The plan for the Arch family: a single pacman install; a failing step only
/// warns, since packages may already be installed or missing from the
/// repositories.
pub open spec fn plan_is_arch_like(p: PackagePlan) -> bool {
    &&& p.refresh is None
    &&& p.install_program@ == "sudo"@
    &&& p.install_prefix.deep_view() == seq!["pacman"@, "-S"@, "--noconfirm"@]
    &&& p.package_names.deep_view() == arch_like_packages()
    &&& p.continue_on_nonzero_exit
}

/// The plan for macOS: a single unprivileged brew install; a failing step
/// aborts.
pub open spec fn plan_is_macos(p: PackagePlan) -> bool {
    &&& p.refresh is None
    &&& p.install_program@ == "brew"@
    &&& p.install_prefix.deep_view() == seq!["install"@]
    &&& p.package_names.deep_view() == macos_packages()
    &&& !p.continue_on_nonzero_exit
}

/// Build the Debian/Ubuntu plan.
pub fn debian_ubuntu_plan() -> (p: PackagePlan)
    ensures
        plan_is_debian_ubuntu(p),
{
    let refresh = CommandSpec::new("sudo").arg("apt-get").arg("update");
    proof {
        assert(refresh.args.deep_view() =~= seq!["apt-get"@, "update"@]);
    }
    let mut prefix: Vec<String> = Vec::new();
    push_str(&mut prefix, "apt-get");
    push_str(&mut prefix, "install");
    push_str(&mut prefix, "-y");
    let mut packages: Vec<String> = Vec::new();
    push_str(&mut packages, "libwebkit2gtk-4.1-dev");
    push_str(&mut packages, "libjavascriptcoregtk-4.1-dev");
    push_str(&mut packages, "libglib2.0-dev");
    push_str(&mut packages, "build-essential");
    push_str(&mut packages, "curl");
    push_str(&mut packages, "wget");
    push_str(&mut packages, "libssl-dev");
    push_str(&mut packages, "pkg-config");
    proof {
        assert(prefix.deep_view() =~= seq!["apt-get"@, "install"@, "-y"@]);
        assert(packages.deep_view() =~= debian_ubuntu_packages());
    }
    PackagePlan {
        refresh: Some(refresh),
        install_program: String::from_str("sudo"),
        install_prefix: prefix,
        package_names: packages,
        continue_on_nonzero_exit: false,
    }
}

/// Build the Fedora/RHEL/CentOS plan.
pub fn fedora_rhel_plan() -> (p: PackagePlan)
    ensures
        plan_is_fedora_rhel(p),
{
    let mut prefix: Vec<String> = Vec::new();
    push_str(&mut prefix, "dnf");
    push_str(&mut prefix, "install");
    push_str(&mut prefix, "-y");
    let mut packages: Vec<String> = Vec::new();
    push_str(&mut packages, "webkit2gtk3-devel");
    push_str(&mut packages, "libjavascriptcoregtk4.1-devel");
    push_str(&mut packages, "glib2-devel");
    push_str(&mut packages, "gcc");
    push_str(&mut packages, "gcc-c++");
    push_str(&mut packages, "make");
    push_str(&mut packages, "curl");
    push_str(&mut packages, "wget");
    push_str(&mut packages, "openssl-devel");
    push_str(&mut packages, "pkg-config");
    proof {
        assert(prefix.deep_view() =~= seq!["dnf"@, "install"@, "-y"@]);
        assert(packages.deep_view() =~= fedora_rhel_packages());
    }
    PackagePlan {
        refresh: None,
        install_program: String::from_str("sudo"),
        install_prefix: prefix,
        package_names: packages,
        continue_on_nonzero_exit: false,
    }
}

/// Build the Arch-family plan.
pub fn arch_like_plan() -> (p: PackagePlan)
    ensures
        plan_is_arch_like(p),
{
    let mut prefix: Vec<String> = Vec::new();
    push_str(&mut prefix, "pacman");
    push_str(&mut prefix, "-S");
    push_str(&mut prefix, "--noconfirm");
    let mut packages: Vec<String> = Vec::new();
    push_str(&mut packages, "webkit2gtk-4.1");
    push_str(&mut packages, "glib2");
    push_str(&mut packages, "base-devel");
    push_str(&mut packages, "curl");
    push_str(&mut packages, "wget");
    push_str(&mut packages, "openssl");
    push_str(&mut packages, "pkg-config");
    proof {
        assert(prefix.deep_view() =~= seq!["pacman"@, "-S"@, "--noconfirm"@]);
        assert(packages.deep_view() =~= arch_like_packages());
    }
    PackagePlan {
        refresh: None,
        install_program: String::from_str("sudo"),
        install_prefix: prefix,
        package_names: packages,
        continue_on_nonzero_exit: true,
    }
}

/// Build the macOS plan.
pub fn macos_plan() -> (p: PackagePlan)
    ensures
        plan_is_macos(p),
{
    let mut prefix: Vec<String> = Vec::new();
    push_str(&mut prefix, "install");
    let mut packages: Vec<String> = Vec::new();
    push_str(&mut packages, "webkit2gtk");
    push_str(&mut packages, "libsoup");
    push_str(&mut packages, "cairo");
    push_str(&mut packages, "pango");
    push_str(&mut packages, "glib");
    proof {
        assert(prefix.deep_view() =~= seq!["install"@]);
        assert(packages.deep_view() =~= macos_packages());
    }
    PackagePlan {
        refresh: None,
        install_program: String::from_str("brew"),
        install_prefix: prefix,
        package_names: packages,
        continue_on_nonzero_exit: false,
    }
}

/// The manual instructions printed for an unknown Linux distribution.
pub open spec fn linux_manual_instructions_text() -> Seq<Seq<char>> {
    seq![
        "Unknown Linux distribution. Please install the following packages:"@,
        "libwebkit2gtk-4.1-dev (or webkit2gtk3-devel)"@,
        "libjavascriptcoregtk-4.1-dev (or libjavascriptcoregtk4.1-devel)"@,
        "libglib2.0-dev (or glib2-devel)"@,
        "build-essential (or base-devel)"@,
    ]
}

/// The manual instructions printed on Windows.
pub open spec fn windows_manual_instructions_text() -> Seq<Seq<char>> {
    seq![
        "Automatic setup not available for Windows"@,
        "Please follow the official Tauri setup guide:"@,
        "https://tauri.app/v1/guides/getting-started/prerequisites"@,
        "Required tools:"@,
        "Microsoft Visual Studio C++ build tools"@,
        "WebView2 Runtime"@,
        "Rust toolchain"@,
    ]
}

/// Build the manual instruction lines for an unknown Linux distribution.
pub fn linux_manual_instructions() -> (v: Vec<String>)
    ensures
        v.deep_view() == linux_manual_instructions_text(),
{
    let mut v: Vec<String> = Vec::new();
    push_str(&mut v, "Unknown Linux distribution. Please install the following packages:");
    push_str(&mut v, "libwebkit2gtk-4.1-dev (or webkit2gtk3-devel)");
    push_str(&mut v, "libjavascriptcoregtk-4.1-dev (or libjavascriptcoregtk4.1-devel)");
    push_str(&mut v, "libglib2.0-dev (or glib2-devel)");
    push_str(&mut v, "build-essential (or base-devel)");
    proof {
        assert(v.deep_view() =~= linux_manual_instructions_text());
    }
    v
}

/// Build the manual instruction lines for Windows.
pub fn windows_manual_instructions() -> (v: Vec<String>)
    ensures
        v.deep_view() == windows_manual_instructions_text(),
{
    let mut v: Vec<String> = Vec::new();
    push_str(&mut v, "Automatic setup not available for Windows");
    push_str(&mut v, "Please follow the official Tauri setup guide:");
    push_str(&mut v, "https://tauri.app/v1/guides/getting-started/prerequisites");
    push_str(&mut v, "Required tools:");
    push_str(&mut v, "Microsoft Visual Studio C++ build tools");
    push_str(&mut v, "WebView2 Runtime");
    push_str(&mut v, "Rust toolchain");
    proof {
        assert(v.deep_view() =~= windows_manual_instructions_text());
    }
    v
}

/// What the resolver decided for a platform profile.
pub enum Resolution {
    /// Run the plan; afterwards set up the auxiliary packaging tool if asked.
    Execute { plan: PackagePlan, install_aux_tool: bool },
    /// No executable plan exists: print these lines and finish successfully.
    Manual { instructions: Vec<String> },
    /// No plan and no fallback exists: the run fails.
    Unsupported,
}

/// The profiles that fall back to manual instructions instead of a plan.
pub open spec fn manual_fallback(profile: PlatformProfile) -> bool {
    ||| profile == (PlatformProfile::Linux { family: DistroFamily::Unknown })
    ||| profile == PlatformProfile::Windows
}

/// Select the plan for a platform profile from the fixed table.  The three
/// known Linux families also get the auxiliary packaging tool; macOS does
/// not.  An unknown Linux distribution and Windows fall back to manual
/// instructions; any other platform is unsupported.
pub fn resolve(profile: PlatformProfile) -> (r: Resolution)
    ensures
        profile == (PlatformProfile::Linux { family: DistroFamily::DebianUbuntu }) ==> (r matches
            Resolution::Execute { plan, install_aux_tool } && plan_is_debian_ubuntu(plan)
            && install_aux_tool),
        profile == (PlatformProfile::Linux { family: DistroFamily::FedoraRhel }) ==> (r matches
            Resolution::Execute { plan, install_aux_tool } && plan_is_fedora_rhel(plan)
            && install_aux_tool),
        profile == (PlatformProfile::Linux { family: DistroFamily::ArchLike }) ==> (r matches
            Resolution::Execute { plan, install_aux_tool } && plan_is_arch_like(plan)
            && install_aux_tool),
        profile == PlatformProfile::MacOS ==> (r matches Resolution::Execute {
            plan,
            install_aux_tool,
        } && plan_is_macos(plan) && !install_aux_tool),
        profile == (PlatformProfile::Linux { family: DistroFamily::Unknown }) ==> (r matches
            Resolution::Manual { instructions } && instructions.deep_view()
            == linux_manual_instructions_text()),
        profile == PlatformProfile::Windows ==> (r matches Resolution::Manual { instructions }
            && instructions.deep_view() == windows_manual_instructions_text()),
        r is Manual <==> manual_fallback(profile),
        r is Unsupported <==> profile == PlatformProfile::Other,
{
    match profile {
        PlatformProfile::Linux { family: DistroFamily::DebianUbuntu } => Resolution::Execute {
            plan: debian_ubuntu_plan(),
            install_aux_tool: true,
        },
        PlatformProfile::Linux { family: DistroFamily::FedoraRhel } => Resolution::Execute {
            plan: fedora_rhel_plan(),
            install_aux_tool: true,
        },
        PlatformProfile::Linux { family: DistroFamily::ArchLike } => Resolution::Execute {
            plan: arch_like_plan(),
            install_aux_tool: true,
        },
        PlatformProfile::Linux { family: DistroFamily::Unknown } => Resolution::Manual {
            instructions: linux_manual_instructions(),
        },
        PlatformProfile::MacOS => Resolution::Execute {
            plan: macos_plan(),
            install_aux_tool: false,
        },
        PlatformProfile::Windows => Resolution::Manual {
            instructions: windows_manual_instructions(),
        },
        PlatformProfile::Other => Resolution::Unsupported,
    }
}

/// The shell line that bootstraps the macOS package manager itself.
pub open spec fn homebrew_install_script() -> Seq<char> {
    "/bin/bash -c \"$(curl -fsSL https://raw.githubusercontent.com/Homebrew/install/HEAD/install.sh)\""@
}

/// The macOS plan needs its package manager first.  If it is already
/// resolvable on the path there is nothing to run; otherwise one bootstrap
/// command is.
pub fn macos_bootstrap_command(homebrew_on_path: bool) -> (r: Option<CommandSpec>)
    ensures
        homebrew_on_path ==> r is None,
        !homebrew_on_path ==> (r matches Some(c) && cmd_is(
            c,
            "/bin/bash"@,
            seq!["-c"@, homebrew_install_script()],
        )),
{
    if homebrew_on_path {
        None
    } else {
        let c = CommandSpec::new("/bin/bash").arg("-c").arg(
            "/bin/bash -c \"$(curl -fsSL https://raw.githubusercontent.com/Homebrew/install/HEAD/install.sh)\"",
        );
        proof {
            assert(c.args.deep_view() =~= seq!["-c"@, homebrew_install_script()]);
        }
        Some(c)
    }
}

/// An identification text matching no known keyword set classifies as
/// Unknown, and the resolver falls back to manual instructions — a
/// successful outcome, not an error.
pub proof fn lemma_unmatched_text_resolves_to_manual(s: Seq<char>)
    requires
        !matches_debian_ubuntu(s),
        !matches_fedora_rhel(s),
        !matches_arch_like(s),
    ensures
        classify_release_text(s) == DistroFamily::Unknown,
        manual_fallback(PlatformProfile::Linux { family: classify_release_text(s) }),
{
}

} // verus!
