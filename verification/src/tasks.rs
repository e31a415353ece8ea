//! The wrapper's build tasks, fixed as command data.
//!
//! Each subcommand of the wrapper maps to one or more invocations of the
//! build toolchain.  The build and dev tasks carry an environment overlay
//! telling the downstream build tool whether to download the UI runtime
//! component; the overlay is scoped to that single invocation.

use vstd::prelude::*;

use crate::command::{cmd_is, cmd_with_env_is, CommandSpec};

verus! {

/// The environment overlay of build and dev runs.
pub open spec fn webview_env() -> Seq<(Seq<char>, Seq<char>)> {
    seq![("TAURI_SKIP_WEBVIEW_DOWNLOAD"@, "false"@)]
}

/// The flag selecting a build target.
pub open spec fn target_flag(t: Seq<char>) -> Seq<char> {
    "--target="@ + t
}

/// The application build invocation, with an optional target flag.
pub fn build_command(target: Option<&str>) -> (c: CommandSpec)
    ensures
        target matches Some(t) ==> cmd_with_env_is(
            c,
            "cargo"@,
            seq!["tauri"@, "build"@, target_flag(t@)],
            webview_env(),
        ),
        target is None ==> cmd_with_env_is(c, "cargo"@, seq!["tauri"@, "build"@], webview_env()),
{
    let base = CommandSpec::new("cargo").arg("tauri").arg("build").env_var(
        "TAURI_SKIP_WEBVIEW_DOWNLOAD",
        "false",
    );
    proof {
        assert(base.args.deep_view() =~= seq!["tauri"@, "build"@]);
        assert(base.env.deep_view() =~= webview_env());
    }
    match target {
        Some(t) => {
            let mut flag = String::from_str("--target=");
            flag.append(t);
            let c = base.arg_string(flag);
            proof {
                assert(c.args.deep_view() =~= seq!["tauri"@, "build"@, target_flag(t@)]);
            }
            c
        },
        None => base,
    }
}

/// The development-server invocation.
pub fn dev_command() -> (c: CommandSpec)
    ensures
        cmd_with_env_is(c, "cargo"@, seq!["tauri"@, "dev"@], webview_env()),
{
    let c = CommandSpec::new("cargo").arg("tauri").arg("dev").env_var(
        "TAURI_SKIP_WEBVIEW_DOWNLOAD",
        "false",
    );
    proof {
        assert(c.args.deep_view() =~= seq!["tauri"@, "dev"@]);
        assert(c.env.deep_view() =~= webview_env());
    }
    c
}

/// The code-check invocation.
pub fn check_command() -> (c: CommandSpec)
    ensures
        cmd_is(c, "cargo"@, seq!["check"@, "--all"@]),
{
    let c = CommandSpec::new("cargo").arg("check").arg("--all");
    proof {
        assert(c.args.deep_view() =~= seq!["check"@, "--all"@]);
    }
    c
}

/// The formatting invocation.
pub fn fmt_command() -> (c: CommandSpec)
    ensures
        cmd_is(c, "cargo"@, seq!["fmt"@, "--all"@]),
{
    let c = CommandSpec::new("cargo").arg("fmt").arg("--all");
    proof {
        assert(c.args.deep_view() =~= seq!["fmt"@, "--all"@]);
    }
    c
}

/// The linter invocation, with warnings denied.
pub fn lint_command() -> (c: CommandSpec)
    ensures
        cmd_is(c, "cargo"@, seq!["clippy"@, "--all"@, "--"@, "-D"@, "warnings"@]),
{
    let c = CommandSpec::new("cargo").arg("clippy").arg("--all").arg("--").arg("-D").arg(
        "warnings",
    );
    proof {
        assert(c.args.deep_view() =~= seq!["clippy"@, "--all"@, "--"@, "-D"@, "warnings"@]);
    }
    c
}

/// The test-run invocation.
pub fn test_command() -> (c: CommandSpec)
    ensures
        cmd_is(c, "cargo"@, seq!["test"@, "--all"@]),
{
    let c = CommandSpec::new("cargo").arg("test").arg("--all");
    proof {
        assert(c.args.deep_view() =~= seq!["test"@, "--all"@]);
    }
    c
}

/// The clean invocation.
pub fn clean_command() -> (c: CommandSpec)
    ensures
        cmd_is(c, "cargo"@, seq!["clean"@]),
{
    let c = CommandSpec::new("cargo").arg("clean");
    proof {
        assert(c.args.deep_view() =~= seq!["clean"@]);
    }
    c
}

/// The application install invocation: a plain release build.
pub fn install_app_command() -> (c: CommandSpec)
    ensures
        cmd_is(c, "cargo"@, seq!["tauri"@, "build"@]),
{
    let c = CommandSpec::new("cargo").arg("tauri").arg("build");
    proof {
        assert(c.args.deep_view() =~= seq!["tauri"@, "build"@]);
    }
    c
}

/// The commands of a system installation, in order: a release build first
/// where no binary is present yet, then the privileged installs of the
/// binary and of its manual page.
pub fn install_system_commands(binary_present: bool) -> (v: Vec<CommandSpec>)
    ensures
        binary_present ==> v@.len() == 2,
        !binary_present ==> v@.len() == 3 && cmd_with_env_is(
            v@[0],
            "cargo"@,
            seq!["tauri"@, "build"@],
            webview_env(),
        ),
        cmd_is(
            v@[v@.len() - 2],
            "sudo"@,
            seq!["install"@, "-Dm755"@, "target/release/eim"@, "/usr/local/bin/eim"@],
        ),
        cmd_is(
            v@[v@.len() - 1],
            "sudo"@,
            seq!["install"@, "-Dm644"@, "man/eim.1"@, "/usr/share/man/man1/eim.1"@],
        ),
{
    let mut v: Vec<CommandSpec> = Vec::new();
    if !binary_present {
        v.push(build_command(None));
    }
    let binary = CommandSpec::new("sudo").arg("install").arg("-Dm755").arg(
        "target/release/eim",
    ).arg("/usr/local/bin/eim");
    proof {
        assert(binary.args.deep_view() =~= seq![
            "install"@,
            "-Dm755"@,
            "target/release/eim"@,
            "/usr/local/bin/eim"@,
        ]);
    }
    v.push(binary);
    let man_page = CommandSpec::new("sudo").arg("install").arg("-Dm644").arg("man/eim.1").arg(
        "/usr/share/man/man1/eim.1",
    );
    proof {
        assert(man_page.args.deep_view() =~= seq![
            "install"@,
            "-Dm644"@,
            "man/eim.1"@,
            "/usr/share/man/man1/eim.1"@,
        ]);
    }
    v.push(man_page);
    v
}

/// The full pipeline, in order: check, format, lint, build.
pub fn pipeline_commands(target: Option<&str>) -> (v: Vec<CommandSpec>)
    ensures
        v@.len() == 4,
        cmd_is(v@[0], "cargo"@, seq!["check"@, "--all"@]),
        cmd_is(v@[1], "cargo"@, seq!["fmt"@, "--all"@]),
        cmd_is(v@[2], "cargo"@, seq!["clippy"@, "--all"@, "--"@, "-D"@, "warnings"@]),
        target matches Some(t) ==> cmd_with_env_is(
            v@[3],
            "cargo"@,
            seq!["tauri"@, "build"@, target_flag(t@)],
            webview_env(),
        ),
        target is None ==> cmd_with_env_is(
            v@[3],
            "cargo"@,
            seq!["tauri"@, "build"@],
            webview_env(),
        ),
{
    let mut v: Vec<CommandSpec> = Vec::new();
    v.push(check_command());
    v.push(fmt_command());
    v.push(lint_command());
    v.push(build_command(target));
    v
}

} // verus!
