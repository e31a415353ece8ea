use xtask::command::which_command;
use xtask::tasks::{
    build_command, check_command, clean_command, dev_command, fmt_command, install_app_command,
    install_system_commands, lint_command, pipeline_commands, test_command,
};

fn webview_env() -> Vec<(String, String)> {
    vec![("TAURI_SKIP_WEBVIEW_DOWNLOAD".to_string(), "false".to_string())]
}

#[test]
fn build_without_target() {
    let c = build_command(None);
    assert_eq!(c.program, "cargo");
    assert_eq!(c.args, ["tauri", "build"]);
    assert_eq!(c.env, webview_env());
}

#[test]
fn build_with_target_appends_the_flag() {
    let c = build_command(Some("aarch64-unknown-linux-gnu"));
    assert_eq!(c.args, ["tauri", "build", "--target=aarch64-unknown-linux-gnu"]);
    assert_eq!(c.env, webview_env());
}

#[test]
fn dev_runs_the_development_server() {
    let c = dev_command();
    assert_eq!(c.program, "cargo");
    assert_eq!(c.args, ["tauri", "dev"]);
    assert_eq!(c.env, webview_env());
}

#[test]
fn single_step_tasks_have_fixed_invocations() {
    assert_eq!(check_command().args, ["check", "--all"]);
    assert_eq!(fmt_command().args, ["fmt", "--all"]);
    assert_eq!(lint_command().args, ["clippy", "--all", "--", "-D", "warnings"]);
    assert_eq!(test_command().args, ["test", "--all"]);
    assert_eq!(clean_command().args, ["clean"]);
    assert_eq!(install_app_command().args, ["tauri", "build"]);
    for c in [
        check_command(),
        fmt_command(),
        lint_command(),
        test_command(),
        clean_command(),
        install_app_command(),
    ] {
        assert_eq!(c.program, "cargo");
        assert!(c.env.is_empty());
    }
}

#[test]
fn system_install_builds_first_only_when_the_binary_is_missing() {
    let with_binary = install_system_commands(true);
    assert_eq!(with_binary.len(), 2);
    assert_eq!(with_binary[0].program, "sudo");
    assert_eq!(
        with_binary[0].args,
        ["install", "-Dm755", "target/release/eim", "/usr/local/bin/eim"]
    );
    assert_eq!(
        with_binary[1].args,
        ["install", "-Dm644", "man/eim.1", "/usr/share/man/man1/eim.1"]
    );

    let without_binary = install_system_commands(false);
    assert_eq!(without_binary.len(), 3);
    assert_eq!(without_binary[0].program, "cargo");
    assert_eq!(without_binary[0].args, ["tauri", "build"]);
    assert_eq!(without_binary[1].args[1], "-Dm755");
    assert_eq!(without_binary[2].args[1], "-Dm644");
}

#[test]
fn pipeline_checks_formats_lints_then_builds() {
    let v = pipeline_commands(Some("x86_64-pc-windows-msvc"));
    assert_eq!(v.len(), 4);
    assert_eq!(v[0].args, ["check", "--all"]);
    assert_eq!(v[1].args, ["fmt", "--all"]);
    assert_eq!(v[2].args, ["clippy", "--all", "--", "-D", "warnings"]);
    assert_eq!(v[3].args, ["tauri", "build", "--target=x86_64-pc-windows-msvc"]);
    assert_eq!(pipeline_commands(None)[3].args, ["tauri", "build"]);
}

#[test]
fn presence_checks_ask_the_path_resolver() {
    let c = which_command("linuxdeploy");
    assert_eq!(c.program, "which");
    assert_eq!(c.args, ["linuxdeploy"]);
    assert!(c.env.is_empty());
}
