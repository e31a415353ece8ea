use xtask::aux_tool::{aux_step_outcome, plan_aux_tool, resolved_home, AuxStep, AuxToolPlan};
use xtask::outcome::SetupError;

#[test]
fn installation_is_skipped_when_the_tool_is_on_the_path() {
    assert!(matches!(plan_aux_tool(true, "/home/user"), AuxToolPlan::AlreadyInstalled));
}

#[test]
fn installation_plan_places_the_tool_under_the_home_directory() {
    match plan_aux_tool(false, "/home/user") {
        AuxToolPlan::Install { bin_dir, download, make_executable, tool_path, link_path } => {
            assert_eq!(bin_dir, "/home/user/.local/bin");
            assert_eq!(tool_path, "/home/user/.local/bin/linuxdeploy-x86_64.AppImage");
            assert_eq!(link_path, "/home/user/.local/bin/linuxdeploy");
            assert_eq!(download.program, "curl");
            assert_eq!(
                download.args,
                [
                    "-L",
                    "-o",
                    "/home/user/.local/bin/linuxdeploy-x86_64.AppImage",
                    "https://github.com/linuxdeploy/linuxdeploy/releases/download/continuous/linuxdeploy-x86_64.AppImage",
                ]
            );
            assert_eq!(make_executable.program, "chmod");
            assert_eq!(
                make_executable.args,
                ["+x", "/home/user/.local/bin/linuxdeploy-x86_64.AppImage"]
            );
        }
        AuxToolPlan::AlreadyInstalled => panic!("an absent tool must be installed"),
    }
}

#[test]
fn home_falls_back_to_a_fixed_directory() {
    assert_eq!(resolved_home(Some("/home/user")), "/home/user");
    assert_eq!(resolved_home(None), "/root");
}

#[test]
fn only_a_stale_link_removal_may_fail_harmlessly() {
    assert!(aux_step_outcome(AuxStep::RemoveStaleLink, false).is_ok());
    for step in [AuxStep::CreateDir, AuxStep::Download, AuxStep::MakeExecutable, AuxStep::CreateLink]
    {
        match aux_step_outcome(step, false) {
            Err(SetupError::FilesystemError { .. }) => {}
            _ => panic!("a failed filesystem step must be fatal"),
        }
    }
}

#[test]
fn successful_steps_always_proceed() {
    for step in [
        AuxStep::CreateDir,
        AuxStep::Download,
        AuxStep::MakeExecutable,
        AuxStep::RemoveStaleLink,
        AuxStep::CreateLink,
    ] {
        assert!(aux_step_outcome(step, true).is_ok());
    }
}

#[test]
fn a_failed_download_names_its_step() {
    match aux_step_outcome(AuxStep::Download, false) {
        Err(e) => assert_eq!(
            e.describe(),
            "Filesystem operation failed: downloading the packaging tool"
        ),
        Ok(_) => panic!("a failed download must be fatal"),
    }
}
