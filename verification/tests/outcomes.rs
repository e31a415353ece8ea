use xtask::command::{command_line, CommandSpec};
use xtask::outcome::{command_outcome, SetupError};

fn sample_command() -> CommandSpec {
    CommandSpec::new("sudo").arg("apt-get").arg("update")
}

#[test]
fn clean_exit_proceeds_silently() {
    match command_outcome(sample_command(), true, false) {
        Ok(None) => {}
        _ => panic!("a clean exit must proceed without a warning"),
    }
    match command_outcome(sample_command(), true, true) {
        Ok(None) => {}
        _ => panic!("a clean exit must proceed without a warning"),
    }
}

#[test]
fn nonzero_exit_aborts_by_default_naming_the_invocation() {
    match command_outcome(sample_command(), false, false) {
        Err(SetupError::ExternalCommandFailed { program, args }) => {
            assert_eq!(program, "sudo");
            assert_eq!(args, ["apt-get", "update"]);
        }
        _ => panic!("a nonzero exit must abort when the plan does not continue"),
    }
}

#[test]
fn nonzero_exit_warns_and_continues_when_the_plan_says_so() {
    match command_outcome(sample_command(), false, true) {
        Ok(Some(warning)) => {
            assert_eq!(warning, "Command exited nonzero (continuing): sudo apt-get update");
        }
        _ => panic!("a nonzero exit must continue with a warning when the plan says so"),
    }
}

#[test]
fn command_line_joins_program_and_arguments() {
    assert_eq!(command_line(&sample_command()), "sudo apt-get update");
    assert_eq!(command_line(&CommandSpec::new("cargo")), "cargo");
}

#[test]
fn errors_describe_themselves() {
    assert_eq!(
        SetupError::UnsupportedPlatform.describe(),
        "Setup not available for this OS"
    );
    let err = match command_outcome(sample_command(), false, false) {
        Err(e) => e,
        Ok(_) => panic!("expected an error"),
    };
    assert_eq!(err.describe(), "Command failed: sudo apt-get update");
}
