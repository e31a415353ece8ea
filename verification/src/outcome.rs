//! Errors, and the policy applied to an external command's exit status.
//!
//! A non-zero exit is fatal by default and carries the exact program and
//! argument list that was invoked.  A plan may instead declare that a failing
//! step only warns and the run continues.

use vstd::prelude::*;

use crate::command::{spec_command_line, render_command_line, CommandSpec};

verus! {

/// Why a run of the wrapper failed.
pub enum SetupError {
    /// No plan and no manual fallback exists for the platform.
    UnsupportedPlatform,
    /// An external command exited non-zero; carries the program and the
    /// argument list that was invoked.
    ExternalCommandFailed { program: String, args: Vec<String> },
    /// A directory, download or symlink operation failed; carries a short
    /// description of the failed step.
    FilesystemError { step: String },
}

/// The one-line description of an error.
pub open spec fn spec_describe(e: SetupError) -> Seq<char> {
    match e {
        SetupError::UnsupportedPlatform => "Setup not available for this OS"@,
        SetupError::ExternalCommandFailed { program, args } => "Command failed: "@
            + spec_command_line(program@, args.deep_view()),
        SetupError::FilesystemError { step } => "Filesystem operation failed: "@ + step@,
    }
}

impl SetupError {
    /// Render the error as one descriptive line.
    pub fn describe(&self) -> (line: String)
        ensures
            line@ == spec_describe(*self),
    {
        match self {
            SetupError::UnsupportedPlatform => String::from_str("Setup not available for this OS"),
            SetupError::ExternalCommandFailed { program, args } => {
                let mut line = String::from_str("Command failed: ");
                line.append(render_command_line(program.as_str(), args).as_str());
                line
            },
            SetupError::FilesystemError { step } => {
                let mut line = String::from_str("Filesystem operation failed: ");
                line.append(step.as_str());
                line
            },
        }
    }
}

/// The warning printed when a failing step is allowed to continue.
pub open spec fn spec_step_warning(program: Seq<char>, args: Seq<Seq<char>>) -> Seq<char> {
    "Command exited nonzero (continuing): "@ + spec_command_line(program, args)
}

/// Decide what a command's exit status means for the run.  A clean exit
/// proceeds silently; a non-zero exit either aborts with an error naming the
/// exact invocation, or — where the plan says so — turns into a warning and
/// the run goes on.
pub fn command_outcome(cmd: CommandSpec, exited_ok: bool, continue_on_nonzero: bool) -> (r: Result<
    Option<String>,
    SetupError,
>)
    ensures
        exited_ok ==> r == Ok::<Option<String>, SetupError>(None::<String>),
        !exited_ok && continue_on_nonzero ==> (r matches Ok(w) && w matches Some(msg)
            && msg@ == spec_step_warning(cmd.program@, cmd.args.deep_view())),
        !exited_ok && !continue_on_nonzero ==> (r matches Err(e)
            && e matches SetupError::ExternalCommandFailed { program, args }
            && program@ == cmd.program@ && args.deep_view() == cmd.args.deep_view()),
{
    if exited_ok {
        Ok(None)
    } else if continue_on_nonzero {
        let mut msg = String::from_str("Command exited nonzero (continuing): ");
        msg.append(render_command_line(cmd.program.as_str(), &cmd.args).as_str());
        Ok(Some(msg))
    } else {
        Err(SetupError::ExternalCommandFailed { program: cmd.program, args: cmd.args })
    }
}

} // verus!
