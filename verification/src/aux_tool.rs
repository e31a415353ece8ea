//! Installation plan for the auxiliary packaging tool.
//!
//! The AppImage deploy helper is installed once, outside the package manager:
//! downloaded into the user-local binary directory, marked executable, and
//! linked under its plain name.  The installation is idempotent — when the
//! tool is already resolvable on the execution path, the plan holds no step
//! at all.  Of its filesystem steps, only removing a stale link may fail
//! harmlessly (the link may never have existed); every other failure aborts.

use vstd::prelude::*;

use crate::command::{cmd_is, CommandSpec};
use crate::outcome::SetupError;

verus! {

/// The home directory to place the user-local binary directory under:
/// the value of the home variable, or a fixed fallback where it is unset.
pub fn resolved_home(home: Option<&str>) -> (h: String)
    ensures
        home matches Some(s) ==> h@ == s@,
        home is None ==> h@ == "/root"@,
{
    match home {
        Some(s) => String::from_str(s),
        None => String::from_str("/root"),
    }
}

/// The download source of the tool.
pub open spec fn aux_tool_url() -> Seq<char> {
    "https://github.com/linuxdeploy/linuxdeploy/releases/download/continuous/linuxdeploy-x86_64.AppImage"@
}

/// What the auxiliary-tool installation has to do.
pub enum AuxToolPlan {
    /// The tool is already resolvable on the path: nothing is downloaded and
    /// nothing is written.
    AlreadyInstalled,
    /// Install under the user-local binary directory.
    Install {
        /// The directory to create (idempotently) under the home directory.
        bin_dir: String,
        /// The download of the tool binary into that directory.
        download: CommandSpec,
        /// Marking the downloaded binary executable.
        make_executable: CommandSpec,
        /// Where the binary lands.
        tool_path: String,
        /// The link under the tool's plain name, replacing any stale one.
        link_path: String,
    },
}

/// Decide the auxiliary-tool installation.  It is idempotent: a tool that is
/// already resolvable leaves nothing to do.
pub fn plan_aux_tool(tool_on_path: bool, home_dir: &str) -> (p: AuxToolPlan)
    ensures
        tool_on_path ==> p is AlreadyInstalled,
        !tool_on_path ==> (p matches AuxToolPlan::Install {
            bin_dir,
            download,
            make_executable,
            tool_path,
            link_path,
        } && bin_dir@ == home_dir@ + "/.local/bin"@ && tool_path@ == home_dir@ + "/.local/bin"@
            + "/linuxdeploy-x86_64.AppImage"@ && link_path@ == home_dir@ + "/.local/bin"@
            + "/linuxdeploy"@ && cmd_is(
            download,
            "curl"@,
            seq!["-L"@, "-o"@, tool_path@, aux_tool_url()],
        ) && cmd_is(make_executable, "chmod"@, seq!["+x"@, tool_path@])),
{
    if tool_on_path {
        AuxToolPlan::AlreadyInstalled
    } else {
        let mut bin_dir = String::from_str(home_dir);
        bin_dir.append("/.local/bin");
        let mut tool_path = bin_dir.clone();
        tool_path.append("/linuxdeploy-x86_64.AppImage");
        let mut link_path = bin_dir.clone();
        link_path.append("/linuxdeploy");
        let download = CommandSpec::new("curl").arg("-L").arg("-o").arg_string(
            tool_path.clone(),
        ).arg(
            "https://github.com/linuxdeploy/linuxdeploy/releases/download/continuous/linuxdeploy-x86_64.AppImage",
        );
        let make_executable = CommandSpec::new("chmod").arg("+x").arg_string(tool_path.clone());
        proof {
            assert(download.args.deep_view() =~= seq![
                "-L"@,
                "-o"@,
                tool_path@,
                aux_tool_url(),
            ]);
            assert(make_executable.args.deep_view() =~= seq!["+x"@, tool_path@]);
        }
        AuxToolPlan::Install { bin_dir, download, make_executable, tool_path, link_path }
    }
}

/// One filesystem step of the installation.
#[derive(Clone, Copy, PartialEq, Eq, Debug, Structural)]
pub enum AuxStep {
    CreateDir,
    Download,
    MakeExecutable,
    RemoveStaleLink,
    CreateLink,
}

/// The description a failed step carries into the error.
pub open spec fn spec_aux_step_name(s: AuxStep) -> Seq<char> {
    match s {
        AuxStep::CreateDir => "creating the user-local binary directory"@,
        AuxStep::Download => "downloading the packaging tool"@,
        AuxStep::MakeExecutable => "marking the packaging tool executable"@,
        AuxStep::RemoveStaleLink => "removing a stale link to the packaging tool"@,
        AuxStep::CreateLink => "linking the packaging tool"@,
    }
}

/// Whether a failure of the step aborts the installation.  Removing a stale
/// link is the one step that may fail harmlessly: the link may not exist.
pub open spec fn aux_step_fatal(s: AuxStep) -> bool {
    !(s is RemoveStaleLink)
}

/// Decide what a step's success or failure means for the installation:
/// success always proceeds, a failed stale-link removal is ignored, and any
/// other failure is a fatal filesystem error naming the step.
pub fn aux_step_outcome(step: AuxStep, ok: bool) -> (r: Result<(), SetupError>)
    ensures
        ok ==> r is Ok,
        !ok && !aux_step_fatal(step) ==> r is Ok,
        !ok && aux_step_fatal(step) ==> (r matches Err(e) && e matches SetupError::FilesystemError {
            step: msg,
        } && msg@ == spec_aux_step_name(step)),
{
    if ok {
        Ok(())
    } else {
        match step {
            AuxStep::CreateDir => Err(
                SetupError::FilesystemError {
                    step: String::from_str("creating the user-local binary directory"),
                },
            ),
            AuxStep::Download => Err(
                SetupError::FilesystemError {
                    step: String::from_str("downloading the packaging tool"),
                },
            ),
            AuxStep::MakeExecutable => Err(
                SetupError::FilesystemError {
                    step: String::from_str("marking the packaging tool executable"),
                },
            ),
            AuxStep::RemoveStaleLink => Ok(()),
            AuxStep::CreateLink => Err(
                SetupError::FilesystemError { step: String::from_str("linking the packaging tool") },
            ),
        }
    }
}

} // verus!
