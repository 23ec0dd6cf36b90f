//! Laws of building virtual environments.
use crate::launcher::LaunchError;
use crate::text::views;
use crate::venv::{Command, VenvBuild, VenvProgress, VenvRequest, VenvStage};
use vstd::prelude::*;

verus! {

/// A build begins with making the environment, in its directory and with the requested Python.
pub proof fn law_build_begins_with_the_environment(
    request: VenvRequest,
    path: String,
    windows: bool,
    build: VenvBuild,
    command: Command,
)
    requires
        call_ensures(VenvBuild::start, (request, path, windows), (build, command)),
    ensures
        build.request == request,
        build.venv_path == path,
        build.windows == windows,
        build.stage == VenvStage::Create,
        command.program@ == "uv"@,
        views(command.args@) == seq!["venv"@, "--python"@, request.python@, path@],
{
}

/// What follows a command that succeeded: the packages are installed once there is an environment,
/// it is packed once they are installed, and nothing else is built on the way.
pub proof fn law_build_goes_on(build: VenvBuild, next: VenvBuild, command: Command)
    requires
        call_ensures(VenvBuild::finished, (build, true), Ok(VenvProgress::Run(next, command))),
    ensures
        next.request == build.request,
        next.venv_path == build.venv_path,
        next.windows == build.windows,
        build.stage == VenvStage::Create ==> next.stage == VenvStage::Install,
        build.stage == VenvStage::Install ==> next.stage == VenvStage::Pack,
        build.stage != VenvStage::Pack,
{
}

/// Every requested package is installed, in the order of the request, with the tool that packs
/// the environment, and into the environment: by its own Python.
pub proof fn law_every_package_is_installed(build: VenvBuild, next: VenvBuild, command: Command)
    requires
        call_ensures(VenvBuild::finished, (build, true), Ok(VenvProgress::Run(next, command))),
        build.stage == VenvStage::Create,
    ensures
        command.program@ == "uv"@,
        command.args@.len() == 5 + build.request.packages@.len(),
        command.args@[0]@ == "pip"@,
        command.args@[1]@ == "install"@,
        command.args@[2]@ == "--python"@,
        command.args@[3]@ == (if build.windows {
            build.venv_path@ + "/Scripts/"@ + "python.exe"@
        } else {
            build.venv_path@ + "/bin/"@ + "python"@
        }),
        command.args@[4]@ == "venv-pack"@,
        forall|i: int|
            0 <= i < build.request.packages@.len() ==> command.args@[5 + i]@ == (
            #[trigger] build.request.packages@[i])@,
{
    let args = views(command.args@);
    assert(args.len() == command.args@.len());
    assert forall|i: int| 0 <= i < args.len() implies args[i] == #[trigger] command.args@[i]@ by {}
    assert(args[0] == command.args@[0]@);
    assert(args[1] == command.args@[1]@);
    assert(args[2] == command.args@[2]@);
    assert(args[3] == command.args@[3]@);
    assert(args[4] == command.args@[4]@);
    assert forall|i: int| 0 <= i < build.request.packages@.len() implies command.args@[5 + i]@ == (
    #[trigger] build.request.packages@[i])@ by {
        assert(args[5 + i] == views(build.request.packages@)[i]);
    }
}

/// The environment is packed by its own tool, without that tool, into the archive that the build
/// then names.
pub proof fn law_archive_is_where_it_was_packed(
    build: VenvBuild,
    next: VenvBuild,
    command: Command,
    archive: String,
)
    requires
        call_ensures(VenvBuild::finished, (build, true), Ok(VenvProgress::Run(next, command))),
        build.stage == VenvStage::Install,
        call_ensures(VenvBuild::finished, (next, true), Ok(VenvProgress::Built(archive))),
    ensures
        command.program@ == (if build.windows {
            build.venv_path@ + "/Scripts/"@ + "venv-pack"@
        } else {
            build.venv_path@ + "/bin/"@ + "venv-pack"@
        }),
        views(command.args@) == seq![
            "-p"@,
            build.venv_path@,
            "-o"@,
            archive@,
            "--exclude"@,
            "*/venv-pack/*"@,
        ],
        archive@ == build.venv_path@ + ".tgz"@,
{
}

/// A build ends exactly where the environment is packed, or where a command fails; the error says
/// whether the environment could not be made, and with which Python.
pub proof fn law_build_ends(
    build: VenvBuild,
    success: bool,
    res: Result<VenvProgress, LaunchError>,
)
    requires
        call_ensures(VenvBuild::finished, (build, success), res),
    ensures
        res is Ok <==> success,
        res matches Ok(progress) ==> (progress is Built <==> build.stage == VenvStage::Pack),
        res matches Err(e) ==> if build.stage == VenvStage::Create {
            e matches LaunchError::VenvCreation { python } && python@ == build.request.python@
        } else {
            e is PackageInstallation
        },
{
}

} // verus!
