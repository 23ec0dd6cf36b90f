//! Building virtual environments for sessions that need packages of their own.
use crate::launcher::{LaunchError, LaunchErrorView};
use crate::text::{concat2, concat3, lemma_views_push, views};
use vstd::prelude::*;

verus! {

/// A virtual environment to build.
pub struct VenvRequest {
    pub python: String,
    pub packages: Vec<String>,
}

/// A program to run, with its arguments.
pub struct Command {
    pub program: String,
    pub args: Vec<String>,
}

impl View for Command {
    type V = (Seq<char>, Seq<Seq<char>>);

    open spec fn view(&self) -> (Seq<char>, Seq<Seq<char>>) {
        (self.program@, views(self.args@))
    }
}

/// Which command of a build comes next.
#[derive(Clone, Copy, PartialEq, Eq, Structural, Debug)]
pub enum VenvStage {
    Create,
    Install,
    Pack,
}

/// The build of a virtual environment: it is made, packages are installed into it, and it is
/// packed into an archive.
pub struct VenvBuild {
    pub request: VenvRequest,
    pub venv_path: String,
    pub windows: bool,
    pub stage: VenvStage,
}

/// Where a build stands once a command has succeeded.
pub enum VenvProgress {
    /// Another command is to be run.
    Run(VenvBuild, Command),
    /// The archive is at this path.
    Built(String),
}

/// Where a virtual environment keeps the given program.
pub open spec fn venv_program(path: Seq<char>, windows: bool, name: Seq<char>) -> Seq<char> {
    if windows {
        path + "/Scripts/"@ + name
    } else {
        path + "/bin/"@ + name
    }
}

/// Where the archive of a virtual environment is.
pub open spec fn venv_archive(path: Seq<char>) -> Seq<char> {
    path + ".tgz"@
}

impl VenvBuild {
    /// The command of the given stage.
    pub open spec fn command(self, stage: VenvStage) -> (Seq<char>, Seq<Seq<char>>) {
        let path = self.venv_path@;
        match stage {
            VenvStage::Create => (
                "uv"@,
                seq!["venv"@, "--python"@, self.request.python@, path],
            ),
            VenvStage::Install => (
                "uv"@,
                seq![
                    "pip"@,
                    "install"@,
                    "--python"@,
                    venv_program(
                        path,
                        self.windows,
                        if self.windows {
                            "python.exe"@
                        } else {
                            "python"@
                        },
                    ),
                    "venv-pack"@,
                ] + views(self.request.packages@),
            ),
            VenvStage::Pack => (
                venv_program(path, self.windows, "venv-pack"@),
                seq![
                    "-p"@,
                    path,
                    "-o"@,
                    venv_archive(path),
                    "--exclude"@,
                    "*/venv-pack/*"@,
                ],
            ),
        }
    }

    /// What is wrong where the command of the current stage fails.
    pub open spec fn failure(self) -> LaunchErrorView {
        match self.stage {
            VenvStage::Create => LaunchErrorView::VenvCreation { python: self.request.python@ },
            _ => LaunchErrorView::PackageInstallation,
        }
    }

    /// Begins a build in the directory `venv_path`, and says which command to run first.
    pub fn start(request: VenvRequest, venv_path: String, windows: bool) -> (res: (
        VenvBuild,
        Command,
    ))
        ensures
            res.0 == (VenvBuild { request, venv_path, windows, stage: VenvStage::Create }),
            res.1@ == res.0.command(VenvStage::Create),
    {
        let mut args: Vec<String> = Vec::new();
        args.push("venv".to_owned());
        args.push("--python".to_owned());
        args.push(request.python.clone());
        args.push(venv_path.clone());
        assert(views(args@) =~= seq!["venv"@, "--python"@, request.python@, venv_path@]);
        let command = Command { program: "uv".to_owned(), args };
        (VenvBuild { request, venv_path, windows, stage: VenvStage::Create }, command)
    }

    /// Where the environment keeps the given program.
    fn program(&self, name: &str) -> (res: String)
        ensures
            res@ == venv_program(self.venv_path@, self.windows, name@),
    {
        concat3(
            self.venv_path.as_str(),
            if self.windows {
                "/Scripts/"
            } else {
                "/bin/"
            },
            name,
        )
    }

    fn install_command(&self) -> (res: Command)
        ensures
            res@ == self.command(VenvStage::Install),
    {
        let mut args: Vec<String> = Vec::new();
        args.push("pip".to_owned());
        args.push("install".to_owned());
        args.push("--python".to_owned());
        let python = self.program(
            if self.windows {
                "python.exe"
            } else {
                "python"
            },
        );
        args.push(python);
        args.push("venv-pack".to_owned());
        let ghost fixed = views(args@);
        let packages = &self.request.packages;
        let mut i: usize = 0;
        assert(views(packages@).take(0) =~= seq![]);
        while i < packages.len()
            invariant
                i <= packages.len(),
                views(args@) == fixed + views(packages@).take(i as int),
            decreases packages.len() - i,
        {
            let ghost before = args@;
            args.push(packages[i].clone());
            proof {
                lemma_views_push(before, args@.last());
                assert(args@ =~= before.push(args@.last()));
                assert(views(packages@).take(i + 1) =~= views(packages@).take(i as int).push(
                    packages@[i as int]@,
                ));
                assert(views(args@) =~= fixed + views(packages@).take(i + 1));
            }
            i += 1;
        }
        assert(views(packages@).take(i as int) =~= views(packages@));
        assert(views(args@) =~= self.command(VenvStage::Install).1);
        Command { program: "uv".to_owned(), args }
    }

    fn pack_command(&self) -> (res: Command)
        ensures
            res@ == self.command(VenvStage::Pack),
    {
        let mut args: Vec<String> = Vec::new();
        args.push("-p".to_owned());
        args.push(self.venv_path.clone());
        args.push("-o".to_owned());
        args.push(concat2(self.venv_path.as_str(), ".tgz"));
        args.push("--exclude".to_owned());
        args.push("*/venv-pack/*".to_owned());
        assert(views(args@) =~= self.command(VenvStage::Pack).1);
        Command { program: self.program("venv-pack"), args }
    }

    /// Goes on after the command of the current stage has ended, with or without success.
    pub fn finished(self, success: bool) -> (res: Result<VenvProgress, LaunchError>)
        ensures
            match res {
                Ok(VenvProgress::Run(build, command)) => {
                    &&& success
                    &&& self.stage != VenvStage::Pack
                    &&& build == (VenvBuild {
                        stage: if self.stage == VenvStage::Create {
                            VenvStage::Install
                        } else {
                            VenvStage::Pack
                        },
                        ..self
                    })
                    &&& command@ == build.command(build.stage)
                },
                Ok(VenvProgress::Built(archive)) => {
                    &&& success
                    &&& self.stage == VenvStage::Pack
                    &&& archive@ == venv_archive(self.venv_path@)
                },
                Err(e) => !success && e@ == self.failure(),
            },
    {
        match self.stage {
            VenvStage::Create => {
                if !success {
                    return Err(LaunchError::VenvCreation { python: self.request.python });
                }
                let command = self.install_command();
                Ok(VenvProgress::Run(VenvBuild { stage: VenvStage::Install, ..self }, command))
            },
            VenvStage::Install => {
                if !success {
                    return Err(LaunchError::PackageInstallation);
                }
                let command = self.pack_command();
                Ok(VenvProgress::Run(VenvBuild { stage: VenvStage::Pack, ..self }, command))
            },
            VenvStage::Pack => {
                if !success {
                    return Err(LaunchError::PackageInstallation);
                }
                Ok(VenvProgress::Built(concat2(self.venv_path.as_str(), ".tgz")))
            },
        }
    }
}

} // verus!
