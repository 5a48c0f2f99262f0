//! External commands: the argument lists the installer runs, and what the
//! result of a run means.

use crate::error::{InstallError, InstallErrorView, Operation};
use crate::text::{from_utf8_lossy, utf8_lossy};
use vstd::prelude::*;
use vstd::utf8::{decode_utf8, valid_utf8};

verus! {

/// What a child process left behind when it exited.
#[derive(PartialEq, Eq, Debug)]
pub struct CommandResult {
    pub exit_succeeded: bool,
    pub stdout: Vec<u8>,
    pub stderr: Vec<u8>,
}

/// The mathematical content of a `CommandResult`.
pub struct CommandResultView {
    pub exit_succeeded: bool,
    pub stdout: Seq<u8>,
    pub stderr: Seq<u8>,
}

impl View for CommandResult {
    type V = CommandResultView;

    open spec fn view(&self) -> CommandResultView {
        CommandResultView {
            exit_succeeded: self.exit_succeeded,
            stdout: self.stdout@,
            stderr: self.stderr@,
        }
    }
}

/// The outcome of trying to run a command: its result, or the reason why
/// it could not be started.
pub open spec fn run_view(run: Result<CommandResult, String>) -> Result<
    CommandResultView,
    Seq<char>,
> {
    match run {
        Ok(result) => Ok(result@),
        Err(detail) => Err(detail@),
    }
}

/// Where the version manager's sources are cloned from.
pub const ASDF_REPOSITORY: &'static str = "https://github.com/asdf-vm/asdf.git";

/// `which <package>`
pub open spec fn which_argv(package: Seq<char>) -> Seq<Seq<char>> {
    seq!["which"@, package]
}

/// `sudo apt install -y <package>`
pub open spec fn apt_install_argv(package: Seq<char>) -> Seq<Seq<char>> {
    seq!["sudo"@, "apt"@, "install"@, "-y"@, package]
}

/// `git clone <url> <dest>`
pub open spec fn git_clone_argv(url: Seq<char>, dest: Seq<char>) -> Seq<Seq<char>> {
    seq!["git"@, "clone"@, url, dest]
}

/// `bash -c "source ~/.bashrc"`
pub open spec fn source_profile_argv() -> Seq<Seq<char>> {
    seq!["bash"@, "-c"@, "source ~/.bashrc"@]
}

/// `asdf plugin add <name>`
pub open spec fn plugin_add_argv(name: Seq<char>) -> Seq<Seq<char>> {
    seq!["asdf"@, "plugin"@, "add"@, name]
}

/// `asdf install <name> <version>`
pub open spec fn asdf_install_argv(name: Seq<char>, version: Seq<char>) -> Seq<Seq<char>> {
    seq!["asdf"@, "install"@, name, version]
}

/// `asdf global <name> latest`
pub open spec fn asdf_global_argv(name: Seq<char>) -> Seq<Seq<char>> {
    seq!["asdf"@, "global"@, name, "latest"@]
}

/// The command that looks a package up on the search path.
pub fn which_command(package: &str) -> (argv: Vec<String>)
    ensures
        argv.deep_view() == which_argv(package@),
{
    let mut argv: Vec<String> = Vec::new();
    argv.push(String::from_str("which"));
    argv.push(String::from_str(package));
    assert(argv.deep_view() =~= which_argv(package@));
    argv
}

/// The command that installs a system package without asking.
pub fn apt_install_command(package: &str) -> (argv: Vec<String>)
    ensures
        argv.deep_view() == apt_install_argv(package@),
{
    let mut argv: Vec<String> = Vec::new();
    argv.push(String::from_str("sudo"));
    argv.push(String::from_str("apt"));
    argv.push(String::from_str("install"));
    argv.push(String::from_str("-y"));
    argv.push(String::from_str(package));
    assert(argv.deep_view() =~= apt_install_argv(package@));
    argv
}

/// The command that clones a repository into a directory.
pub fn git_clone_command(url: &str, dest: &str) -> (argv: Vec<String>)
    ensures
        argv.deep_view() == git_clone_argv(url@, dest@),
{
    let mut argv: Vec<String> = Vec::new();
    argv.push(String::from_str("git"));
    argv.push(String::from_str("clone"));
    argv.push(String::from_str(url));
    argv.push(String::from_str(dest));
    assert(argv.deep_view() =~= git_clone_argv(url@, dest@));
    argv
}

/// The command that sources the profile again in a child shell.
pub fn source_profile_command() -> (argv: Vec<String>)
    ensures
        argv.deep_view() == source_profile_argv(),
{
    let mut argv: Vec<String> = Vec::new();
    argv.push(String::from_str("bash"));
    argv.push(String::from_str("-c"));
    argv.push(String::from_str("source ~/.bashrc"));
    assert(argv.deep_view() =~= source_profile_argv());
    argv
}

/// The command that registers a plugin with the version manager.
pub fn plugin_add_command(name: &str) -> (argv: Vec<String>)
    ensures
        argv.deep_view() == plugin_add_argv(name@),
{
    let mut argv: Vec<String> = Vec::new();
    argv.push(String::from_str("asdf"));
    argv.push(String::from_str("plugin"));
    argv.push(String::from_str("add"));
    argv.push(String::from_str(name));
    assert(argv.deep_view() =~= plugin_add_argv(name@));
    argv
}

/// The command that has the version manager install one version of a tool.
pub fn asdf_install_command(name: &str, version: &str) -> (argv: Vec<String>)
    ensures
        argv.deep_view() == asdf_install_argv(name@, version@),
{
    let mut argv: Vec<String> = Vec::new();
    argv.push(String::from_str("asdf"));
    argv.push(String::from_str("install"));
    argv.push(String::from_str(name));
    argv.push(String::from_str(version));
    assert(argv.deep_view() =~= asdf_install_argv(name@, version@));
    argv
}

/// The command that makes the latest version of a tool the global default.
pub fn asdf_global_command(name: &str) -> (argv: Vec<String>)
    ensures
        argv.deep_view() == asdf_global_argv(name@),
{
    let mut argv: Vec<String> = Vec::new();
    argv.push(String::from_str("asdf"));
    argv.push(String::from_str("global"));
    argv.push(String::from_str(name));
    argv.push(String::from_str("latest"));
    assert(argv.deep_view() =~= asdf_global_argv(name@));
    argv
}

/// What a run of `which` says about a tool: present when the command
/// succeeded, absent when it exited with a failure, and an error only when
/// the command could not be started.
pub open spec fn presence(run: Result<CommandResultView, Seq<char>>) -> Result<
    bool,
    InstallErrorView,
> {
    match run {
        Ok(result) => Ok(result.exit_succeeded),
        Err(detail) => Err(InstallErrorView::ProcessSpawn { detail }),
    }
}

/// What a run of a command means that performs `operation` on behalf of
/// `subject`: success when it exited with success; otherwise a failure that
/// carries the operation, the subject and the captured error output,
/// decoded lossily, or the reason why the command could not be started.
pub open spec fn completion(
    operation: Operation,
    subject: Seq<char>,
    run: Result<CommandResultView, Seq<char>>,
) -> Result<
    (),
    InstallErrorView,
> {
    match run {
        Ok(result) => if result.exit_succeeded {
            Ok(())
        } else {
            Err(
                InstallErrorView::CommandFailed {
                    operation,
                    subject,
                    stderr: utf8_lossy(result.stderr),
                },
            )
        },
        Err(detail) => Err(InstallErrorView::ProcessSpawn { detail }),
    }
}

/// The view of a result whose error is an `InstallError`.
pub open spec fn outcome_view<T>(outcome: Result<T, InstallError>) -> Result<T, InstallErrorView> {
    match outcome {
        Ok(value) => Ok(value),
        Err(error) => Err(error@),
    }
}

/// Reads the outcome of `which <package>`.
pub fn is_installed(run: Result<CommandResult, String>) -> (present: Result<bool, InstallError>)
    ensures
        outcome_view(present) == presence(run_view(run)),
{
    match run {
        Ok(result) => Ok(result.exit_succeeded),
        Err(detail) => Err(InstallError::ProcessSpawn { detail }),
    }
}

/// Reads the outcome of a command that performs `operation` on behalf of
/// `subject`. Error output that is well-formed UTF-8 is carried as the text
/// it encodes.
pub fn check_completion(
    operation: Operation,
    subject: &str,
    run: Result<CommandResult, String>,
) -> (done: Result<(), InstallError>)
    ensures
        outcome_view(done) == completion(operation, subject@, run_view(run)),
        run matches Ok(result) ==> (!result.exit_succeeded && valid_utf8(result.stderr@) ==> (
        done matches Err(InstallError::CommandFailed { stderr, .. }) && stderr@ == decode_utf8(
            result.stderr@,
        ))),
{
    match run {
        Ok(result) => {
            if result.exit_succeeded {
                Ok(())
            } else {
                Err(
                    InstallError::CommandFailed {
                        operation,
                        subject: String::from_str(subject),
                        stderr: from_utf8_lossy(result.stderr.as_slice()),
                    },
                )
            }
        },
        Err(detail) => Err(InstallError::ProcessSpawn { detail }),
    }
}

/// Reads the outcome of `sudo apt install -y <package>`.
pub fn install_package(package: &str, run: Result<CommandResult, String>) -> (done: Result<
    (),
    InstallError,
>)
    ensures
        outcome_view(done) == completion(Operation::InstallPackage, package@, run_view(run)),
        run matches Ok(result) ==> (!result.exit_succeeded && valid_utf8(result.stderr@) ==> (
        done matches Err(InstallError::CommandFailed { stderr, .. }) && stderr@ == decode_utf8(
            result.stderr@,
        ))),
{
    check_completion(Operation::InstallPackage, package, run)
}

} // verus!
