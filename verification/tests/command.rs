use starkdev::command::{
    apt_install_command, asdf_global_command, asdf_install_command, check_completion,
    git_clone_command, install_package, is_installed, plugin_add_command,
    source_profile_command, which_command, CommandResult, ASDF_REPOSITORY,
};
use starkdev::error::{InstallError, Operation};

fn exited(ok: bool, stderr: &[u8]) -> Result<CommandResult, String> {
    Ok(CommandResult { exit_succeeded: ok, stdout: Vec::new(), stderr: stderr.to_vec() })
}

#[test]
fn argument_lists_have_the_documented_shape() {
    assert_eq!(which_command("curl"), vec!["which", "curl"]);
    assert_eq!(apt_install_command("git"), vec!["sudo", "apt", "install", "-y", "git"]);
    assert_eq!(
        git_clone_command(ASDF_REPOSITORY, "/home/u/.asdf"),
        vec!["git", "clone", "https://github.com/asdf-vm/asdf.git", "/home/u/.asdf"]
    );
    assert_eq!(source_profile_command(), vec!["bash", "-c", "source ~/.bashrc"]);
    assert_eq!(plugin_add_command("scarb"), vec!["asdf", "plugin", "add", "scarb"]);
    assert_eq!(asdf_install_command("scarb", "2.6.3"), vec!["asdf", "install", "scarb", "2.6.3"]);
    assert_eq!(asdf_global_command("scarb"), vec!["asdf", "global", "scarb", "latest"]);
}

#[test]
fn argument_lists_take_any_text() {
    assert_eq!(which_command(""), vec!["which", ""]);
    assert_eq!(which_command("a b"), vec!["which", "a b"]);
}

#[test]
fn which_exit_status_tells_presence() {
    assert_eq!(is_installed(exited(true, b"")), Ok(true));
    assert_eq!(is_installed(exited(false, b"no curl in PATH")), Ok(false));
}

#[test]
fn probe_that_cannot_start_is_an_error() {
    assert_eq!(
        is_installed(Err("No such file or directory".to_string())),
        Err(InstallError::ProcessSpawn { detail: "No such file or directory".to_string() })
    );
}

#[test]
fn successful_package_install_is_ok() {
    assert_eq!(install_package("curl", exited(true, b"warning: ignored")), Ok(()));
}

#[test]
fn failed_package_install_carries_name_and_stderr() {
    assert_eq!(
        install_package("curl", exited(false, b"E: Unable to locate package curl\n")),
        Err(InstallError::CommandFailed {
            operation: Operation::InstallPackage,
            subject: "curl".to_string(),
            stderr: "E: Unable to locate package curl\n".to_string(),
        })
    );
}

#[test]
fn package_install_that_cannot_start_is_a_spawn_error() {
    assert_eq!(
        install_package("curl", Err("sudo: not found".to_string())),
        Err(InstallError::ProcessSpawn { detail: "sudo: not found".to_string() })
    );
}

#[test]
fn ill_formed_stderr_is_decoded_lossily() {
    assert_eq!(
        install_package("git", exited(false, &[0x66, 0xff, 0x6f])),
        Err(InstallError::CommandFailed {
            operation: Operation::InstallPackage,
            subject: "git".to_string(),
            stderr: "f\u{fffd}o".to_string(),
        })
    );
}

#[test]
fn multibyte_stderr_is_decoded() {
    assert_eq!(
        check_completion(Operation::AddPlugin, "scarb", exited(false, "échec".as_bytes())),
        Err(InstallError::CommandFailed {
            operation: Operation::AddPlugin,
            subject: "scarb".to_string(),
            stderr: "échec".to_string(),
        })
    );
}

#[test]
fn completion_keeps_the_operation() {
    let failed = check_completion(Operation::InstallVersion, "scarb", exited(false, b"x"));
    let other = check_completion(Operation::AddPlugin, "scarb", exited(false, b"x"));
    assert_ne!(failed, other);
    assert_eq!(check_completion(Operation::CloneRepository, "asdf", exited(true, b"")), Ok(()));
}
