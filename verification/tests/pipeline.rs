use starkdev::command::CommandResult;
use starkdev::error::{InstallError, Operation};
use starkdev::pipeline::{
    install_asdf, install_scarb, install_snfoundry, install_toolchain, starknet_install, Action,
    AsdfStage, Event, Outcome, Pipeline, Stage, Toolchain, ToolchainStage, HOME_UNSET,
};
use starkdev::prompt::{prompt_user, InstallRequest, Version};

fn ok() -> Event {
    Event::Ran(Ok(CommandResult { exit_succeeded: true, stdout: Vec::new(), stderr: Vec::new() }))
}

fn failed(stderr: &str) -> Event {
    Event::Ran(Ok(CommandResult {
        exit_succeeded: false,
        stdout: Vec::new(),
        stderr: stderr.as_bytes().to_vec(),
    }))
}

fn not_started(detail: &str) -> Event {
    Event::Ran(Err(detail.to_string()))
}

fn said(line: &str) -> Event {
    Event::Answered(Ok(line.to_string()))
}

fn run(words: &[&str]) -> Action {
    Action::Run(words.iter().map(|word| word.to_string()).collect())
}

fn begin(version_line: &str, home: Option<&str>) -> (Pipeline, Action) {
    let request = InstallRequest::new(false, &prompt_user(version_line));
    starknet_install(request, home.map(|dir| dir.to_string()))
}

fn command_failed(operation: Operation, subject: &str, stderr: &str) -> InstallError {
    InstallError::CommandFailed {
        operation,
        subject: subject.to_string(),
        stderr: stderr.to_string(),
    }
}

fn drive(pipeline: &mut Pipeline, events: Vec<Event>) -> Vec<Option<Action>> {
    events.into_iter().map(|event| pipeline.advance(event)).collect()
}

#[test]
fn pipeline_starts_by_probing_for_curl() {
    let (pipeline, action) = begin("\n", Some("/home/u"));
    assert_eq!(action, run(&["which", "curl"]));
    assert_eq!(pipeline.stage, Stage::VersionManager(AsdfStage::ProbeCurl));
    assert_eq!(pipeline.home, Some("/home/u".to_string()));
    assert!(!pipeline.has_ended());
}

#[test]
fn everything_present_installs_nothing() {
    let (mut pipeline, _) = begin("\n", Some("/home/u"));
    let actions = drive(&mut pipeline, vec![ok(), ok(), ok(), ok(), ok()]);
    assert_eq!(
        actions,
        vec![
            Some(run(&["which", "git"])),
            Some(run(&["which", "asdf"])),
            Some(run(&["which", "scarb"])),
            Some(run(&["which", "snforge"])),
            Some(Action::Finish),
        ]
    );
    assert_eq!(pipeline.stage, Stage::Done);
    assert!(pipeline.has_ended());
    assert_eq!(pipeline.advance(ok()), None);
}

#[test]
fn everything_absent_is_installed_in_order() {
    let (mut pipeline, first) = begin("2.6.3\n", Some("/home/u"));
    assert_eq!(first, run(&["which", "curl"]));
    let actions = drive(
        &mut pipeline,
        vec![
            failed(""),
            ok(),
            failed(""),
            ok(),
            failed(""),
            ok(),
            said("y"),
            Event::Configured(Ok(())),
            ok(),
            failed(""),
            ok(),
            ok(),
            ok(),
            failed(""),
            ok(),
            ok(),
        ],
    );
    assert_eq!(
        actions,
        vec![
            Some(run(&["sudo", "apt", "install", "-y", "curl"])),
            Some(run(&["which", "git"])),
            Some(run(&["sudo", "apt", "install", "-y", "git"])),
            Some(run(&["which", "asdf"])),
            Some(run(&["git", "clone", "https://github.com/asdf-vm/asdf.git", "/home/u/.asdf"])),
            Some(Action::AskProfileEdit),
            Some(Action::ConfigureProfile { path: "/home/u/.bashrc".to_string() }),
            Some(run(&["bash", "-c", "source ~/.bashrc"])),
            Some(run(&["which", "scarb"])),
            Some(run(&["asdf", "plugin", "add", "scarb"])),
            Some(run(&["asdf", "install", "scarb", "2.6.3"])),
            Some(run(&["asdf", "global", "scarb", "latest"])),
            Some(run(&["which", "snforge"])),
            Some(run(&["asdf", "plugin", "add", "starknet-foundry"])),
            Some(run(&["asdf", "install", "starknet-foundry", "latest"])),
            Some(Action::Finish),
        ]
    );
    assert_eq!(pipeline.stage, Stage::Done);
}

#[test]
fn empty_version_answer_installs_latest() {
    let (mut pipeline, _) = begin("", Some("/home/u"));
    assert_eq!(pipeline.request.toolchain_version, Version::Latest);
    let actions = drive(&mut pipeline, vec![ok(), ok(), ok(), failed(""), ok()]);
    assert_eq!(actions[4], Some(run(&["asdf", "install", "scarb", "latest"])));
}

#[test]
fn declining_the_profile_edit_exits() {
    let (mut pipeline, _) = begin("\n", Some("/home/u"));
    let actions = drive(&mut pipeline, vec![ok(), ok(), failed(""), ok(), said("n")]);
    assert_eq!(actions[3], Some(Action::AskProfileEdit));
    assert_eq!(actions[4], Some(Action::Exit));
    assert_eq!(pipeline.stage, Stage::Exited);
    assert!(pipeline.has_ended());
    assert_eq!(pipeline.advance(Event::Configured(Ok(()))), None);
    assert_eq!(pipeline.advance(ok()), None);
    assert_eq!(pipeline.stage, Stage::Exited);
}

#[test]
fn anything_but_y_declines() {
    for answer in ["", "Y", "yes", "no", "y n"] {
        let home = Some("/h".to_string());
        assert_eq!(
            install_asdf(AsdfStage::AskProfile, said(answer), &home),
            Some(Outcome::Declined)
        );
    }
    let home = Some("/h".to_string());
    assert_eq!(
        install_asdf(AsdfStage::AskProfile, said(" y "), &home),
        Some(Outcome::Next(
            AsdfStage::ConfigureProfile,
            Action::ConfigureProfile { path: "/h/.bashrc".to_string() }
        ))
    );
}

#[test]
fn failed_package_install_aborts_the_run() {
    let (mut pipeline, _) = begin("\n", Some("/home/u"));
    let actions = drive(&mut pipeline, vec![failed(""), failed("E: no candidate\n")]);
    assert_eq!(actions[0], Some(run(&["sudo", "apt", "install", "-y", "curl"])));
    assert_eq!(
        actions[1],
        Some(Action::Abort(command_failed(Operation::InstallPackage, "curl", "E: no candidate\n")))
    );
    assert_eq!(pipeline.stage, Stage::Failed);
    assert!(pipeline.has_ended());
    assert_eq!(pipeline.advance(ok()), None);
    assert_eq!(pipeline.advance(failed("")), None);
    assert_eq!(pipeline.stage, Stage::Failed);
}

#[test]
fn failed_git_install_names_git() {
    let (mut pipeline, _) = begin("\n", None);
    let actions = drive(&mut pipeline, vec![ok(), failed(""), failed("locked")]);
    assert_eq!(
        actions[2],
        Some(Action::Abort(command_failed(Operation::InstallPackage, "git", "locked")))
    );
}

#[test]
fn unknown_home_fails_only_when_the_clone_needs_it() {
    let (mut pipeline, _) = begin("\n", None);
    let actions = drive(&mut pipeline, vec![ok(), ok(), ok()]);
    assert_eq!(actions[2], Some(run(&["which", "scarb"])));

    let (mut pipeline, _) = begin("\n", None);
    let actions = drive(&mut pipeline, vec![ok(), ok(), failed("")]);
    assert_eq!(
        actions[2],
        Some(Action::Abort(InstallError::Io { detail: HOME_UNSET.to_string() }))
    );
    assert_eq!(HOME_UNSET, "environment variable not found");
    assert_eq!(pipeline.stage, Stage::Failed);
}

#[test]
fn failed_clone_aborts_with_its_stderr() {
    let home = Some("/h".to_string());
    assert_eq!(
        install_asdf(AsdfStage::CloneAsdf, failed("fatal: unable to access"), &home),
        Some(Outcome::Failed(command_failed(
            Operation::CloneRepository,
            "asdf",
            "fatal: unable to access"
        )))
    );
}

#[test]
fn profile_errors_abort() {
    let home = Some("/h".to_string());
    assert_eq!(
        install_asdf(AsdfStage::ConfigureProfile, Event::Configured(Err("denied".to_string())), &home),
        Some(Outcome::Failed(InstallError::Io { detail: "denied".to_string() }))
    );
    assert_eq!(
        install_asdf(AsdfStage::AskProfile, Event::Answered(Err("closed".to_string())), &home),
        Some(Outcome::Failed(InstallError::Io { detail: "closed".to_string() }))
    );
    assert_eq!(
        install_asdf(AsdfStage::SourceProfile, failed("bad"), &home),
        Some(Outcome::Failed(command_failed(Operation::SourceProfile, "asdf", "bad")))
    );
    assert_eq!(install_asdf(AsdfStage::SourceProfile, ok(), &home), Some(Outcome::Installed));
}

#[test]
fn event_that_answers_nothing_is_refused() {
    let (mut pipeline, _) = begin("\n", Some("/home/u"));
    assert_eq!(pipeline.advance(said("y")), None);
    assert_eq!(pipeline.advance(Event::Configured(Ok(()))), None);
    assert_eq!(pipeline.stage, Stage::VersionManager(AsdfStage::ProbeCurl));
    assert_eq!(pipeline.advance(ok()), Some(run(&["which", "git"])));
    let home = Some("/h".to_string());
    assert_eq!(install_asdf(AsdfStage::AskProfile, ok(), &home), None);
    assert_eq!(install_asdf(AsdfStage::ConfigureProfile, said("y"), &home), None);
    assert_eq!(install_scarb("1.0.0", ToolchainStage::Probe, said("y")), None);
    assert_eq!(install_snfoundry(ToolchainStage::Install, Event::Configured(Ok(()))), None);
}

#[test]
fn probe_that_cannot_start_aborts() {
    let (mut pipeline, _) = begin("\n", Some("/home/u"));
    assert_eq!(
        pipeline.advance(not_started("which: not found")),
        Some(Action::Abort(InstallError::ProcessSpawn { detail: "which: not found".to_string() }))
    );
    assert_eq!(pipeline.stage, Stage::Failed);
}

#[test]
fn present_toolchain_is_not_installed_again() {
    assert_eq!(install_scarb("2.6.3", ToolchainStage::Probe, ok()), Some(Outcome::Installed));
    assert_eq!(install_snfoundry(ToolchainStage::Probe, ok()), Some(Outcome::Installed));
}

#[test]
fn failed_plugin_registration_names_the_plugin() {
    assert_eq!(
        install_scarb("2.6.3", ToolchainStage::AddPlugin, failed("already added")),
        Some(Outcome::Failed(command_failed(Operation::AddPlugin, "scarb", "already added")))
    );
    assert_eq!(
        install_snfoundry(ToolchainStage::AddPlugin, failed("no network")),
        Some(Outcome::Failed(command_failed(
            Operation::AddPlugin,
            "starknet-foundry",
            "no network"
        )))
    );
}

#[test]
fn failed_version_install_is_never_passed_over() {
    for version in ["latest", "2.6.3", "", "not a version"] {
        assert_eq!(
            install_scarb(version, ToolchainStage::Install, failed("no such version")),
            Some(Outcome::Failed(command_failed(
                Operation::InstallVersion,
                "scarb",
                "no such version"
            )))
        );
    }
    assert_eq!(
        install_snfoundry(ToolchainStage::Install, failed("boom")),
        Some(Outcome::Failed(command_failed(
            Operation::InstallVersion,
            "starknet-foundry",
            "boom"
        )))
    );
}

#[test]
fn global_default_is_best_effort() {
    assert_eq!(
        install_scarb("2.6.3", ToolchainStage::Install, ok()),
        Some(Outcome::Next(ToolchainStage::SetGlobal, run(&["asdf", "global", "scarb", "latest"])))
    );
    assert_eq!(
        install_scarb("2.6.3", ToolchainStage::SetGlobal, failed("no version set")),
        Some(Outcome::Installed)
    );
    assert_eq!(install_scarb("2.6.3", ToolchainStage::SetGlobal, ok()), Some(Outcome::Installed));
    assert_eq!(
        install_scarb("2.6.3", ToolchainStage::SetGlobal, not_started("gone")),
        Some(Outcome::Failed(InstallError::ProcessSpawn { detail: "gone".to_string() }))
    );
}

#[test]
fn testing_framework_has_no_global_step() {
    assert_eq!(install_snfoundry(ToolchainStage::Install, ok()), Some(Outcome::Installed));
}

#[test]
fn toolchain_plans_are_as_documented() {
    let scarb = Toolchain::scarb("1.2.3");
    assert_eq!(scarb.plugin, "scarb");
    assert_eq!(scarb.binary, "scarb");
    assert_eq!(scarb.version, "1.2.3");
    assert!(scarb.set_global);
    assert_eq!(scarb.start(), run(&["which", "scarb"]));
    let snfoundry = Toolchain::snfoundry();
    assert_eq!(snfoundry.plugin, "starknet-foundry");
    assert_eq!(snfoundry.binary, "snforge");
    assert_eq!(snfoundry.version, "latest");
    assert!(!snfoundry.set_global);
    assert_eq!(snfoundry.start(), run(&["which", "snforge"]));
}

#[test]
fn any_plan_is_installed_the_same_way() {
    let plan = Toolchain {
        plugin: "nodejs".to_string(),
        binary: "node".to_string(),
        version: "20.1.0".to_string(),
        set_global: false,
    };
    assert_eq!(plan.start(), run(&["which", "node"]));
    assert_eq!(
        install_toolchain(&plan, ToolchainStage::Probe, failed("")),
        Some(Outcome::Next(ToolchainStage::AddPlugin, run(&["asdf", "plugin", "add", "nodejs"])))
    );
    assert_eq!(
        install_toolchain(&plan, ToolchainStage::AddPlugin, ok()),
        Some(Outcome::Next(
            ToolchainStage::Install,
            run(&["asdf", "install", "nodejs", "20.1.0"])
        ))
    );
    assert_eq!(install_toolchain(&plan, ToolchainStage::Install, ok()), Some(Outcome::Installed));
}

#[test]
fn failed_scarb_install_stops_before_the_testing_framework() {
    let (mut pipeline, _) = begin("9.9.9\n", Some("/home/u"));
    let actions = drive(&mut pipeline, vec![ok(), ok(), ok(), failed(""), ok(), failed("nope"), ok()]);
    assert_eq!(actions[4], Some(run(&["asdf", "install", "scarb", "9.9.9"])));
    assert_eq!(
        actions[5],
        Some(Action::Abort(command_failed(Operation::InstallVersion, "scarb", "nope")))
    );
    assert_eq!(actions[6], None);
    assert_eq!(pipeline.stage, Stage::Failed);
}
