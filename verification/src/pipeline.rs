//! The installation pipeline as a state machine. The driver performs the
//! action the machine asks for and reports the outcome as an event; the
//! machine answers with the next action. Version manager, toolchain and
//! testing framework are installed in this order, each only where it is
//! absent, and the first failure ends the run.

use crate::command::{
    apt_install_argv, apt_install_command, asdf_global_argv, asdf_global_command,
    asdf_install_argv, asdf_install_command, check_completion, completion, git_clone_argv,
    git_clone_command, is_installed, plugin_add_argv, plugin_add_command, presence, run_view,
    source_profile_argv, source_profile_command, which_argv, which_command, CommandResult,
    CommandResultView, ASDF_REPOSITORY,
};
use crate::error::{InstallError, InstallErrorView, Operation};
use crate::prompt::{
    affirmative, is_affirmative, version_text, InstallRequest, InstallRequestView, LATEST,
};
use vstd::prelude::*;

verus! {

/// What the driver is to do next.
#[derive(PartialEq, Eq, Debug)]
pub enum Action {
    /// Run the command with this argument list and report how it went.
    Run(Vec<String>),
    /// Put `PROFILE_QUESTION` to the user and report the answer.
    AskProfileEdit,
    /// Bring the profile at `path` up to date and report whether that
    /// worked.
    ConfigureProfile { path: String },
    /// Tell the user how to edit the profile by hand and leave with exit
    /// status 0.
    Exit,
    /// Everything is installed.
    Finish,
    /// Stop with this error.
    Abort(InstallError),
}

/// The mathematical content of an `Action`.
pub enum ActionView {
    Run(Seq<Seq<char>>),
    AskProfileEdit,
    ConfigureProfile { path: Seq<char> },
    Exit,
    Finish,
    Abort(InstallErrorView),
}

impl View for Action {
    type V = ActionView;

    open spec fn view(&self) -> ActionView {
        match *self {
            Action::Run(argv) => ActionView::Run(argv.deep_view()),
            Action::AskProfileEdit => ActionView::AskProfileEdit,
            Action::ConfigureProfile { path } => ActionView::ConfigureProfile { path: path@ },
            Action::Exit => ActionView::Exit,
            Action::Finish => ActionView::Finish,
            Action::Abort(error) => ActionView::Abort(error@),
        }
    }
}

/// What the driver reports back. Each error holds the reason as text.
#[derive(Debug)]
pub enum Event {
    /// The command was run, or could not be started.
    Ran(Result<CommandResult, String>),
    /// The user answered, or the answer could not be read.
    Answered(Result<String, String>),
    /// The profile is up to date, or could not be read or written.
    Configured(Result<(), String>),
}

/// The mathematical content of an `Event`.
pub enum EventView {
    Ran(Result<CommandResultView, Seq<char>>),
    Answered(Result<Seq<char>, Seq<char>>),
    Configured(Result<(), Seq<char>>),
}

impl View for Event {
    type V = EventView;

    open spec fn view(&self) -> EventView {
        match *self {
            Event::Ran(run) => EventView::Ran(run_view(run)),
            Event::Answered(answer) => EventView::Answered(
                match answer {
                    Ok(line) => Ok(line@),
                    Err(detail) => Err(detail@),
                },
            ),
            Event::Configured(done) => EventView::Configured(
                match done {
                    Ok(()) => Ok(()),
                    Err(detail) => Err(detail@),
                },
            ),
        }
    }
}

/// Where an installer stands after an event.
#[derive(PartialEq, Eq, Debug)]
pub enum Outcome<S> {
    /// It moved to a further stage and asks for an action.
    Next(S, Action),
    /// Its tool is installed.
    Installed,
    /// The user chose to finish the set-up by hand.
    Declined,
    /// It failed.
    Failed(InstallError),
}

/// The mathematical content of an `Outcome`.
pub enum OutcomeView<S> {
    Next(S, ActionView),
    Installed,
    Declined,
    Failed(InstallErrorView),
}

impl<S> View for Outcome<S> {
    type V = OutcomeView<S>;

    open spec fn view(&self) -> OutcomeView<S> {
        match *self {
            Outcome::Next(stage, action) => OutcomeView::Next(stage, action@),
            Outcome::Installed => OutcomeView::Installed,
            Outcome::Declined => OutcomeView::Declined,
            Outcome::Failed(error) => OutcomeView::Failed(error@),
        }
    }
}

/// The view of an installer's answer to an event: `None` where the event
/// does not answer what the installer asked for.
pub open spec fn answer_view<S>(answer: Option<Outcome<S>>) -> Option<OutcomeView<S>> {
    match answer {
        Some(outcome) => Some(outcome@),
        None => None,
    }
}

/// The stages of installing the version manager, each named after what it
/// waits for.
#[derive(Clone, Copy, PartialEq, Eq, Debug)]
pub enum AsdfStage {
    ProbeCurl,
    InstallCurl,
    ProbeGit,
    InstallGit,
    ProbeAsdf,
    CloneAsdf,
    AskProfile,
    ConfigureProfile,
    SourceProfile,
}

/// The stages of installing a tool through a plugin of the version
/// manager.
#[derive(Clone, Copy, PartialEq, Eq, Debug)]
pub enum ToolchainStage {
    Probe,
    AddPlugin,
    Install,
    SetGlobal,
}

/// The download tool the version manager needs.
pub const CURL: &'static str = "curl";

/// The tool that clones the version manager's sources.
pub const GIT: &'static str = "git";

/// The version manager.
pub const ASDF: &'static str = "asdf";

/// The toolchain's plugin, which is also the name of its executable.
pub const SCARB: &'static str = "scarb";

/// The testing framework's plugin.
pub const STARKNET_FOUNDRY: &'static str = "starknet-foundry";

/// The testing framework's executable.
pub const SNFORGE: &'static str = "snforge";

/// The reason given when the home directory is not known.
pub const HOME_UNSET: &'static str = "environment variable not found";

/// The directory the version manager is cloned into.
pub open spec fn asdf_dir(home: Seq<char>) -> Seq<char> {
    home + "/.asdf"@
}

/// The profile file.
pub open spec fn profile_path(home: Seq<char>) -> Seq<char> {
    home + "/.bashrc"@
}

/// The directory the version manager is cloned into.
pub fn asdf_dir_in(home: &str) -> (dir: String)
    ensures
        dir@ == asdf_dir(home@),
{
    String::from_str(home).concat("/.asdf")
}

/// The profile file.
pub fn profile_path_in(home: &str) -> (path: String)
    ensures
        path@ == profile_path(home@),
{
    String::from_str(home).concat("/.bashrc")
}

/// The outcome that goes on to `stage` by running `argv`.
pub open spec fn run_next<S>(stage: S, argv: Seq<Seq<char>>) -> OutcomeView<S> {
    OutcomeView::Next(stage, ActionView::Run(argv))
}

/// What follows the probe for a system package: on to `then` where it is
/// present, its installation where it is absent.
pub open spec fn after_package_probe(
    run: Result<CommandResultView, Seq<char>>,
    package: Seq<char>,
    install: AsdfStage,
    then: OutcomeView<AsdfStage>,
) -> OutcomeView<AsdfStage> {
    match presence(run) {
        Err(error) => OutcomeView::Failed(error),
        Ok(true) => then,
        Ok(false) => run_next(install, apt_install_argv(package)),
    }
}

/// What follows a command that must succeed: on to `then` where it did,
/// failure where it did not.
pub open spec fn after_gate<S>(
    operation: Operation,
    subject: Seq<char>,
    run: Result<CommandResultView, Seq<char>>,
    then: OutcomeView<S>,
) -> OutcomeView<S> {
    match completion(operation, subject, run) {
        Err(error) => OutcomeView::Failed(error),
        Ok(()) => then,
    }
}

/// The failure of a step that needs the home directory where it is not
/// known.
pub open spec fn home_unset<S>() -> OutcomeView<S> {
    OutcomeView::Failed(InstallErrorView::Io { detail: HOME_UNSET@ })
}

/// One step of the version manager's installer: `None` where the event
/// does not answer what the stage waits for.
///
/// curl and git are each probed for and installed where absent. The
/// version manager is probed for; where present, nothing more is done.
/// Otherwise its sources are cloned into the home directory and the user
/// is asked whether the profile may be edited: after `y` the profile is
/// brought up to date and sourced again, after anything else the
/// installer ends with `Declined`. Any failure ends it.
pub open spec fn asdf_step(stage: AsdfStage, event: EventView, home: Option<Seq<char>>) -> Option<
    OutcomeView<AsdfStage>,
> {
    let probe_git = run_next(AsdfStage::ProbeGit, which_argv(GIT@));
    let probe_asdf = run_next(AsdfStage::ProbeAsdf, which_argv(ASDF@));
    match stage {
        AsdfStage::ProbeCurl => match event {
            EventView::Ran(run) => Some(
                after_package_probe(run, CURL@, AsdfStage::InstallCurl, probe_git),
            ),
            _ => None,
        },
        AsdfStage::InstallCurl => match event {
            EventView::Ran(run) => Some(
                after_gate(Operation::InstallPackage, CURL@, run, probe_git),
            ),
            _ => None,
        },
        AsdfStage::ProbeGit => match event {
            EventView::Ran(run) => Some(
                after_package_probe(run, GIT@, AsdfStage::InstallGit, probe_asdf),
            ),
            _ => None,
        },
        AsdfStage::InstallGit => match event {
            EventView::Ran(run) => Some(
                after_gate(Operation::InstallPackage, GIT@, run, probe_asdf),
            ),
            _ => None,
        },
        AsdfStage::ProbeAsdf => match event {
            EventView::Ran(run) => Some(
                match presence(run) {
                    Err(error) => OutcomeView::Failed(error),
                    Ok(true) => OutcomeView::Installed,
                    Ok(false) => match home {
                        Some(dir) => run_next(
                            AsdfStage::CloneAsdf,
                            git_clone_argv(ASDF_REPOSITORY@, asdf_dir(dir)),
                        ),
                        None => home_unset(),
                    },
                },
            ),
            _ => None,
        },
        AsdfStage::CloneAsdf => match event {
            EventView::Ran(run) => Some(
                after_gate(
                    Operation::CloneRepository,
                    ASDF@,
                    run,
                    OutcomeView::Next(AsdfStage::AskProfile, ActionView::AskProfileEdit),
                ),
            ),
            _ => None,
        },
        AsdfStage::AskProfile => match event {
            EventView::Answered(Ok(answer)) => Some(
                if !affirmative(answer) {
                    OutcomeView::Declined
                } else {
                    match home {
                        Some(dir) => OutcomeView::Next(
                            AsdfStage::ConfigureProfile,
                            ActionView::ConfigureProfile { path: profile_path(dir) },
                        ),
                        None => home_unset(),
                    }
                },
            ),
            EventView::Answered(Err(detail)) => Some(
                OutcomeView::Failed(InstallErrorView::Io { detail }),
            ),
            _ => None,
        },
        AsdfStage::ConfigureProfile => match event {
            EventView::Configured(Ok(())) => Some(
                run_next(AsdfStage::SourceProfile, source_profile_argv()),
            ),
            EventView::Configured(Err(detail)) => Some(
                OutcomeView::Failed(InstallErrorView::Io { detail }),
            ),
            _ => None,
        },
        AsdfStage::SourceProfile => match event {
            EventView::Ran(run) => Some(
                after_gate(Operation::SourceProfile, ASDF@, run, OutcomeView::Installed),
            ),
            _ => None,
        },
    }
}

/// A tool that the version manager installs through a plugin.
#[derive(Debug)]
pub struct Toolchain {
    /// The plugin's name, under which the tool is installed.
    pub plugin: String,
    /// The executable whose presence shows that the tool is installed.
    pub binary: String,
    /// The version to install.
    pub version: String,
    /// Whether the latest version is afterwards made the global default.
    pub set_global: bool,
}

/// The mathematical content of a `Toolchain`.
pub struct ToolchainView {
    pub plugin: Seq<char>,
    pub binary: Seq<char>,
    pub version: Seq<char>,
    pub set_global: bool,
}

impl View for Toolchain {
    type V = ToolchainView;

    open spec fn view(&self) -> ToolchainView {
        ToolchainView {
            plugin: self.plugin@,
            binary: self.binary@,
            version: self.version@,
            set_global: self.set_global,
        }
    }
}

/// The toolchain in the version asked for.
pub open spec fn scarb_plan(version: Seq<char>) -> ToolchainView {
    ToolchainView { plugin: SCARB@, binary: SCARB@, version, set_global: true }
}

/// The testing framework, always in its latest version.
pub open spec fn snfoundry_plan() -> ToolchainView {
    ToolchainView {
        plugin: STARKNET_FOUNDRY@,
        binary: SNFORGE@,
        version: LATEST@,
        set_global: false,
    }
}

/// The action a plugin-based installer starts with: the probe for the
/// tool's executable.
pub open spec fn toolchain_start(plan: ToolchainView) -> ActionView {
    ActionView::Run(which_argv(plan.binary))
}

/// One step of a plugin-based installer: `None` where the event does not
/// answer what the stage waits for.
///
/// Where the executable is present nothing more is done. Otherwise the
/// plugin is registered and the version installed, and either failure
/// ends the installer with an error that names the plugin. Where the plan
/// asks for it, the latest version is then made the global default; how
/// that command exits does not matter.
pub open spec fn toolchain_step(plan: ToolchainView, stage: ToolchainStage, event: EventView) -> Option<
    OutcomeView<ToolchainStage>,
> {
    match event {
        EventView::Ran(run) => Some(
            match stage {
                ToolchainStage::Probe => match presence(run) {
                    Err(error) => OutcomeView::Failed(error),
                    Ok(true) => OutcomeView::Installed,
                    Ok(false) => run_next(ToolchainStage::AddPlugin, plugin_add_argv(plan.plugin)),
                },
                ToolchainStage::AddPlugin => after_gate(
                    Operation::AddPlugin,
                    plan.plugin,
                    run,
                    run_next(
                        ToolchainStage::Install,
                        asdf_install_argv(plan.plugin, plan.version),
                    ),
                ),
                ToolchainStage::Install => after_gate(
                    Operation::InstallVersion,
                    plan.plugin,
                    run,
                    if plan.set_global {
                        run_next(ToolchainStage::SetGlobal, asdf_global_argv(plan.plugin))
                    } else {
                        OutcomeView::Installed
                    },
                ),
                ToolchainStage::SetGlobal => match run {
                    Ok(_) => OutcomeView::Installed,
                    Err(detail) => OutcomeView::Failed(InstallErrorView::ProcessSpawn { detail }),
                },
            },
        ),
        _ => None,
    }
}

/// Goes on to `stage` by probing for `tool`.
fn probe<S>(stage: S, tool: &str) -> (outcome: Outcome<S>)
    ensures
        outcome@ == run_next(stage, which_argv(tool@)),
{
    Outcome::Next(stage, Action::Run(which_command(tool)))
}

/// Reads the probe for a system package.
fn ensure_package(
    run: Result<CommandResult, String>,
    package: &str,
    install: AsdfStage,
    then: Outcome<AsdfStage>,
) -> (outcome: Outcome<AsdfStage>)
    ensures
        outcome@ == after_package_probe(run_view(run), package@, install, then@),
{
    match is_installed(run) {
        Err(error) => Outcome::Failed(error),
        Ok(true) => then,
        Ok(false) => Outcome::Next(install, Action::Run(apt_install_command(package))),
    }
}

/// Reads the outcome of a command that must succeed.
fn gate<S>(
    operation: Operation,
    subject: &str,
    run: Result<CommandResult, String>,
    then: Outcome<S>,
) -> (outcome: Outcome<S>)
    ensures
        outcome@ == after_gate(operation, subject@, run_view(run), then@),
{
    match check_completion(operation, subject, run) {
        Err(error) => Outcome::Failed(error),
        Ok(()) => then,
    }
}

/// The failure of a step that needs the home directory where it is not
/// known.
fn fail_home_unset<S>() -> (outcome: Outcome<S>)
    ensures
        outcome@ == home_unset::<S>(),
{
    Outcome::Failed(InstallError::Io { detail: String::from_str(HOME_UNSET) })
}

/// Installs the version manager, one step at a time: given the stage the
/// installer waits in, the event that came, and the home directory where
/// it is known, says how the installer goes on.
pub fn install_asdf(stage: AsdfStage, event: Event, home: &Option<String>) -> (answer: Option<
    Outcome<AsdfStage>,
>)
    ensures
        answer_view(answer) == asdf_step(stage, event@, home.deep_view()),
{
    match stage {
        AsdfStage::ProbeCurl => match event {
            Event::Ran(run) => Some(
                ensure_package(run, CURL, AsdfStage::InstallCurl, probe(AsdfStage::ProbeGit, GIT)),
            ),
            _ => None,
        },
        AsdfStage::InstallCurl => match event {
            Event::Ran(run) => Some(
                gate(Operation::InstallPackage, CURL, run, probe(AsdfStage::ProbeGit, GIT)),
            ),
            _ => None,
        },
        AsdfStage::ProbeGit => match event {
            Event::Ran(run) => Some(
                ensure_package(run, GIT, AsdfStage::InstallGit, probe(AsdfStage::ProbeAsdf, ASDF)),
            ),
            _ => None,
        },
        AsdfStage::InstallGit => match event {
            Event::Ran(run) => Some(
                gate(Operation::InstallPackage, GIT, run, probe(AsdfStage::ProbeAsdf, ASDF)),
            ),
            _ => None,
        },
        AsdfStage::ProbeAsdf => match event {
            Event::Ran(run) => Some(
                match is_installed(run) {
                    Err(error) => Outcome::Failed(error),
                    Ok(true) => Outcome::Installed,
                    Ok(false) => match home {
                        Some(dir) => {
                            let dest = asdf_dir_in(dir.as_str());
                            Outcome::Next(
                                AsdfStage::CloneAsdf,
                                Action::Run(git_clone_command(ASDF_REPOSITORY, dest.as_str())),
                            )
                        },
                        None => fail_home_unset(),
                    },
                },
            ),
            _ => None,
        },
        AsdfStage::CloneAsdf => match event {
            Event::Ran(run) => Some(
                gate(
                    Operation::CloneRepository,
                    ASDF,
                    run,
                    Outcome::Next(AsdfStage::AskProfile, Action::AskProfileEdit),
                ),
            ),
            _ => None,
        },
        AsdfStage::AskProfile => match event {
            Event::Answered(Ok(answer)) => Some(
                if !is_affirmative(answer.as_str()) {
                    Outcome::Declined
                } else {
                    match home {
                        Some(dir) => Outcome::Next(
                            AsdfStage::ConfigureProfile,
                            Action::ConfigureProfile { path: profile_path_in(dir.as_str()) },
                        ),
                        None => fail_home_unset(),
                    }
                },
            ),
            Event::Answered(Err(detail)) => Some(Outcome::Failed(InstallError::Io { detail })),
            _ => None,
        },
        AsdfStage::ConfigureProfile => match event {
            Event::Configured(Ok(())) => Some(
                Outcome::Next(AsdfStage::SourceProfile, Action::Run(source_profile_command())),
            ),
            Event::Configured(Err(detail)) => Some(Outcome::Failed(InstallError::Io { detail })),
            _ => None,
        },
        AsdfStage::SourceProfile => match event {
            Event::Ran(run) => Some(gate(Operation::SourceProfile, ASDF, run, Outcome::Installed)),
            _ => None,
        },
    }
}

impl Toolchain {
    /// The toolchain in the version asked for.
    pub fn scarb(version: &str) -> (plan: Toolchain)
        ensures
            plan@ == scarb_plan(version@),
    {
        Toolchain {
            plugin: String::from_str(SCARB),
            binary: String::from_str(SCARB),
            version: String::from_str(version),
            set_global: true,
        }
    }

    /// The testing framework, always in its latest version.
    pub fn snfoundry() -> (plan: Toolchain)
        ensures
            plan@ == snfoundry_plan(),
    {
        Toolchain {
            plugin: String::from_str(STARKNET_FOUNDRY),
            binary: String::from_str(SNFORGE),
            version: String::from_str(LATEST),
            set_global: false,
        }
    }

    /// The action the installer of this tool starts with.
    pub fn start(&self) -> (action: Action)
        ensures
            action@ == toolchain_start(self@),
    {
        Action::Run(which_command(self.binary.as_str()))
    }
}

/// Installs a tool through its plugin, one step at a time: given the
/// stage the installer waits in and the event that came, says how the
/// installer goes on.
pub fn install_toolchain(plan: &Toolchain, stage: ToolchainStage, event: Event) -> (answer: Option<
    Outcome<ToolchainStage>,
>)
    ensures
        answer_view(answer) == toolchain_step(plan@, stage, event@),
{
    match event {
        Event::Ran(run) => Some(
            match stage {
                ToolchainStage::Probe => match is_installed(run) {
                    Err(error) => Outcome::Failed(error),
                    Ok(true) => Outcome::Installed,
                    Ok(false) => Outcome::Next(
                        ToolchainStage::AddPlugin,
                        Action::Run(plugin_add_command(plan.plugin.as_str())),
                    ),
                },
                ToolchainStage::AddPlugin => gate(
                    Operation::AddPlugin,
                    plan.plugin.as_str(),
                    run,
                    Outcome::Next(
                        ToolchainStage::Install,
                        Action::Run(
                            asdf_install_command(plan.plugin.as_str(), plan.version.as_str()),
                        ),
                    ),
                ),
                ToolchainStage::Install => gate(
                    Operation::InstallVersion,
                    plan.plugin.as_str(),
                    run,
                    if plan.set_global {
                        Outcome::Next(
                            ToolchainStage::SetGlobal,
                            Action::Run(asdf_global_command(plan.plugin.as_str())),
                        )
                    } else {
                        Outcome::Installed
                    },
                ),
                ToolchainStage::SetGlobal => match run {
                    Ok(_) => Outcome::Installed,
                    Err(detail) => Outcome::Failed(InstallError::ProcessSpawn { detail }),
                },
            },
        ),
        _ => None,
    }
}

/// Installs the toolchain in the given version, one step at a time.
pub fn install_scarb(version: &str, stage: ToolchainStage, event: Event) -> (answer: Option<
    Outcome<ToolchainStage>,
>)
    ensures
        answer_view(answer) == toolchain_step(scarb_plan(version@), stage, event@),
{
    install_toolchain(&Toolchain::scarb(version), stage, event)
}

/// Installs the testing framework, one step at a time.
pub fn install_snfoundry(stage: ToolchainStage, event: Event) -> (answer: Option<
    Outcome<ToolchainStage>,
>)
    ensures
        answer_view(answer) == toolchain_step(snfoundry_plan(), stage, event@),
{
    install_toolchain(&Toolchain::snfoundry(), stage, event)
}

/// Where the whole installation stands.
#[derive(Clone, Copy, PartialEq, Eq, Debug)]
pub enum Stage {
    /// The version manager is being installed.
    VersionManager(AsdfStage),
    /// The toolchain is being installed.
    Toolchain(ToolchainStage),
    /// The testing framework is being installed.
    TestFramework(ToolchainStage),
    /// Everything is installed.
    Done,
    /// The user chose to finish the set-up by hand.
    Exited,
    /// An installer failed.
    Failed,
}

/// An installation under way.
#[derive(Debug)]
pub struct Pipeline {
    pub stage: Stage,
    pub request: InstallRequest,
    /// The user's home directory, where it is known.
    pub home: Option<String>,
}

/// The mathematical content of a `Pipeline`.
pub struct PipelineView {
    pub stage: Stage,
    pub request: InstallRequestView,
    pub home: Option<Seq<char>>,
}

impl View for Pipeline {
    type V = PipelineView;

    open spec fn view(&self) -> PipelineView {
        PipelineView { stage: self.stage, request: self.request@, home: self.home.deep_view() }
    }
}

/// The pipeline's first stage and action: the probe for curl.
pub open spec fn pipeline_start() -> (Stage, ActionView) {
    (Stage::VersionManager(AsdfStage::ProbeCurl), ActionView::Run(which_argv(CURL@)))
}

/// What an installer's outcome means for the pipeline: it stays with the
/// installer while that goes on, moves to `then` once the tool is
/// installed, and ends where the user declined or the installer failed.
pub open spec fn settle<S>(
    outcome: OutcomeView<S>,
    within: spec_fn(S) -> Stage,
    then: (Stage, ActionView),
) -> (Stage, ActionView) {
    match outcome {
        OutcomeView::Next(stage, action) => (within(stage), action),
        OutcomeView::Installed => then,
        OutcomeView::Declined => (Stage::Exited, ActionView::Exit),
        OutcomeView::Failed(error) => (Stage::Failed, ActionView::Abort(error)),
    }
}

/// One step of the pipeline: the stage it moves to and the action it asks
/// for, or `None` where the event does not answer what the pipeline waits
/// for; a pipeline that has ended waits for nothing.
///
/// The version manager's installer runs first, then the toolchain's with
/// the version asked for, then the testing framework's; after the last
/// the pipeline is done.
pub open spec fn pipeline_step(pipeline: PipelineView, event: EventView) -> Option<
    (Stage, ActionView),
> {
    let scarb = scarb_plan(version_text(pipeline.request.toolchain_version));
    match pipeline.stage {
        Stage::VersionManager(stage) => match asdf_step(stage, event, pipeline.home) {
            Some(outcome) => Some(
                settle(
                    outcome,
                    |s: AsdfStage| Stage::VersionManager(s),
                    (Stage::Toolchain(ToolchainStage::Probe), toolchain_start(scarb)),
                ),
            ),
            None => None,
        },
        Stage::Toolchain(stage) => match toolchain_step(scarb, stage, event) {
            Some(outcome) => Some(
                settle(
                    outcome,
                    |s: ToolchainStage| Stage::Toolchain(s),
                    (
                        Stage::TestFramework(ToolchainStage::Probe),
                        toolchain_start(snfoundry_plan()),
                    ),
                ),
            ),
            None => None,
        },
        Stage::TestFramework(stage) => match toolchain_step(snfoundry_plan(), stage, event) {
            Some(outcome) => Some(
                settle(
                    outcome,
                    |s: ToolchainStage| Stage::TestFramework(s),
                    (Stage::Done, ActionView::Finish),
                ),
            ),
            None => None,
        },
        Stage::Done | Stage::Exited | Stage::Failed => None,
    }
}

/// Starts the installation that `request` asks for: the pipeline in its
/// first stage, and the first action.
pub fn starknet_install(request: InstallRequest, home: Option<String>) -> (started: (
    Pipeline,
    Action,
))
    ensures
        started.0@ == (PipelineView {
            stage: pipeline_start().0,
            request: request@,
            home: home.deep_view(),
        }),
        started.1@ == pipeline_start().1,
{
    let pipeline = Pipeline { stage: Stage::VersionManager(AsdfStage::ProbeCurl), request, home };
    (pipeline, Action::Run(which_command(CURL)))
}

impl Pipeline {
    /// Whether the installation has ended, in whichever way.
    pub fn has_ended(&self) -> (ended: bool)
        ensures
            ended == (self@.stage is Done || self@.stage is Exited || self@.stage is Failed),
    {
        match self.stage {
            Stage::Done | Stage::Exited | Stage::Failed => true,
            _ => false,
        }
    }

    /// Takes the driver's report on the last action and says what to do
    /// next. An event that does not answer the last action is refused
    /// with `None`, and the pipeline stays as it is.
    pub fn advance(&mut self, event: Event) -> (answer: Option<Action>)
        ensures
            match pipeline_step(old(self)@, event@) {
                Some((stage, action)) => {
                    &&& answer matches Some(next)
                    &&& next@ == action
                    &&& final(self)@ == (PipelineView { stage, ..old(self)@ })
                },
                None => answer is None && final(self)@ == old(self)@,
            },
    {
        match self.stage {
            Stage::VersionManager(stage) => match install_asdf(stage, event, &self.home) {
                Some(Outcome::Next(stage, action)) => {
                    self.stage = Stage::VersionManager(stage);
                    Some(action)
                },
                Some(Outcome::Installed) => {
                    self.stage = Stage::Toolchain(ToolchainStage::Probe);
                    Some(Toolchain::scarb(self.request.toolchain_version.as_str()).start())
                },
                Some(Outcome::Declined) => {
                    self.stage = Stage::Exited;
                    Some(Action::Exit)
                },
                Some(Outcome::Failed(error)) => {
                    self.stage = Stage::Failed;
                    Some(Action::Abort(error))
                },
                None => None,
            },
            Stage::Toolchain(stage) => match install_scarb(
                self.request.toolchain_version.as_str(),
                stage,
                event,
            ) {
                Some(Outcome::Next(stage, action)) => {
                    self.stage = Stage::Toolchain(stage);
                    Some(action)
                },
                Some(Outcome::Installed) => {
                    self.stage = Stage::TestFramework(ToolchainStage::Probe);
                    Some(Toolchain::snfoundry().start())
                },
                Some(Outcome::Declined) => {
                    self.stage = Stage::Exited;
                    Some(Action::Exit)
                },
                Some(Outcome::Failed(error)) => {
                    self.stage = Stage::Failed;
                    Some(Action::Abort(error))
                },
                None => None,
            },
            Stage::TestFramework(stage) => match install_snfoundry(stage, event) {
                Some(Outcome::Next(stage, action)) => {
                    self.stage = Stage::TestFramework(stage);
                    Some(action)
                },
                Some(Outcome::Installed) => {
                    self.stage = Stage::Done;
                    Some(Action::Finish)
                },
                Some(Outcome::Declined) => {
                    self.stage = Stage::Exited;
                    Some(Action::Exit)
                },
                Some(Outcome::Failed(error)) => {
                    self.stage = Stage::Failed;
                    Some(Action::Abort(error))
                },
                None => None,
            },
            Stage::Done | Stage::Exited | Stage::Failed => None,
        }
    }
}

} // verus!
