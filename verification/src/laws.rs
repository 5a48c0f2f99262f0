//! What holds of every run of the pipeline, whatever the driver reports.

use crate::command::{
    apt_install_argv, asdf_global_argv, plugin_add_argv, source_profile_argv, CommandResultView,
};
use crate::error::{InstallErrorView, Operation};
use crate::pipeline::{
    pipeline_step, toolchain_step, ActionView, AsdfStage, EventView, OutcomeView, PipelineView,
    Stage, ToolchainStage, ToolchainView, CURL, GIT, SCARB, STARKNET_FOUNDRY,
};
use crate::prompt::affirmative;
use crate::text::utf8_lossy;
use vstd::prelude::*;

verus! {

/// How far the version manager's installer has come.
pub open spec fn asdf_rank(stage: AsdfStage) -> int {
    match stage {
        AsdfStage::ProbeCurl => 0,
        AsdfStage::InstallCurl => 1,
        AsdfStage::ProbeGit => 2,
        AsdfStage::InstallGit => 3,
        AsdfStage::ProbeAsdf => 4,
        AsdfStage::CloneAsdf => 5,
        AsdfStage::AskProfile => 6,
        AsdfStage::ConfigureProfile => 7,
        AsdfStage::SourceProfile => 8,
    }
}

/// How far a plugin-based installer has come.
pub open spec fn toolchain_rank(stage: ToolchainStage) -> int {
    match stage {
        ToolchainStage::Probe => 0,
        ToolchainStage::AddPlugin => 1,
        ToolchainStage::Install => 2,
        ToolchainStage::SetGlobal => 3,
    }
}

/// How far the pipeline has come: every step moves it to a higher rank,
/// and a pipeline that has ended has the highest.
pub open spec fn rank(stage: Stage) -> int {
    match stage {
        Stage::VersionManager(stage) => asdf_rank(stage),
        Stage::Toolchain(stage) => 9 + toolchain_rank(stage),
        Stage::TestFramework(stage) => 13 + toolchain_rank(stage),
        Stage::Done | Stage::Exited | Stage::Failed => 17,
    }
}

/// The pipeline has ended.
pub open spec fn ended(stage: Stage) -> bool {
    stage is Done || stage is Exited || stage is Failed
}

/// The stage the pipeline is in after it has been given `events` in order.
/// An event that does not answer what the pipeline waits for leaves it
/// where it is.
pub open spec fn stage_after(pipeline: PipelineView, events: Seq<EventView>) -> Stage
    decreases events.len(),
{
    if events.len() == 0 {
        pipeline.stage
    } else {
        let before = stage_after(pipeline, events.drop_last());
        match pipeline_step(PipelineView { stage: before, ..pipeline }, events.last()) {
            Some((stage, _)) => stage,
            None => before,
        }
    }
}

/// The pipeline as it stands before the event at `index` arrives.
pub open spec fn before_event(pipeline: PipelineView, events: Seq<EventView>, index: int) -> PipelineView {
    PipelineView { stage: stage_after(pipeline, events.take(index)), ..pipeline }
}

/// The action with which the pipeline answers the event at `index`, if it
/// answers it at all.
pub open spec fn answer_at(pipeline: PipelineView, events: Seq<EventView>, index: int) -> Option<
    ActionView,
> {
    match pipeline_step(before_event(pipeline, events, index), events[index]) {
        Some((_, action)) => Some(action),
        None => None,
    }
}

/// The command was run and exited with success.
pub open spec fn succeeded(run: Result<CommandResultView, Seq<char>>) -> bool {
    run matches Ok(result) && result.exit_succeeded
}

/// The event reports a command that was run and exited with success.
pub open spec fn reports_success(event: EventView) -> bool {
    event matches EventView::Ran(run) && succeeded(run)
}

/// The stage the pipeline reaches with an event is the one its step names.
pub proof fn lemma_stage_after_event(pipeline: PipelineView, events: Seq<EventView>, index: int)
    requires
        0 <= index < events.len(),
    ensures
        stage_after(pipeline, events.take(index + 1)) == (match pipeline_step(
            before_event(pipeline, events, index),
            events[index],
        ) {
            Some((stage, _)) => stage,
            None => stage_after(pipeline, events.take(index)),
        }),
{
    let upto = events.take(index + 1);
    assert(upto.drop_last() =~= events.take(index));
    assert(upto.last() == events[index]);
}

/// No step leads back: an answered event moves the pipeline to a stage of
/// higher rank, and a pipeline that has ended answers nothing.
pub proof fn lemma_step_moves_on(pipeline: PipelineView, event: EventView)
    ensures
        pipeline_step(pipeline, event) matches Some((stage, _)) ==> rank(pipeline.stage) < rank(
            stage,
        ),
        ended(pipeline.stage) ==> pipeline_step(pipeline, event) is None,
{
}

/// Over any run the rank never falls.
pub proof fn lemma_rank_never_falls(
    pipeline: PipelineView,
    events: Seq<EventView>,
    earlier: int,
    later: int,
)
    requires
        0 <= earlier <= later <= events.len(),
    ensures
        rank(stage_after(pipeline, events.take(earlier))) <= rank(
            stage_after(pipeline, events.take(later)),
        ),
    decreases later - earlier,
{
    if earlier < later {
        lemma_rank_never_falls(pipeline, events, earlier, later - 1);
        lemma_stage_after_event(pipeline, events, later - 1);
        lemma_step_moves_on(before_event(pipeline, events, later - 1), events[later - 1]);
    }
}

/// Once the pipeline has ended, in whichever way, it stays as it is and
/// asks for nothing more.
pub proof fn lemma_ended_pipeline_rests(
    pipeline: PipelineView,
    events: Seq<EventView>,
    end: int,
    later: int,
)
    requires
        0 <= end <= later < events.len(),
        ended(stage_after(pipeline, events.take(end))),
    ensures
        stage_after(pipeline, events.take(later)) == stage_after(pipeline, events.take(end)),
        answer_at(pipeline, events, later) is None,
    decreases later - end,
{
    if end < later {
        lemma_ended_pipeline_rests(pipeline, events, end, later - 1);
        lemma_stage_after_event(pipeline, events, later - 1);
    }
}

/// The tools the pipeline installs.
pub enum Tool {
    Curl,
    Git,
    Asdf,
    Scarb,
    Snfoundry,
}

/// The stage in which the pipeline waits for the probe of a tool.
pub open spec fn probe_stage(tool: Tool) -> Stage {
    match tool {
        Tool::Curl => Stage::VersionManager(AsdfStage::ProbeCurl),
        Tool::Git => Stage::VersionManager(AsdfStage::ProbeGit),
        Tool::Asdf => Stage::VersionManager(AsdfStage::ProbeAsdf),
        Tool::Scarb => Stage::Toolchain(ToolchainStage::Probe),
        Tool::Snfoundry => Stage::TestFramework(ToolchainStage::Probe),
    }
}

/// The rank of the last stage that belongs to the installation of a tool.
pub open spec fn last_rank(tool: Tool) -> int {
    match tool {
        Tool::Curl => 1,
        Tool::Git => 3,
        Tool::Asdf => 8,
        Tool::Scarb => 12,
        Tool::Snfoundry => 16,
    }
}

/// The command has the version manager register, install or make default
/// the given plugin.
pub open spec fn changes_plugin(argv: Seq<Seq<char>>, plugin: Seq<char>) -> bool {
    ||| argv == plugin_add_argv(plugin)
    ||| argv.len() == 4 && argv[0] == "asdf"@ && argv[1] == "install"@ && argv[2] == plugin
    ||| argv == asdf_global_argv(plugin)
}

/// The action changes the system on behalf of the tool: it installs its
/// package, clones its sources, edits or sources the profile for it, or
/// changes its plugin.
pub open spec fn alters(tool: Tool, action: ActionView) -> bool {
    match tool {
        Tool::Curl => action == ActionView::Run(apt_install_argv(CURL@)),
        Tool::Git => action == ActionView::Run(apt_install_argv(GIT@)),
        Tool::Asdf => {
            ||| action is ConfigureProfile
            ||| action matches ActionView::Run(argv) && {
                ||| argv == source_profile_argv()
                ||| argv.len() == 4 && argv[0] == "git"@ && argv[1] == "clone"@
            }
        },
        Tool::Scarb => action matches ActionView::Run(argv) && changes_plugin(argv, SCARB@),
        Tool::Snfoundry => action matches ActionView::Run(argv) && changes_plugin(
            argv,
            STARKNET_FOUNDRY@,
        ),
    }
}

/// The words that tell the pipeline's commands apart differ.
proof fn lemma_words_differ()
    ensures
        "which"@ != "sudo"@,
        "which"@ != "git"@,
        "which"@ != "bash"@,
        "which"@ != "asdf"@,
        "sudo"@ != "git"@,
        "sudo"@ != "bash"@,
        "sudo"@ != "asdf"@,
        "git"@ != "bash"@,
        "git"@ != "asdf"@,
        "bash"@ != "asdf"@,
        "plugin"@ != "install"@,
        "plugin"@ != "global"@,
        "install"@ != "global"@,
        CURL@ != GIT@,
        SCARB@ != STARKNET_FOUNDRY@,
{
    reveal_strlit("which");
    reveal_strlit("sudo");
    reveal_strlit("git");
    reveal_strlit("bash");
    reveal_strlit("asdf");
    reveal_strlit("plugin");
    reveal_strlit("install");
    reveal_strlit("global");
    reveal_strlit("curl");
    reveal_strlit("scarb");
    reveal_strlit("starknet-foundry");
    assert("which"@[0] == 'w');
    assert("sudo"@[0] == 's');
    assert("git"@[0] == 'g');
    assert("bash"@[0] == 'b');
    assert("asdf"@[0] == 'a');
    assert("plugin"@[0] == 'p');
    assert("install"@[0] == 'i');
    assert("global"@[0] == 'g');
    assert(CURL@[0] == 'c');
    assert(GIT@[0] == 'g');
    assert(SCARB@[1] == 'c');
    assert(STARKNET_FOUNDRY@[1] == 't');
}

/// An action that changes the system on behalf of a tool is asked for only
/// in the stages of that tool's installation, and in the stage of its
/// probe only when the probe did not find it.
pub proof fn lemma_changes_follow_absence(pipeline: PipelineView, event: EventView, tool: Tool)
    ensures
        pipeline_step(pipeline, event) matches Some((_, action)) && alters(tool, action) ==> {
            &&& rank(probe_stage(tool)) <= rank(pipeline.stage) <= last_rank(tool)
            &&& pipeline.stage == probe_stage(tool) ==> !reports_success(event)
        },
{
    lemma_words_differ();
}

/// A probe that finds its tool takes the pipeline past every stage of that
/// tool's installation.
pub proof fn lemma_presence_skips_installation(pipeline: PipelineView, event: EventView, tool: Tool)
    requires
        pipeline.stage == probe_stage(tool),
        reports_success(event),
    ensures
        pipeline_step(pipeline, event) matches Some((stage, _)) && last_rank(tool) < rank(stage),
{
}

/// Presence short-circuit: when the probe for a tool finds it, no action
/// of the whole run changes the system on behalf of that tool, neither
/// before the probe nor after it.
pub proof fn lemma_present_tool_is_left_alone(
    pipeline: PipelineView,
    events: Seq<EventView>,
    tool: Tool,
    probe: int,
    other: int,
)
    requires
        0 <= probe < events.len(),
        0 <= other < events.len(),
        stage_after(pipeline, events.take(probe)) == probe_stage(tool),
        reports_success(events[probe]),
    ensures
        answer_at(pipeline, events, other) matches Some(action) ==> !alters(tool, action),
{
    let here = before_event(pipeline, events, other);
    lemma_changes_follow_absence(here, events[other], tool);
    lemma_step_moves_on(here, events[other]);
    lemma_stage_after_event(pipeline, events, other);
    if other < probe {
        lemma_rank_never_falls(pipeline, events, other + 1, probe);
    } else if other > probe {
        lemma_presence_skips_installation(
            before_event(pipeline, events, probe),
            events[probe],
            tool,
        );
        lemma_stage_after_event(pipeline, events, probe);
        lemma_rank_never_falls(pipeline, events, probe + 1, other);
    }
}

/// The error is a failed command that names `subject`.
pub open spec fn names(error: InstallErrorView, subject: Seq<char>) -> bool {
    error matches InstallErrorView::CommandFailed { subject: named, .. } && named == subject
}

/// How a plugin-based installer ends when it starts in `stage` and is
/// given the results of its commands in order: `None` while it has not
/// ended.
pub open spec fn toolchain_end(
    plan: ToolchainView,
    stage: ToolchainStage,
    runs: Seq<Result<CommandResultView, Seq<char>>>,
) -> Option<OutcomeView<ToolchainStage>>
    decreases runs.len(),
{
    if runs.len() == 0 {
        None
    } else {
        match toolchain_step(plan, stage, EventView::Ran(runs.first())) {
            Some(OutcomeView::Next(next, _)) => toolchain_end(plan, next, runs.drop_first()),
            Some(outcome) => Some(outcome),
            None => None,
        }
    }
}

/// A failed installation of a version is never passed over: the installer
/// ends at once, with an error that names the plugin and holds what the
/// command wrote to its error output.
pub proof fn lemma_failed_install_is_reported(
    plan: ToolchainView,
    result: CommandResultView,
)
    requires
        !result.exit_succeeded,
    ensures
        toolchain_step(plan, ToolchainStage::Install, EventView::Ran(Ok(result))) == Some(
            OutcomeView::<ToolchainStage>::Failed(
                InstallErrorView::CommandFailed {
                    operation: Operation::InstallVersion,
                    subject: plan.plugin,
                    stderr: utf8_lossy(result.stderr),
                },
            ),
        ),
{
}

/// A plugin-based installer that is given the results of four commands
/// has ended: either the tool is installed, or the installer failed with
/// an error that names the plugin or says that a command could not be
/// started. It ends with the tool installed only where the probe found
/// it, or where both registering the plugin and installing the version
/// exited with success.
pub proof fn lemma_toolchain_installs_or_fails(
    plan: ToolchainView,
    runs: Seq<Result<CommandResultView, Seq<char>>>,
)
    requires
        runs.len() >= 4,
    ensures
        match toolchain_end(plan, ToolchainStage::Probe, runs) {
            Some(OutcomeView::Installed) => succeeded(runs[0]) || (succeeded(runs[1]) && succeeded(
                runs[2],
            )),
            Some(OutcomeView::Failed(error)) => names(error, plan.plugin)
                || error is ProcessSpawn,
            _ => false,
        },
{
    let first = runs.drop_first();
    let second = first.drop_first();
    let third = second.drop_first();
    assert(first.first() == runs[1]);
    assert(second.first() == runs[2]);
    assert(third.first() == runs[3]);
    reveal_with_fuel(toolchain_end, 5);
}

/// Declining the profile edit ends the run: any answer but `y` makes the
/// pipeline ask for the exit, and it asks for nothing afterwards, so the
/// profile is neither edited nor sourced.
pub proof fn lemma_declining_ends_the_run(
    pipeline: PipelineView,
    events: Seq<EventView>,
    asked: int,
    later: int,
)
    requires
        0 <= asked < later < events.len(),
        stage_after(pipeline, events.take(asked)) == Stage::VersionManager(AsdfStage::AskProfile),
        events[asked] matches EventView::Answered(Ok(answer)) && !affirmative(answer),
    ensures
        answer_at(pipeline, events, asked) == Some(ActionView::Exit),
        stage_after(pipeline, events.take(asked + 1)) == Stage::Exited,
        answer_at(pipeline, events, later) is None,
{
    lemma_stage_after_event(pipeline, events, asked);
    lemma_ended_pipeline_rests(pipeline, events, asked + 1, later);
}

/// The package whose installation a stage waits for, if it waits for one.
pub open spec fn package_awaited(stage: Stage) -> Option<Seq<char>> {
    match stage {
        Stage::VersionManager(AsdfStage::InstallCurl) => Some(CURL@),
        Stage::VersionManager(AsdfStage::InstallGit) => Some(GIT@),
        _ => None,
    }
}

/// A package manager that exits with a failure stops the run: the
/// pipeline asks to abort with an error that holds the package's name and
/// what the package manager wrote to its error output, and asks for
/// nothing afterwards, so no further installer runs.
pub proof fn lemma_failed_package_stops_the_run(
    pipeline: PipelineView,
    events: Seq<EventView>,
    failed: int,
    later: int,
    package: Seq<char>,
    result: CommandResultView,
)
    requires
        0 <= failed < later < events.len(),
        package_awaited(stage_after(pipeline, events.take(failed))) == Some(package),
        events[failed] == EventView::Ran(Ok(result)),
        !result.exit_succeeded,
    ensures
        answer_at(pipeline, events, failed) == Some(
            ActionView::Abort(
                InstallErrorView::CommandFailed {
                    operation: Operation::InstallPackage,
                    subject: package,
                    stderr: utf8_lossy(result.stderr),
                },
            ),
        ),
        stage_after(pipeline, events.take(failed + 1)) == Stage::Failed,
        answer_at(pipeline, events, later) is None,
{
    lemma_stage_after_event(pipeline, events, failed);
    lemma_ended_pipeline_rests(pipeline, events, failed + 1, later);
}

/// Whatever fails, the run is over: after an event that made the pipeline
/// ask to abort, it asks for nothing more.
pub proof fn lemma_abort_is_final(
    pipeline: PipelineView,
    events: Seq<EventView>,
    failed: int,
    later: int,
)
    requires
        0 <= failed < later < events.len(),
        answer_at(pipeline, events, failed) matches Some(action) && action is Abort,
    ensures
        stage_after(pipeline, events.take(failed + 1)) == Stage::Failed,
        answer_at(pipeline, events, later) is None,
{
    lemma_stage_after_event(pipeline, events, failed);
    lemma_ended_pipeline_rests(pipeline, events, failed + 1, later);
}

} // verus!
