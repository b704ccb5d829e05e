//! Installing one package: the official repositories first, an AUR build
//! otherwise.
//!
//! The work alternates between outside steps (a subprocess, a directory
//! operation) and decisions, so the decisions form a state machine: the
//! caller performs each [`InstallStep`] and reports what happened as an
//! [`InstallEvent`], which [`install_step`] turns into the next step.
use vstd::prelude::*;

verus! {

/// Where an install stands, between two outside steps.
#[derive(Clone, Copy, Debug, PartialEq, Eq, Structural)]
pub enum InstallStage {
    /// Waiting for the official search's output.
    CheckingOfficial,
    /// Waiting for the package manager's install.
    InstallingOfficial,
    /// Waiting for the cache directory to exist.
    PreparingCache,
    /// Waiting for the stale workspace to be deleted.
    RemovingWorkspace,
    /// Waiting for the clone of the build recipe.
    Cloning,
    /// Waiting for the build tool.
    Building,
    /// Nothing left to do.
    Finished,
}

/// What the caller observed after performing a step.
#[derive(Clone, Copy, Debug, PartialEq, Eq, Structural)]
pub enum InstallEvent {
    /// The official search ran; `found` when its output was not empty.
    OfficialSearched { found: bool },
    /// The package manager's install ran; `ok` when it exited successfully.
    OfficialInstalled { ok: bool },
    /// The cache directory exists; `workspace_exists` when the package's
    /// workspace is already there.
    CachePrepared { workspace_exists: bool },
    /// The package's workspace was deleted.
    WorkspaceRemoved,
    /// The clone ran; `ok` when it exited successfully.
    Cloned { ok: bool },
    /// The build tool ran; `ok` when it exited successfully.
    Built { ok: bool },
}

/// How an install ended.
#[derive(Clone, Copy, Debug, PartialEq, Eq, Structural)]
pub enum InstallOutcome {
    /// The package manager installed the package.
    OfficialInstalled,
    /// The package manager's install exited with a failure.
    OfficialFailed,
    /// The build recipe could not be cloned; nothing was built.
    CloneFailed,
    /// The build tool built and installed the package.
    AurInstalled,
    /// The build tool exited with a failure.
    AurFailed,
}

/// What the caller does next.
#[derive(Clone, Copy, Debug, PartialEq, Eq, Structural)]
pub enum InstallStep {
    /// Run the official search for the package name.
    SearchOfficial,
    /// Install the package through the package manager.
    InstallOfficial,
    /// Create the cache directory if missing, and look for the workspace.
    PrepareCache,
    /// Delete the package's workspace.
    RemoveWorkspace,
    /// Clone the package's build recipe into its workspace.
    Clone,
    /// Run the build tool in the workspace.
    Build,
    /// Report the outcome; the install is over.
    Finish(InstallOutcome),
    /// The event does not belong to the current stage; nothing to do.
    Ignored,
}

/// The transition function: the next stage and step for an event.
pub open spec fn install_transition(stage: InstallStage, event: InstallEvent) -> (InstallStage, InstallStep) {
    match stage {
        InstallStage::CheckingOfficial => match event {
            InstallEvent::OfficialSearched { found } => if found {
                (InstallStage::InstallingOfficial, InstallStep::InstallOfficial)
            } else {
                (InstallStage::PreparingCache, InstallStep::PrepareCache)
            },
            _ => (stage, InstallStep::Ignored),
        },
        InstallStage::InstallingOfficial => match event {
            InstallEvent::OfficialInstalled { ok } => (
                InstallStage::Finished,
                InstallStep::Finish(
                    if ok { InstallOutcome::OfficialInstalled } else { InstallOutcome::OfficialFailed },
                ),
            ),
            _ => (stage, InstallStep::Ignored),
        },
        InstallStage::PreparingCache => match event {
            InstallEvent::CachePrepared { workspace_exists } => if workspace_exists {
                (InstallStage::RemovingWorkspace, InstallStep::RemoveWorkspace)
            } else {
                (InstallStage::Cloning, InstallStep::Clone)
            },
            _ => (stage, InstallStep::Ignored),
        },
        InstallStage::RemovingWorkspace => match event {
            InstallEvent::WorkspaceRemoved => (InstallStage::Cloning, InstallStep::Clone),
            _ => (stage, InstallStep::Ignored),
        },
        InstallStage::Cloning => match event {
            InstallEvent::Cloned { ok } => if ok {
                (InstallStage::Building, InstallStep::Build)
            } else {
                (InstallStage::Finished, InstallStep::Finish(InstallOutcome::CloneFailed))
            },
            _ => (stage, InstallStep::Ignored),
        },
        InstallStage::Building => match event {
            InstallEvent::Built { ok } => (
                InstallStage::Finished,
                InstallStep::Finish(
                    if ok { InstallOutcome::AurInstalled } else { InstallOutcome::AurFailed },
                ),
            ),
            _ => (stage, InstallStep::Ignored),
        },
        InstallStage::Finished => (stage, InstallStep::Ignored),
    }
}

/// The steps that a sequence of events draws from the machine, one per event.
pub open spec fn install_run(stage: InstallStage, events: Seq<InstallEvent>) -> Seq<InstallStep>
    decreases events.len(),
{
    if events.len() == 0 {
        Seq::empty()
    } else {
        let (next, step) = install_transition(stage, events[0]);
        seq![step] + install_run(next, events.subrange(1, events.len() as int))
    }
}

/// The first stage and step of every install: search the official repositories.
pub fn install_start() -> (r: (InstallStage, InstallStep))
    ensures
        r == (InstallStage::CheckingOfficial, InstallStep::SearchOfficial),
{
    (InstallStage::CheckingOfficial, InstallStep::SearchOfficial)
}

/// Decides the next stage and step from the current stage and an event.
pub fn install_step(stage: InstallStage, event: InstallEvent) -> (r: (InstallStage, InstallStep))
    ensures
        r == install_transition(stage, event),
{
    match stage {
        InstallStage::CheckingOfficial => match event {
            InstallEvent::OfficialSearched { found } => if found {
                (InstallStage::InstallingOfficial, InstallStep::InstallOfficial)
            } else {
                (InstallStage::PreparingCache, InstallStep::PrepareCache)
            },
            _ => (stage, InstallStep::Ignored),
        },
        InstallStage::InstallingOfficial => match event {
            InstallEvent::OfficialInstalled { ok } => {
                let outcome = if ok {
                    InstallOutcome::OfficialInstalled
                } else {
                    InstallOutcome::OfficialFailed
                };
                (InstallStage::Finished, InstallStep::Finish(outcome))
            },
            _ => (stage, InstallStep::Ignored),
        },
        InstallStage::PreparingCache => match event {
            InstallEvent::CachePrepared { workspace_exists } => if workspace_exists {
                (InstallStage::RemovingWorkspace, InstallStep::RemoveWorkspace)
            } else {
                (InstallStage::Cloning, InstallStep::Clone)
            },
            _ => (stage, InstallStep::Ignored),
        },
        InstallStage::RemovingWorkspace => match event {
            InstallEvent::WorkspaceRemoved => (InstallStage::Cloning, InstallStep::Clone),
            _ => (stage, InstallStep::Ignored),
        },
        InstallStage::Cloning => match event {
            InstallEvent::Cloned { ok } => if ok {
                (InstallStage::Building, InstallStep::Build)
            } else {
                (InstallStage::Finished, InstallStep::Finish(InstallOutcome::CloneFailed))
            },
            _ => (stage, InstallStep::Ignored),
        },
        InstallStage::Building => match event {
            InstallEvent::Built { ok } => {
                let outcome = if ok {
                    InstallOutcome::AurInstalled
                } else {
                    InstallOutcome::AurFailed
                };
                (InstallStage::Finished, InstallStep::Finish(outcome))
            },
            _ => (stage, InstallStep::Ignored),
        },
        InstallStage::Finished => (stage, InstallStep::Ignored),
    }
}

/// From the official install onwards, no run ever clones or builds.
proof fn lemma_no_build_after_official(stage: InstallStage, events: Seq<InstallEvent>)
    requires
        stage == InstallStage::InstallingOfficial || stage == InstallStage::Finished,
    ensures
        forall|i: int|
            0 <= i < install_run(stage, events).len() ==> install_run(stage, events)[i]
                != InstallStep::Clone && install_run(stage, events)[i] != InstallStep::Build,
    decreases events.len(),
{
    if events.len() > 0 {
        let (next, step) = install_transition(stage, events[0]);
        let rest = events.subrange(1, events.len() as int);
        lemma_no_build_after_official(next, rest);
        assert(install_run(stage, events) == seq![step] + install_run(next, rest));
    }
}

/// When the official search finds the package, no event that follows can
/// make the install clone a build recipe or run the build tool.
pub proof fn official_hit_never_builds(events: Seq<InstallEvent>)
    requires
        events.len() > 0,
        events[0] == (InstallEvent::OfficialSearched { found: true }),
    ensures
        forall|i: int|
            0 <= i < install_run(InstallStage::CheckingOfficial, events).len() ==> install_run(
                InstallStage::CheckingOfficial,
                events,
            )[i] != InstallStep::Clone && install_run(InstallStage::CheckingOfficial, events)[i]
                != InstallStep::Build,
{
    let rest = events.subrange(1, events.len() as int);
    lemma_no_build_after_official(InstallStage::InstallingOfficial, rest);
    assert(install_run(InstallStage::CheckingOfficial, events) == seq![InstallStep::InstallOfficial]
        + install_run(InstallStage::InstallingOfficial, rest));
}

/// From any stage, a clone is only ever asked right after the workspace was
/// deleted or was reported absent: a workspace that exists is always deleted
/// before a fresh clone goes into it, and a report that it exists is answered
/// by its deletion.
pub proof fn clone_only_into_clean_workspace(stage: InstallStage, events: Seq<InstallEvent>)
    ensures
        install_run(stage, events).len() == events.len(),
        forall|i: int|
            0 <= i < events.len() && #[trigger] install_run(stage, events)[i] == InstallStep::Clone
                ==> events[i] == InstallEvent::WorkspaceRemoved || events[i] == (
            InstallEvent::CachePrepared { workspace_exists: false }),
        forall|i: int|
            0 <= i < events.len() && events[i] == (InstallEvent::CachePrepared {
                workspace_exists: true,
            }) ==> #[trigger] install_run(stage, events)[i] == InstallStep::RemoveWorkspace
                || install_run(stage, events)[i] == InstallStep::Ignored,
    decreases events.len(),
{
    if events.len() > 0 {
        let (next, step) = install_transition(stage, events[0]);
        let rest = events.subrange(1, events.len() as int);
        clone_only_into_clean_workspace(next, rest);
        let run = install_run(stage, events);
        assert(run == seq![step] + install_run(next, rest));
        assert forall|i: int| 0 < i < events.len() implies run[i] == install_run(next, rest)[i - 1]
            && events[i] == rest[i - 1] by {}
    }
}

} // verus!
