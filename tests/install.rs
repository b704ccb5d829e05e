use raur::install::{install_start, install_step, InstallEvent, InstallOutcome, InstallStage, InstallStep};

/// Drives the machine, answering each step from `answer`, and records the steps.
fn drive(mut answer: impl FnMut(InstallStep) -> InstallEvent) -> Vec<InstallStep> {
    let (mut stage, mut step) = install_start();
    let mut steps = vec![step];
    while !matches!(step, InstallStep::Finish(_) | InstallStep::Ignored) {
        let event = answer(step);
        let next = install_step(stage, event);
        stage = next.0;
        step = next.1;
        steps.push(step);
    }
    steps
}

#[test]
fn start_searches_official() {
    assert_eq!(install_start(), (InstallStage::CheckingOfficial, InstallStep::SearchOfficial));
}

#[test]
fn official_hit_never_clones_or_builds() {
    let steps = drive(|step| match step {
        InstallStep::SearchOfficial => InstallEvent::OfficialSearched { found: true },
        InstallStep::InstallOfficial => InstallEvent::OfficialInstalled { ok: true },
        _ => InstallEvent::Cloned { ok: true },
    });
    assert_eq!(
        steps,
        vec![
            InstallStep::SearchOfficial,
            InstallStep::InstallOfficial,
            InstallStep::Finish(InstallOutcome::OfficialInstalled)
        ]
    );
    assert!(!steps.contains(&InstallStep::Clone) && !steps.contains(&InstallStep::Build));
}

#[test]
fn official_failure_is_reported() {
    let r = install_step(InstallStage::InstallingOfficial, InstallEvent::OfficialInstalled { ok: false });
    assert_eq!(r, (InstallStage::Finished, InstallStep::Finish(InstallOutcome::OfficialFailed)));
}

#[test]
fn stray_events_after_official_hit_change_nothing() {
    let (stage, step) = install_step(InstallStage::CheckingOfficial, InstallEvent::OfficialSearched { found: true });
    assert_eq!(step, InstallStep::InstallOfficial);
    for e in [
        InstallEvent::CachePrepared { workspace_exists: false },
        InstallEvent::WorkspaceRemoved,
        InstallEvent::Cloned { ok: true },
        InstallEvent::Built { ok: true },
    ] {
        assert_eq!(install_step(stage, e), (InstallStage::InstallingOfficial, InstallStep::Ignored));
    }
}

#[test]
fn existing_workspace_is_removed_before_clone() {
    let steps = drive(|step| match step {
        InstallStep::SearchOfficial => InstallEvent::OfficialSearched { found: false },
        InstallStep::PrepareCache => InstallEvent::CachePrepared { workspace_exists: true },
        InstallStep::RemoveWorkspace => InstallEvent::WorkspaceRemoved,
        InstallStep::Clone => InstallEvent::Cloned { ok: true },
        _ => InstallEvent::Built { ok: true },
    });
    assert_eq!(
        steps,
        vec![
            InstallStep::SearchOfficial,
            InstallStep::PrepareCache,
            InstallStep::RemoveWorkspace,
            InstallStep::Clone,
            InstallStep::Build,
            InstallStep::Finish(InstallOutcome::AurInstalled)
        ]
    );
}

#[test]
fn clone_waits_for_removal() {
    let (stage, step) = install_step(InstallStage::PreparingCache, InstallEvent::CachePrepared { workspace_exists: true });
    assert_eq!(step, InstallStep::RemoveWorkspace);
    assert_eq!(install_step(stage, InstallEvent::Cloned { ok: true }), (InstallStage::RemovingWorkspace, InstallStep::Ignored));
    assert_eq!(install_step(stage, InstallEvent::WorkspaceRemoved), (InstallStage::Cloning, InstallStep::Clone));
}

#[test]
fn absent_workspace_is_cloned_directly() {
    let r = install_step(InstallStage::PreparingCache, InstallEvent::CachePrepared { workspace_exists: false });
    assert_eq!(r, (InstallStage::Cloning, InstallStep::Clone));
}

#[test]
fn clone_failure_ends_without_build() {
    let steps = drive(|step| match step {
        InstallStep::SearchOfficial => InstallEvent::OfficialSearched { found: false },
        InstallStep::PrepareCache => InstallEvent::CachePrepared { workspace_exists: false },
        _ => InstallEvent::Cloned { ok: false },
    });
    assert_eq!(*steps.last().unwrap(), InstallStep::Finish(InstallOutcome::CloneFailed));
    assert!(!steps.contains(&InstallStep::Build));
}

#[test]
fn build_failure_is_reported() {
    let r = install_step(InstallStage::Building, InstallEvent::Built { ok: false });
    assert_eq!(r, (InstallStage::Finished, InstallStep::Finish(InstallOutcome::AurFailed)));
}

#[test]
fn finished_ignores_everything() {
    let r = install_step(InstallStage::Finished, InstallEvent::OfficialSearched { found: false });
    assert_eq!(r, (InstallStage::Finished, InstallStep::Ignored));
}
