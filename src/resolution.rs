use vstd::prelude::*;
use crate::error::{ResolveErrorView, server_path};
use crate::resolver::{
    ActionView, EventView, InstallStatus, PhaseView, found_server, needs_install, step_model,
};

verus! {

/// What the host's collaborators answer during one resolution.
pub struct Responses {
    /// Whether the entry point is present at the first check.
    pub exists_before: bool,
    /// The registry's latest version, or its failure message.
    pub latest: Result<Seq<char>, Seq<char>>,
    /// The locally installed version, if any.
    pub installed: Option<Seq<char>>,
    /// The installer's outcome.
    pub install: Result<(), Seq<char>>,
    /// Whether the entry point is present at the check after an install.
    pub exists_after: bool,
}

/// The answer that the collaborators give to a request.
pub open spec fn answer(w: Responses, action: ActionView) -> EventView {
    match action {
        ActionView::CheckServerExists => EventView::ServerExists(w.exists_after),
        ActionView::ReportStatus(_) => EventView::StatusReported,
        ActionView::QueryLatestVersion => EventView::LatestVersion(w.latest),
        ActionView::QueryInstalledVersion => EventView::InstalledVersion(w.installed),
        ActionView::InstallPackage(_) => EventView::InstallOutcome(w.install),
        ActionView::Finish(_) => EventView::StatusReported,
    }
}

/// Runs the resolver from a phase and an answer until it finishes (or the
/// fuel runs out): the final flag and the requests made on the way.
pub open spec fn drive(found: bool, phase: PhaseView, event: EventView, w: Responses, fuel: nat) -> (bool, Seq<ActionView>)
    decreases fuel,
{
    let (f, p, a) = step_model(found, phase, event);
    if fuel == 0 || a is Finish {
        (f, seq![a])
    } else {
        let (g, rest) = drive(f, p, answer(w, a), w, (fuel - 1) as nat);
        (g, seq![a] + rest)
    }
}

/// One whole resolution against the given answers: the flag afterwards and
/// every request made, the first existence check included, in order; the last
/// one is the outcome.
pub open spec fn resolve_model(found: bool, w: Responses) -> (bool, Seq<ActionView>) {
    let (f, rest) = drive(found, PhaseView::Start, EventView::ServerExists(w.exists_before), w, 8);
    (f, seq![ActionView::CheckServerExists] + rest)
}

/// The requests of a resolution that installs `version` and then ends with
/// `outcome`.
pub open spec fn install_trace(version: Seq<char>, outcome: Result<Seq<char>, ResolveErrorView>) -> Seq<ActionView> {
    seq![
        ActionView::CheckServerExists,
        ActionView::ReportStatus(InstallStatus::CheckingForUpdate),
        ActionView::QueryLatestVersion,
        ActionView::QueryInstalledVersion,
        ActionView::ReportStatus(InstallStatus::Downloading),
        ActionView::InstallPackage(version),
        ActionView::CheckServerExists,
        ActionView::Finish(outcome),
    ]
}

/// Whether a request goes to the registry or the installer.
pub open spec fn is_network(a: ActionView) -> bool {
    a is QueryLatestVersion || a is QueryInstalledVersion || a is InstallPackage
}

proof fn lemma_install_path(found: bool, w: Responses)
    requires
        !(found && w.exists_before),
        w.latest is Ok,
        needs_install(w.exists_before, w.latest->Ok_0, w.installed),
    ensures
        resolve_model(found, w) == (
            if w.exists_after { true } else { found },
            install_trace(
                w.latest->Ok_0,
                if w.exists_after {
                    Ok(server_path())
                } else {
                    match w.install {
                        Ok(()) => Err(ResolveErrorView::PackageMissingExpectedEntryPoint),
                        Err(c) => Err(ResolveErrorView::InstallFailed(c)),
                    }
                },
            ),
        ),
{
    reveal_with_fuel(drive, 9);
    let r = resolve_model(found, w);
    assert(r.1 =~= install_trace(w.latest->Ok_0, r.1.last()->Finish_0));
}

/// With the flag set and the entry point present, a resolution makes no
/// request to the registry or the installer, and returns the entry point.
pub proof fn lemma_fast_path(w: Responses)
    requires
        w.exists_before,
    ensures
        resolve_model(true, w) == (true, seq![ActionView::CheckServerExists, found_server()]),
        forall|i: int|
            0 <= i < resolve_model(true, w).1.len() ==> !is_network(#[trigger] resolve_model(true, w).1[i]),
{
    reveal_with_fuel(drive, 2);
    assert(resolve_model(true, w).1 =~= seq![ActionView::CheckServerExists, found_server()]);
}

/// On a fresh resolver with no entry point, a resolution asks for the latest
/// version, installs exactly that version, checks again and, once the entry
/// point is there, returns it and sets the flag.
pub proof fn lemma_first_run_installs(w: Responses)
    requires
        !w.exists_before,
        w.latest is Ok,
        w.exists_after,
    ensures
        resolve_model(false, w) == (true, install_trace(w.latest->Ok_0, Ok(server_path()))),
{
    lemma_install_path(false, w);
}

/// On a fresh resolver, an installed version other than the latest one makes
/// the resolution install the latest one, even when the entry point is present.
pub proof fn lemma_stale_version_reinstalls(w: Responses)
    requires
        w.latest is Ok,
        w.installed != Some(w.latest->Ok_0),
    ensures
        resolve_model(false, w).1.len() == 8,
        resolve_model(false, w).1[5] == ActionView::InstallPackage(w.latest->Ok_0),
{
    lemma_install_path(false, w);
}

/// An installer failure is forgiven when the entry point is present
/// afterwards: the resolution returns the entry point and sets the flag.
pub proof fn lemma_install_failure_masked(found: bool, w: Responses)
    requires
        !(found && w.exists_before),
        w.latest is Ok,
        needs_install(w.exists_before, w.latest->Ok_0, w.installed),
        w.install is Err,
        w.exists_after,
    ensures
        resolve_model(found, w).0,
        resolve_model(found, w).1.last() == found_server(),
{
    lemma_install_path(found, w);
}

/// An install that reports success but leaves no entry point ends the
/// resolution with `PackageMissingExpectedEntryPoint`, the flag unchanged.
pub proof fn lemma_missing_entry_point(found: bool, w: Responses)
    requires
        !(found && w.exists_before),
        w.latest is Ok,
        needs_install(w.exists_before, w.latest->Ok_0, w.installed),
        w.install is Ok,
        !w.exists_after,
    ensures
        resolve_model(found, w).0 == found,
        resolve_model(found, w).1.last() == ActionView::Finish(
            Err(ResolveErrorView::PackageMissingExpectedEntryPoint),
        ),
{
    lemma_install_path(found, w);
}

/// A registry failure ends the resolution with `RegistryUnavailable`, before
/// any install, the flag unchanged.
pub proof fn lemma_registry_failure_is_fatal(found: bool, w: Responses)
    requires
        !(found && w.exists_before),
        w.latest is Err,
    ensures
        resolve_model(found, w) == (
            found,
            seq![
                ActionView::CheckServerExists,
                ActionView::ReportStatus(InstallStatus::CheckingForUpdate),
                ActionView::QueryLatestVersion,
                ActionView::Finish(Err(ResolveErrorView::RegistryUnavailable(w.latest->Err_0))),
            ],
        ),
        forall|i: int|
            0 <= i < resolve_model(found, w).1.len() ==> !(#[trigger] resolve_model(found, w).1[i] is InstallPackage),
{
    reveal_with_fuel(drive, 4);
    assert(resolve_model(found, w).1 =~= seq![
        ActionView::CheckServerExists,
        ActionView::ReportStatus(InstallStatus::CheckingForUpdate),
        ActionView::QueryLatestVersion,
        ActionView::Finish(Err(ResolveErrorView::RegistryUnavailable(w.latest->Err_0))),
    ]);
}

} // verus!
