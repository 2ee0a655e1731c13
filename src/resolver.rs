use vstd::prelude::*;
use vstd::string::*;
use crate::error::{ResolveError, ResolveErrorView, SERVER_PATH, server_path};

verus! {

/// Installation progress that the host is told about.
#[derive(Clone, Copy, PartialEq, Eq, Structural, Debug)]
pub enum InstallStatus {
    CheckingForUpdate,
    Downloading,
}

/// Where a resolution stands: which answer of the host it waits for, and what
/// it has learnt so far.
#[derive(Debug)]
pub enum Phase {
    /// Waits for the first check that the entry point is present.
    Start,
    /// Waits for the host to take the "checking for update" status.
    ReportingCheck { exists_now: bool },
    /// Waits for the latest version that the registry publishes.
    AwaitingLatest { exists_now: bool },
    /// Waits for the version installed locally.
    AwaitingInstalled { exists_now: bool, latest: String },
    /// Waits for the host to take the "downloading" status.
    ReportingDownload { latest: String },
    /// Waits for the installer's outcome.
    Installing,
    /// Waits for the check, after an install, that the entry point is present.
    Rechecking { install: Result<(), String> },
    /// The resolution is over; no answer is expected.
    Finished,
}

/// An answer of the host to the last request.
#[derive(Debug)]
pub enum Event {
    /// Whether the entry point file is present.
    ServerExists(bool),
    /// A status report was delivered.
    StatusReported,
    /// The registry's latest version, or its failure message.
    LatestVersion(Result<String, String>),
    /// The locally installed version, if any is known.
    InstalledVersion(Option<String>),
    /// The installer's outcome, or its failure message.
    InstallOutcome(Result<(), String>),
}

/// What the host is asked to do next.
#[derive(Debug)]
pub enum Action {
    /// Check whether the entry point file is present.
    CheckServerExists,
    /// Report an installation status (answered by `StatusReported`).
    ReportStatus(InstallStatus),
    /// Ask the registry for the latest version of the package.
    QueryLatestVersion,
    /// Ask for the locally installed version of the package.
    QueryInstalledVersion,
    /// Install the package at the given version.
    InstallPackage(String),
    /// The resolution is over: the entry point path, or why there is none.
    Finish(Result<String, ResolveError>),
}

/// The mathematical model of a [`Phase`]: strings as character sequences.
pub enum PhaseView {
    Start,
    ReportingCheck { exists_now: bool },
    AwaitingLatest { exists_now: bool },
    AwaitingInstalled { exists_now: bool, latest: Seq<char> },
    ReportingDownload { latest: Seq<char> },
    Installing,
    Rechecking { install: Result<(), Seq<char>> },
    Finished,
}

/// The mathematical model of an [`Event`].
pub enum EventView {
    ServerExists(bool),
    StatusReported,
    LatestVersion(Result<Seq<char>, Seq<char>>),
    InstalledVersion(Option<Seq<char>>),
    InstallOutcome(Result<(), Seq<char>>),
}

/// The mathematical model of an [`Action`].
pub enum ActionView {
    CheckServerExists,
    ReportStatus(InstallStatus),
    QueryLatestVersion,
    QueryInstalledVersion,
    InstallPackage(Seq<char>),
    Finish(Result<Seq<char>, ResolveErrorView>),
}

pub open spec fn unit_result_view(r: Result<(), String>) -> Result<(), Seq<char>> {
    match r {
        Ok(()) => Ok(()),
        Err(c) => Err(c@),
    }
}

impl View for Phase {
    type V = PhaseView;

    open spec fn view(&self) -> PhaseView {
        match self {
            Phase::Start => PhaseView::Start,
            Phase::ReportingCheck { exists_now } => PhaseView::ReportingCheck {
                exists_now: *exists_now,
            },
            Phase::AwaitingLatest { exists_now } => PhaseView::AwaitingLatest {
                exists_now: *exists_now,
            },
            Phase::AwaitingInstalled { exists_now, latest } => PhaseView::AwaitingInstalled {
                exists_now: *exists_now,
                latest: latest@,
            },
            Phase::ReportingDownload { latest } => PhaseView::ReportingDownload {
                latest: latest@,
            },
            Phase::Installing => PhaseView::Installing,
            Phase::Rechecking { install } => PhaseView::Rechecking {
                install: unit_result_view(*install),
            },
            Phase::Finished => PhaseView::Finished,
        }
    }
}

impl View for Event {
    type V = EventView;

    open spec fn view(&self) -> EventView {
        match self {
            Event::ServerExists(e) => EventView::ServerExists(*e),
            Event::StatusReported => EventView::StatusReported,
            Event::LatestVersion(r) => EventView::LatestVersion(
                match r {
                    Ok(v) => Ok(v@),
                    Err(c) => Err(c@),
                },
            ),
            Event::InstalledVersion(o) => EventView::InstalledVersion(
                match o {
                    Some(v) => Some(v@),
                    None => None,
                },
            ),
            Event::InstallOutcome(r) => EventView::InstallOutcome(unit_result_view(*r)),
        }
    }
}

impl View for Action {
    type V = ActionView;

    open spec fn view(&self) -> ActionView {
        match self {
            Action::CheckServerExists => ActionView::CheckServerExists,
            Action::ReportStatus(s) => ActionView::ReportStatus(*s),
            Action::QueryLatestVersion => ActionView::QueryLatestVersion,
            Action::QueryInstalledVersion => ActionView::QueryInstalledVersion,
            Action::InstallPackage(v) => ActionView::InstallPackage(v@),
            Action::Finish(r) => ActionView::Finish(
                match r {
                    Ok(p) => Ok(p@),
                    Err(e) => Err(e@),
                },
            ),
        }
    }
}

impl PhaseView {
    /// Whether this phase waits for this kind of answer.
    pub open spec fn accepts(self, event: EventView) -> bool {
        match self {
            PhaseView::Start => event is ServerExists,
            PhaseView::ReportingCheck { .. } => event is StatusReported,
            PhaseView::AwaitingLatest { .. } => event is LatestVersion,
            PhaseView::AwaitingInstalled { .. } => event is InstalledVersion,
            PhaseView::ReportingDownload { .. } => event is StatusReported,
            PhaseView::Installing => event is InstallOutcome,
            PhaseView::Rechecking { .. } => event is ServerExists,
            PhaseView::Finished => false,
        }
    }
}

/// The package is (re)installed when the entry point is absent or the
/// installed version is not, token for token, the latest one.
pub open spec fn needs_install(exists_now: bool, latest: Seq<char>, installed: Option<Seq<char>>) -> bool {
    !exists_now || installed != Some(latest)
}

/// The successful end of a resolution: the fixed entry point.
pub open spec fn found_server() -> ActionView {
    ActionView::Finish(Ok(server_path()))
}

/// One transition of the resolver: from the cached flag, the phase and the
/// host's answer, the new flag, the new phase and the next request.
pub open spec fn step_model(found: bool, phase: PhaseView, event: EventView) -> (bool, PhaseView, ActionView) {
    match phase {
        PhaseView::Start => match event {
            EventView::ServerExists(e) => if found && e {
                (found, PhaseView::Finished, found_server())
            } else {
                (
                    found,
                    PhaseView::ReportingCheck { exists_now: e },
                    ActionView::ReportStatus(InstallStatus::CheckingForUpdate),
                )
            },
            _ => (found, phase, ActionView::CheckServerExists),
        },
        PhaseView::ReportingCheck { exists_now } => (
            found,
            PhaseView::AwaitingLatest { exists_now },
            ActionView::QueryLatestVersion,
        ),
        PhaseView::AwaitingLatest { exists_now } => match event {
            EventView::LatestVersion(Ok(v)) => (
                found,
                PhaseView::AwaitingInstalled { exists_now, latest: v },
                ActionView::QueryInstalledVersion,
            ),
            EventView::LatestVersion(Err(c)) => (
                found,
                PhaseView::Finished,
                ActionView::Finish(Err(ResolveErrorView::RegistryUnavailable(c))),
            ),
            _ => (found, phase, ActionView::QueryLatestVersion),
        },
        PhaseView::AwaitingInstalled { exists_now, latest } => match event {
            EventView::InstalledVersion(installed) => if needs_install(exists_now, latest, installed) {
                (
                    found,
                    PhaseView::ReportingDownload { latest },
                    ActionView::ReportStatus(InstallStatus::Downloading),
                )
            } else {
                (true, PhaseView::Finished, found_server())
            },
            _ => (found, phase, ActionView::QueryInstalledVersion),
        },
        PhaseView::ReportingDownload { latest } => (
            found,
            PhaseView::Installing,
            ActionView::InstallPackage(latest),
        ),
        PhaseView::Installing => match event {
            EventView::InstallOutcome(r) => (
                found,
                PhaseView::Rechecking { install: r },
                ActionView::CheckServerExists,
            ),
            _ => (found, phase, ActionView::CheckServerExists),
        },
        PhaseView::Rechecking { install } => match event {
            EventView::ServerExists(true) => (true, PhaseView::Finished, found_server()),
            _ => (
                found,
                PhaseView::Finished,
                ActionView::Finish(
                    Err(
                        match install {
                            Ok(()) => ResolveErrorView::PackageMissingExpectedEntryPoint,
                            Err(c) => ResolveErrorView::InstallFailed(c),
                        },
                    ),
                ),
            ),
        },
        PhaseView::Finished => (found, phase, ActionView::CheckServerExists),
    }
}

/// The resolver's state for one activation of the extension: whether a
/// resolution has already confirmed the entry point in this process.
pub struct SolidityExtension {
    did_find_server: bool,
}

impl SolidityExtension {
    /// The cached flag: once true, it stays true.
    pub closed spec fn found(&self) -> bool {
        self.did_find_server
    }

    /// A fresh resolver, which has found nothing yet.
    pub fn new() -> (r: SolidityExtension)
        ensures
            !r.found(),
    {
        SolidityExtension { did_find_server: false }
    }

    /// Whether a resolution has already confirmed the entry point.
    pub fn did_find_server(&self) -> (r: bool)
        ensures
            r == self.found(),
    {
        self.did_find_server
    }

    /// Takes the host's answer to the last request and gives the next phase and
    /// request. A resolution starts in `Phase::Start`, whose request is a check
    /// that the entry point is present, and ends with `Action::Finish`.
    pub fn step(&mut self, phase: Phase, event: Event) -> (r: (Phase, Action))
        requires
            phase@.accepts(event@),
        ensures
            (final(self).found(), r.0@, r.1@) == step_model(old(self).found(), phase@, event@),
    {
        match phase {
            Phase::Start => {
                let exists_now = match event {
                    Event::ServerExists(e) => e,
                    _ => false,
                };
                if self.did_find_server && exists_now {
                    (Phase::Finished, Action::Finish(Ok(String::from_str(SERVER_PATH))))
                } else {
                    (
                        Phase::ReportingCheck { exists_now },
                        Action::ReportStatus(InstallStatus::CheckingForUpdate),
                    )
                }
            },
            Phase::ReportingCheck { exists_now } => {
                (Phase::AwaitingLatest { exists_now }, Action::QueryLatestVersion)
            },
            Phase::AwaitingLatest { exists_now } => match event {
                Event::LatestVersion(Ok(latest)) => {
                    (Phase::AwaitingInstalled { exists_now, latest }, Action::QueryInstalledVersion)
                },
                Event::LatestVersion(Err(c)) => {
                    (Phase::Finished, Action::Finish(Err(ResolveError::RegistryUnavailable(c))))
                },
                _ => (Phase::AwaitingLatest { exists_now }, Action::QueryLatestVersion),
            },
            Phase::AwaitingInstalled { exists_now, latest } => {
                let current = match &event {
                    Event::InstalledVersion(Some(installed)) => installed.eq(&latest),
                    _ => false,
                };
                if !exists_now || !current {
                    (
                        Phase::ReportingDownload { latest },
                        Action::ReportStatus(InstallStatus::Downloading),
                    )
                } else {
                    self.did_find_server = true;
                    (Phase::Finished, Action::Finish(Ok(String::from_str(SERVER_PATH))))
                }
            },
            Phase::ReportingDownload { latest } => {
                (Phase::Installing, Action::InstallPackage(latest))
            },
            Phase::Installing => match event {
                Event::InstallOutcome(install) => {
                    (Phase::Rechecking { install }, Action::CheckServerExists)
                },
                _ => (Phase::Installing, Action::CheckServerExists),
            },
            Phase::Rechecking { install } => {
                let exists_now = match event {
                    Event::ServerExists(e) => e,
                    _ => false,
                };
                if exists_now {
                    self.did_find_server = true;
                    (Phase::Finished, Action::Finish(Ok(String::from_str(SERVER_PATH))))
                } else {
                    let error = match install {
                        Ok(()) => ResolveError::PackageMissingExpectedEntryPoint,
                        Err(c) => ResolveError::InstallFailed(c),
                    };
                    (Phase::Finished, Action::Finish(Err(error)))
                }
            },
            Phase::Finished => (Phase::Finished, Action::CheckServerExists),
        }
    }
}

impl Phase {
    /// Whether this phase waits for this kind of answer; `step` takes only
    /// such an answer.
    pub fn accepts(&self, event: &Event) -> (r: bool)
        ensures
            r == self@.accepts(event@),
    {
        match self {
            Phase::Start => matches!(event, Event::ServerExists(_)),
            Phase::ReportingCheck { .. } => matches!(event, Event::StatusReported),
            Phase::AwaitingLatest { .. } => matches!(event, Event::LatestVersion(_)),
            Phase::AwaitingInstalled { .. } => matches!(event, Event::InstalledVersion(_)),
            Phase::ReportingDownload { .. } => matches!(event, Event::StatusReported),
            Phase::Installing => matches!(event, Event::InstallOutcome(_)),
            Phase::Rechecking { .. } => matches!(event, Event::ServerExists(_)),
            Phase::Finished => false,
        }
    }
}

} // verus!
