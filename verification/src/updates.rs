//! How the client is brought up to date: what the user sees of it, and what may be
//! started when.
use crate::text::concat;
use vstd::prelude::*;
use vstd::string::*;

verus! {

/// A release of the client.
#[derive(Clone, Debug)]
pub struct ReleaseInfo {
    pub version: String,
    pub asset_name: String,
    pub html_url: String,
}

/// What a look for releases found.
#[derive(Clone, Debug)]
pub enum CheckOutcome {
    UpToDate { latest_version: String, html_url: String },
    UpdateAvailable(ReleaseInfo),
}

#[derive(Clone, Debug)]
pub enum UpdateUiState {
    Unsupported(String),
    Idle,
    Checking,
    UpToDate { version: String, html_url: String },
    UpdateAvailable(ReleaseInfo),
    Downloading { version: String },
    ClosingForUpdate { version: String },
    Error(String),
}

/// What a worker reports.
#[derive(Debug)]
pub enum UpdateWorkerEvent {
    CheckFinished(Result<CheckOutcome, String>),
    InstallPrepared { version: String, result: Result<(), String> },
}

impl UpdateUiState {
    /// A worker is busy.
    pub open spec fn busy(self) -> bool {
        self is Checking || self is Downloading
    }

    pub fn is_busy(&self) -> (r: bool)
        ensures
            r == self.busy(),
    {
        matches!(self, UpdateUiState::Checking | UpdateUiState::Downloading { .. })
    }

    /// The user can ask for a look at the releases.
    pub open spec fn checkable(self) -> bool {
        !self.busy() && !(self is Unsupported)
    }

    pub fn can_check(&self) -> (r: bool)
        ensures
            r == self.checkable(),
    {
        !self.is_busy() && !matches!(self, UpdateUiState::Unsupported(_))
    }

    /// The state after a worker's report.
    pub open spec fn reported(event: UpdateWorkerEvent) -> UpdateUiState {
        match event {
            UpdateWorkerEvent::CheckFinished(Ok(CheckOutcome::UpToDate {
                latest_version,
                html_url,
            })) => UpdateUiState::UpToDate { version: latest_version, html_url },
            UpdateWorkerEvent::CheckFinished(Ok(CheckOutcome::UpdateAvailable(release))) =>
                UpdateUiState::UpdateAvailable(release),
            UpdateWorkerEvent::CheckFinished(Err(error)) => UpdateUiState::Error(error),
            UpdateWorkerEvent::InstallPrepared {
                version,
                result: Ok(()),
            } => UpdateUiState::ClosingForUpdate { version },
            UpdateWorkerEvent::InstallPrepared { result: Err(error), .. } => UpdateUiState::Error(
                error,
            ),
        }
    }

    /// Takes in a worker's report.
    pub fn process_update_event(&mut self, event: UpdateWorkerEvent)
        ensures
            *final(self) == UpdateUiState::reported(event),
    {
        *self = match event {
            UpdateWorkerEvent::CheckFinished(result) => match result {
                Ok(CheckOutcome::UpToDate { latest_version, html_url }) => UpdateUiState::UpToDate {
                    version: latest_version,
                    html_url,
                },
                Ok(CheckOutcome::UpdateAvailable(release)) => UpdateUiState::UpdateAvailable(
                    release,
                ),
                Err(error) => UpdateUiState::Error(error),
            },
            UpdateWorkerEvent::InstallPrepared { version, result } => match result {
                Ok(()) => UpdateUiState::ClosingForUpdate { version },
                Err(error) => UpdateUiState::Error(error),
            },
        };
    }

    /// Starts a look at the releases, unless one is not possible now. Returns
    /// whether a worker is to be started.
    pub fn begin_update_check(&mut self) -> (start: bool)
        ensures
            start == old(self).checkable(),
            start ==> *final(self) is Checking,
            !start ==> *final(self) == *old(self),
    {
        if !self.can_check() {
            return false;
        }
        *self = UpdateUiState::Checking;
        true
    }

    /// Starts the installation of a release, unless one is under way. Returns
    /// whether a worker is to be started.
    pub fn begin_update_install(&mut self, release: &ReleaseInfo) -> (start: bool)
        ensures
            start == !(*old(self) is Downloading),
            start ==> (*final(self) matches UpdateUiState::Downloading { version } && version@
                == release.version@),
            !start ==> *final(self) == *old(self),
    {
        if matches!(self, UpdateUiState::Downloading { .. }) {
            return false;
        }
        *self = UpdateUiState::Downloading { version: release.version.clone() };
        true
    }

    /// The window closes so that the new release can take its place.
    pub fn closes_window(&self) -> (r: bool)
        ensures
            r == (*self is ClosingForUpdate),
    {
        matches!(self, UpdateUiState::ClosingForUpdate { .. })
    }

    pub open spec fn text(self, compact: bool) -> Seq<char> {
        match self {
            UpdateUiState::Unsupported(message) => message@,
            UpdateUiState::Idle => if compact {
                "Check GitHub releases and replace the installed package in place."@
            } else {
                "Check the client GitHub releases and stage a full in-place package update for this platform."@
            },
            UpdateUiState::Checking => "Checking GitHub releases..."@,
            UpdateUiState::UpToDate { version, .. } => "Up to date. Latest release: v"@ + version@,
            UpdateUiState::UpdateAvailable(release) => "Update available: v"@ + release.version@,
            UpdateUiState::Downloading { version } => "Downloading and installing v"@ + version@
                + "..."@,
            UpdateUiState::ClosingForUpdate { version } => "v"@ + version@
                + " is staged. Closing the client so the package updater can finish."@,
            UpdateUiState::Error(message) => message@,
        }
    }

    /// What the user is told.
    pub fn description(&self, compact: bool) -> (s: String)
        ensures
            s@ == self.text(compact),
    {
        match self {
            UpdateUiState::Unsupported(message) => message.clone(),
            UpdateUiState::Idle => if compact {
                "Check GitHub releases and replace the installed package in place.".to_owned()
            } else {
                "Check the client GitHub releases and stage a full in-place package update for this platform.".to_owned()
            },
            UpdateUiState::Checking => "Checking GitHub releases...".to_owned(),
            UpdateUiState::UpToDate { version, .. } => concat(
                "Up to date. Latest release: v",
                version.as_str(),
            ),
            UpdateUiState::UpdateAvailable(release) => concat(
                "Update available: v",
                release.version.as_str(),
            ),
            UpdateUiState::Downloading { version } => {
                let mut s = concat("Downloading and installing v", version.as_str());
                s.append("...");
                s
            },
            UpdateUiState::ClosingForUpdate { version } => {
                let mut s = concat("v", version.as_str());
                s.append(" is staged. Closing the client so the package updater can finish.");
                s
            },
            UpdateUiState::Error(message) => message.clone(),
        }
    }
}

/// Where the client cannot be brought up to date, no look at the releases starts,
/// and while one worker is busy no other does.
pub proof fn one_worker_at_a_time(state: UpdateUiState)
    ensures
        state is Unsupported ==> !state.checkable(),
        state.busy() ==> !state.checkable(),
{
}

} // verus!
