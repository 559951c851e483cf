//! The steps of checking for, downloading and installing a system update. Each step takes
//! the state and what the admin service answered to the previous request, and gives the
//! new state and the next request; the caller carries the requests to the admin service.
use vstd::prelude::*;
use crate::settings_action::{AuthModeV, UpdateServerAuthMode};
use crate::text::{concat, push_char, trim, trim_str};
use crate::update_state::{progress_of, Progress, UpdateActivity, UpdateStateData, UpdateStateV};

verus! {

/// Credentials for the update server.
pub enum RegistryAuth {
    Basic { username: String, password: String },
}

impl View for RegistryAuth {
    type V = (Seq<char>, Seq<char>);

    open spec fn view(&self) -> (Seq<char>, Seq<char>) {
        match self {
            RegistryAuth::Basic { username, password } => (username@, password@),
        }
    }
}

impl RegistryAuth {
    /// A copy of the credentials.
    pub fn duplicate(&self) -> (r: Self)
        ensures
            r@ == self@,
    {
        match self {
            RegistryAuth::Basic { username, password } => RegistryAuth::Basic {
                username: username.clone(),
                password: password.clone(),
            },
        }
    }
}

/// The view of optional credentials.
pub open spec fn auth_view(a: Option<RegistryAuth>) -> Option<(Seq<char>, Seq<char>)> {
    match a {
        Some(x) => Some(x@),
        None => None,
    }
}

/// An update that the registry offers.
pub struct AvailableUpdate {
    pub repository: String,
    pub tag: String,
    pub version: String,
}

/// Why an update step did not go through.
pub enum UpdateError {
    ReferenceNotConfigured,
    CredentialsMissing,
    OAuthNotImplemented,
    NoUpdateAvailable,
    NotReady,
    ManifestMissing,
    /// The admin service failed, with its message.
    Rpc(String),
}

/// A failure as a mathematical value.
pub enum UpdateErrorV {
    ReferenceNotConfigured,
    CredentialsMissing,
    OAuthNotImplemented,
    NoUpdateAvailable,
    NotReady,
    ManifestMissing,
    Rpc(Seq<char>),
}

impl View for UpdateError {
    type V = UpdateErrorV;

    open spec fn view(&self) -> UpdateErrorV {
        match self {
            UpdateError::ReferenceNotConfigured => UpdateErrorV::ReferenceNotConfigured,
            UpdateError::CredentialsMissing => UpdateErrorV::CredentialsMissing,
            UpdateError::OAuthNotImplemented => UpdateErrorV::OAuthNotImplemented,
            UpdateError::NoUpdateAvailable => UpdateErrorV::NoUpdateAvailable,
            UpdateError::NotReady => UpdateErrorV::NotReady,
            UpdateError::ManifestMissing => UpdateErrorV::ManifestMissing,
            UpdateError::Rpc(m) => UpdateErrorV::Rpc(m@),
        }
    }
}

/// The text that tells a user what went wrong.
pub open spec fn error_message(e: UpdateErrorV) -> Seq<char> {
    match e {
        UpdateErrorV::ReferenceNotConfigured => "update server reference is not configured"@,
        UpdateErrorV::CredentialsMissing =>
            "update server user/password auth requires both username and password"@,
        UpdateErrorV::OAuthNotImplemented => "OAuth update server auth is not implemented yet"@,
        UpdateErrorV::NoUpdateAvailable => "no update is available to download"@,
        UpdateErrorV::NotReady => "update package is not ready"@,
        UpdateErrorV::ManifestMissing => "downloaded update manifest is missing"@,
        UpdateErrorV::Rpc(m) => m,
    }
}

impl UpdateError {
    /// The text that tells a user what went wrong.
    pub fn message(&self) -> (r: String)
        ensures
            r@ == error_message(self@),
    {
        match self {
            UpdateError::ReferenceNotConfigured => "update server reference is not configured".to_owned(),
            UpdateError::CredentialsMissing =>
                "update server user/password auth requires both username and password".to_owned(),
            UpdateError::OAuthNotImplemented => "OAuth update server auth is not implemented yet".to_owned(),
            UpdateError::NoUpdateAvailable => "no update is available to download".to_owned(),
            UpdateError::NotReady => "update package is not ready".to_owned(),
            UpdateError::ManifestMissing => "downloaded update manifest is missing".to_owned(),
            UpdateError::Rpc(m) => m.clone(),
        }
    }
}

/// What the admin service reports while it pulls an update.
pub enum PullEvent {
    PullStarted,
    BlobDownloading { downloaded: u64, total: Option<u64> },
    BlobVerified,
    ManifestWritten,
    Done,
    Cancelled,
}

/// The progress that a pull report stands for: the share of a blob downloaded, all of it once
/// something is verified or written, nothing otherwise.
pub open spec fn pull_progress_spec(e: Option<PullEvent>) -> Progress {
    match e {
        Some(PullEvent::BlobDownloading { downloaded, total }) => progress_of(downloaded, total),
        Some(PullEvent::BlobVerified) | Some(PullEvent::ManifestWritten) | Some(PullEvent::Done) =>
            Progress { done: 1, total: 1 },
        _ => Progress { done: 0, total: 1 },
    }
}

/// The progress that a pull report stands for.
pub fn pull_progress(e: &Option<PullEvent>) -> (r: Progress)
    ensures
        r == pull_progress_spec(*e),
        r.wf(),
{
    match e {
        Some(PullEvent::BlobDownloading { downloaded, total }) => Progress::of(*downloaded, *total),
        Some(PullEvent::BlobVerified) | Some(PullEvent::ManifestWritten) | Some(PullEvent::Done) =>
            Progress::full(),
        _ => Progress::zero(),
    }
}

/// The update server reference as entered, without white space at its ends; an empty one is
/// not configured.
pub open spec fn registry_reference_spec(reference: Seq<char>) -> Result<Seq<char>, UpdateErrorV> {
    if trim(reference).len() == 0 {
        Err(UpdateErrorV::ReferenceNotConfigured)
    } else {
        Ok(trim(reference))
    }
}

/// The credentials a sign-in mode gives: none for anonymous access, user and password when
/// both are given, an error otherwise.
pub open spec fn registry_auth_spec(mode: AuthModeV) -> Result<
    Option<(Seq<char>, Seq<char>)>,
    UpdateErrorV,
> {
    match mode {
        AuthModeV::Anonymous => Ok(None),
        AuthModeV::UserPass { username, password } => if username.len() == 0 || password.len()
            == 0 {
            Err(UpdateErrorV::CredentialsMissing)
        } else {
            Ok(Some((username, password)))
        },
        AuthModeV::OAuth { .. } => Err(UpdateErrorV::OAuthNotImplemented),
    }
}

/// The update server reference to use.
pub fn registry_reference(reference: &str) -> (r: Result<String, UpdateError>)
    ensures
        match registry_reference_spec(reference@) {
            Ok(x) => r matches Ok(y) && y@ == x,
            Err(e) => r matches Err(f) && f@ == e,
        },
{
    let t = trim_str(reference);
    if t.as_str().is_empty() {
        Err(UpdateError::ReferenceNotConfigured)
    } else {
        Ok(t)
    }
}

/// The credentials to sign in with.
pub fn registry_auth(mode: &UpdateServerAuthMode) -> (r: Result<Option<RegistryAuth>, UpdateError>)
    ensures
        match registry_auth_spec(mode@) {
            Ok(x) => r matches Ok(y) && auth_view(y) == x,
            Err(e) => r matches Err(f) && f@ == e,
        },
{
    match mode {
        UpdateServerAuthMode::Anonymous => Ok(None),
        UpdateServerAuthMode::UserPass { username, password } => {
            if username.as_str().is_empty() || password.as_str().is_empty() {
                Err(UpdateError::CredentialsMissing)
            } else {
                Ok(Some(RegistryAuth::Basic { username: username.clone(), password: password.clone() }))
            }
        },
        UpdateServerAuthMode::OAuth { .. } => Err(UpdateError::OAuthNotImplemented),
    }
}

/// The update state and what the panel remembers between the steps.
pub struct UpdateModel {
    pub state: UpdateStateData,
    /// The registry reference of the update that a check found.
    pub selected_update_reference: Option<String>,
    /// Where the downloaded update was written.
    pub downloaded_manifest_path: Option<String>,
}

/// The update machinery as a mathematical value.
pub struct UpdateModelV {
    pub state: UpdateStateV,
    pub selected: Option<Seq<char>>,
    pub manifest: Option<Seq<char>>,
}

/// The view of an optional string.
pub open spec fn opt_seq(s: Option<String>) -> Option<Seq<char>> {
    match s {
        Some(x) => Some(x@),
        None => None,
    }
}

impl View for UpdateModel {
    type V = UpdateModelV;

    open spec fn view(&self) -> UpdateModelV {
        UpdateModelV {
            state: self.state@,
            selected: opt_seq(self.selected_update_reference),
            manifest: opt_seq(self.downloaded_manifest_path),
        }
    }
}

/// The state while a check runs: the installed version known, nothing else.
pub open spec fn checking_spec(current: Seq<char>) -> UpdateModelV {
    UpdateModelV {
        state: UpdateStateV {
            current_version: current,
            available_version: Seq::empty(),
            changelog: Seq::empty(),
            download_size_bytes: 0,
            activity: UpdateActivity::Checking,
        },
        selected: None,
        manifest: None,
    }
}

/// The version that the host reported, or `unknown` when it could not be had.
pub open spec fn known_version(v: Result<Seq<char>, Seq<char>>) -> Seq<char> {
    match v {
        Ok(x) => x,
        Err(_) => "unknown"@,
    }
}

/// A check begins: with a usable reference and credentials the state shows a check under
/// way; otherwise it stays and the error comes back.
pub open spec fn check_start_spec(
    m: UpdateModelV,
    current: Result<Seq<char>, Seq<char>>,
    reference: Seq<char>,
    mode: AuthModeV,
) -> (UpdateModelV, Result<(Seq<char>, Option<(Seq<char>, Seq<char>)>), UpdateErrorV>) {
    match registry_reference_spec(reference) {
        Err(e) => (m, Err(e)),
        Ok(r) => match registry_auth_spec(mode) {
            Err(e) => (m, Err(e)),
            Ok(a) => (checking_spec(known_version(current)), Ok((r, a))),
        },
    }
}

/// A check found no update.
pub open spec fn checked_none_spec(m: UpdateModelV) -> UpdateModelV {
    UpdateModelV {
        state: UpdateStateV {
            available_version: Seq::empty(),
            changelog: Seq::empty(),
            download_size_bytes: 0,
            activity: UpdateActivity::Checked,
            ..m.state
        },
        ..m
    }
}

/// A check found the update `version` at `reference`, with a change log when it could be had.
pub open spec fn checked_some_spec(
    m: UpdateModelV,
    reference: Seq<char>,
    version: Seq<char>,
    changelog: Result<Seq<char>, Seq<char>>,
) -> UpdateModelV {
    UpdateModelV {
        state: UpdateStateV {
            available_version: version,
            changelog: match changelog {
                Ok(c) => c,
                Err(_) => Seq::empty(),
            },
            download_size_bytes: 0,
            activity: UpdateActivity::Checked,
            ..m.state
        },
        selected: Some(reference),
        manifest: None,
    }
}

/// The state with activity `a`.
pub open spec fn with_activity(m: UpdateModelV, a: UpdateActivity) -> UpdateModelV {
    UpdateModelV { state: UpdateStateV { activity: a, ..m.state }, ..m }
}

/// A download begins: it needs an update found by a check and usable credentials.
pub open spec fn download_start_spec(m: UpdateModelV, mode: AuthModeV) -> (
    UpdateModelV,
    Result<(Seq<char>, Option<(Seq<char>, Seq<char>)>), UpdateErrorV>,
) {
    match m.selected {
        None => (m, Err(UpdateErrorV::NoUpdateAvailable)),
        Some(r) => match registry_auth_spec(mode) {
            Err(e) => (m, Err(e)),
            Ok(a) => (
                with_activity(m, UpdateActivity::Downloading { progress: Progress { done: 0, total: 1 } }),
                Ok((r, a)),
            ),
        },
    }
}

/// A download ends: the update is ready to install, or the check stands as it was.
pub open spec fn download_finished_spec(m: UpdateModelV, result: Result<Seq<char>, Seq<char>>) -> (
    UpdateModelV,
    Result<(), UpdateErrorV>,
) {
    match result {
        Ok(path) => (
            UpdateModelV { manifest: Some(path), ..with_activity(m, UpdateActivity::Downloaded) },
            Ok(()),
        ),
        Err(e) => (with_activity(m, UpdateActivity::Checked), Err(UpdateErrorV::Rpc(e))),
    }
}

/// An installation begins: it needs a downloaded update with its manifest and version.
pub open spec fn apply_start_spec(m: UpdateModelV) -> (
    UpdateModelV,
    Result<(Seq<char>, Seq<char>), UpdateErrorV>,
) {
    if m.state.activity != UpdateActivity::Downloaded {
        (m, Err(UpdateErrorV::NotReady))
    } else {
        match m.manifest {
            None => (m, Err(UpdateErrorV::ManifestMissing)),
            Some(path) => if m.state.available_version.len() == 0 {
                (m, Err(UpdateErrorV::NotReady))
            } else {
                (
                    with_activity(m, UpdateActivity::Installing { progress: Progress { done: 0, total: 1 } }),
                    Ok((path, m.state.available_version)),
                )
            },
        }
    }
}

/// An installation of `version` ends: it is the installed version and nothing waits, or the
/// download stands as it was.
pub open spec fn apply_finished_spec(
    m: UpdateModelV,
    version: Seq<char>,
    result: Result<(), Seq<char>>,
) -> (UpdateModelV, Result<(), UpdateErrorV>) {
    match result {
        Ok(()) => (
            UpdateModelV {
                state: UpdateStateV {
                    current_version: version,
                    available_version: Seq::empty(),
                    changelog: Seq::empty(),
                    download_size_bytes: 0,
                    activity: UpdateActivity::Installed,
                },
                selected: None,
                manifest: None,
            },
            Ok(()),
        ),
        Err(e) => (with_activity(m, UpdateActivity::Downloaded), Err(UpdateErrorV::Rpc(e))),
    }
}

/// The request for the updates that the registry offers.
pub struct DiscoverRequest {
    pub reference: String,
    pub auth: Option<RegistryAuth>,
    pub insecure: bool,
}

/// The request for the change log of the update found.
pub struct ChangelogRequest {
    pub reference: String,
    pub version: String,
    pub auth: Option<RegistryAuth>,
    pub insecure: bool,
}

/// The request to pull an update to `destination`.
pub struct PullRequest {
    pub reference: String,
    pub destination: String,
    pub auth: Option<RegistryAuth>,
    pub insecure: bool,
}

/// The request to install the downloaded update.
pub struct InstallRequest {
    pub manifest_path: String,
    pub version: String,
}

/// The view of a result whose error is an update failure.
pub open spec fn res_view<T>(r: Result<T, String>) -> Result<T, Seq<char>> {
    match r {
        Ok(x) => Ok(x),
        Err(e) => Err(e@),
    }
}

/// The view of a result whose value is a string.
pub open spec fn str_res_view(r: Result<String, String>) -> Result<Seq<char>, Seq<char>> {
    match r {
        Ok(x) => Ok(x@),
        Err(e) => Err(e@),
    }
}

/// The view of a step's failure.
pub open spec fn unit_res_view(r: Result<(), UpdateError>) -> Result<(), UpdateErrorV> {
    match r {
        Ok(()) => Ok(()),
        Err(e) => Err(e@),
    }
}

/// `repository:tag`, the reference of an update.
pub fn update_reference(u: &AvailableUpdate) -> (r: String)
    ensures
        r@ == u.repository@ + seq![':'] + u.tag@,
{
    let mut r = u.repository.clone();
    push_char(&mut r, ':');
    let r2 = concat(r.as_str(), u.tag.as_str());
    r2
}

impl UpdateModel {
    /// Nothing checked, nothing remembered.
    pub fn new() -> (r: Self)
        ensures
            r@ == (UpdateModelV {
                state: UpdateStateV {
                    current_version: Seq::empty(),
                    available_version: Seq::empty(),
                    changelog: Seq::empty(),
                    download_size_bytes: 0,
                    activity: UpdateActivity::Idle,
                },
                selected: None,
                manifest: None,
            }),
    {
        UpdateModel {
            state: UpdateStateData::new(),
            selected_update_reference: None,
            downloaded_manifest_path: None,
        }
    }

    fn set_activity(&mut self, a: UpdateActivity)
        ensures
            final(self)@ == with_activity(old(self)@, a),
    {
        self.state.activity = a;
    }

    /// Begins a check with the installed version that the host reported (or its failure),
    /// the reference entered and the sign-in mode. Gives the request for the updates on offer.
    pub fn check_start(
        &mut self,
        current_version: Result<String, String>,
        reference: &str,
        auth_mode: &UpdateServerAuthMode,
        insecure: bool,
    ) -> (r: Result<DiscoverRequest, UpdateError>)
        ensures
            ({
                let (m, res) = check_start_spec(old(self)@, str_res_view(current_version), reference@, auth_mode@);
                &&& final(self)@ == m
                &&& match res {
                    Ok((rf, a)) => r matches Ok(q) && q.reference@ == rf && auth_view(q.auth) == a && q.insecure == insecure,
                    Err(e) => r matches Err(f) && f@ == e,
                }
            }),
    {
        let reference = match registry_reference(reference) {
            Ok(x) => x,
            Err(e) => return Err(e),
        };
        let auth = match registry_auth(auth_mode) {
            Ok(x) => x,
            Err(e) => return Err(e),
        };
        let current = match current_version {
            Ok(v) => v,
            Err(_) => "unknown".to_owned(),
        };
        self.selected_update_reference = None;
        self.downloaded_manifest_path = None;
        self.state = UpdateStateData {
            current_version: current,
            available_version: String::new(),
            changelog: String::new(),
            download_size_bytes: 0,
            activity: UpdateActivity::Checking,
        };
        Ok(DiscoverRequest { reference, auth, insecure })
    }

    /// Takes the updates on offer: with none the check ends; with some, the first is the one
    /// whose change log is asked for next. A failure of the admin service leaves the state.
    pub fn check_discovered(
        &mut self,
        request: DiscoverRequest,
        updates: Result<Vec<AvailableUpdate>, String>,
    ) -> (r: Result<Option<ChangelogRequest>, UpdateError>)
        ensures
            match updates {
                Err(e) => final(self)@ == old(self)@ && (r matches Err(f) && f@ == UpdateErrorV::Rpc(e@)),
                Ok(list) => if list@.len() == 0 {
                    final(self)@ == checked_none_spec(old(self)@) && (r matches Ok(None))
                } else {
                    final(self)@ == old(self)@ && (r matches Ok(Some(q)) && q.reference@
                        == list@[0].repository@ + seq![':'] + list@[0].tag@ && q.version@
                        == list@[0].version@ && auth_view(q.auth) == auth_view(request.auth)
                        && q.insecure == request.insecure)
                },
            },
    {
        match updates {
            Err(e) => Err(UpdateError::Rpc(e)),
            Ok(list) => {
                if list.len() == 0 {
                    self.state.available_version = String::new();
                    self.state.changelog = String::new();
                    self.state.download_size_bytes = 0;
                    self.state.activity = UpdateActivity::Checked;
                    Ok(None)
                } else {
                    let reference = update_reference(&list[0]);
                    Ok(Some(ChangelogRequest {
                        reference,
                        version: list[0].version.clone(),
                        auth: request.auth,
                        insecure: request.insecure,
                    }))
                }
            },
        }
    }

    /// Takes the change log of the update found (an empty one when it could not be had) and
    /// ends the check with that update selected.
    pub fn check_changelog(&mut self, request: ChangelogRequest, changelog: Result<String, String>)
        ensures
            final(self)@ == checked_some_spec(old(self)@, request.reference@, request.version@, str_res_view(changelog)),
    {
        let text = match changelog {
            Ok(c) => c,
            Err(_) => String::new(),
        };
        self.selected_update_reference = Some(request.reference);
        self.downloaded_manifest_path = None;
        self.state.available_version = request.version;
        self.state.changelog = text;
        self.state.download_size_bytes = 0;
        self.state.activity = UpdateActivity::Checked;
    }

    /// A download needs a check first when no update is selected.
    pub fn download_needs_check(&self) -> (r: bool)
        ensures
            r == (self@.selected is None),
    {
        self.selected_update_reference.is_none()
    }

    /// Begins the download of the selected update. Gives the request to pull it.
    pub fn download_start(&mut self, auth_mode: &UpdateServerAuthMode, insecure: bool) -> (r: Result<PullRequest, UpdateError>)
        ensures
            ({
                let (m, res) = download_start_spec(old(self)@, auth_mode@);
                &&& final(self)@ == m
                &&& match res {
                    Ok((rf, a)) => r matches Ok(q) && q.reference@ == rf && auth_view(q.auth) == a
                        && q.insecure == insecure && q.destination@ == "/persist/sysupdate"@,
                    Err(e) => r matches Err(f) && f@ == e,
                }
            }),
    {
        let reference = match &self.selected_update_reference {
            Some(r) => r.clone(),
            None => return Err(UpdateError::NoUpdateAvailable),
        };
        let auth = match registry_auth(auth_mode) {
            Ok(x) => x,
            Err(e) => return Err(e),
        };
        self.set_activity(UpdateActivity::Downloading { progress: Progress::zero() });
        Ok(PullRequest { reference, destination: "/persist/sysupdate".to_owned(), auth, insecure })
    }

    /// Shows how far the pull has come.
    pub fn download_progress(&mut self, event: &Option<PullEvent>)
        ensures
            final(self)@ == with_activity(
                old(self)@,
                UpdateActivity::Downloading { progress: pull_progress_spec(*event) },
            ),
    {
        let p = pull_progress(event);
        self.set_activity(UpdateActivity::Downloading { progress: p });
    }

    /// Takes the end of the pull: the path of the manifest written, or the failure.
    pub fn download_finished(&mut self, result: Result<String, String>) -> (r: Result<(), UpdateError>)
        ensures
            ({
                let (m, res) = download_finished_spec(old(self)@, str_res_view(result));
                final(self)@ == m && unit_res_view(r) == res
            }),
    {
        match result {
            Ok(path) => {
                self.downloaded_manifest_path = Some(path);
                self.set_activity(UpdateActivity::Downloaded);
                Ok(())
            },
            Err(e) => {
                self.set_activity(UpdateActivity::Checked);
                Err(UpdateError::Rpc(e))
            },
        }
    }

    /// Begins the installation of the downloaded update. Gives the request to install it.
    pub fn apply_start(&mut self) -> (r: Result<InstallRequest, UpdateError>)
        ensures
            ({
                let (m, res) = apply_start_spec(old(self)@);
                &&& final(self)@ == m
                &&& match res {
                    Ok((path, version)) => r matches Ok(q) && q.manifest_path@ == path && q.version@ == version,
                    Err(e) => r matches Err(f) && f@ == e,
                }
            }),
    {
        if self.state.activity != UpdateActivity::Downloaded {
            return Err(UpdateError::NotReady);
        }
        let manifest_path = match &self.downloaded_manifest_path {
            Some(p) => p.clone(),
            None => return Err(UpdateError::ManifestMissing),
        };
        if self.state.available_version.as_str().is_empty() {
            return Err(UpdateError::NotReady);
        }
        let version = self.state.available_version.clone();
        self.set_activity(UpdateActivity::Installing { progress: Progress::zero() });
        Ok(InstallRequest { manifest_path, version })
    }

    /// Takes the end of the installation.
    pub fn apply_finished(&mut self, request: InstallRequest, result: Result<(), String>) -> (r: Result<(), UpdateError>)
        ensures
            ({
                let (m, res) = apply_finished_spec(old(self)@, request.version@, res_view(result));
                final(self)@ == m && unit_res_view(r) == res
            }),
    {
        match result {
            Ok(()) => {
                self.selected_update_reference = None;
                self.downloaded_manifest_path = None;
                self.state = UpdateStateData {
                    current_version: request.version,
                    available_version: String::new(),
                    changelog: String::new(),
                    download_size_bytes: 0,
                    activity: UpdateActivity::Installed,
                };
                Ok(())
            },
            Err(e) => {
                self.set_activity(UpdateActivity::Downloaded);
                Err(UpdateError::Rpc(e))
            },
        }
    }

    /// Shows the installed version that the host reported.
    pub fn set_update_current_version(&mut self, current_version: String)
        ensures
            final(self)@ == (UpdateModelV {
                state: UpdateStateV { current_version: current_version@, ..old(self)@.state },
                ..old(self)@
            }),
    {
        self.state.current_version = current_version;
    }

    /// The state that the panel shows when it runs without the admin service and a check
    /// finds an update.
    pub fn seed_mock_update_state(&mut self, current_version: String)
        ensures
            final(self)@ == (UpdateModelV {
                state: UpdateStateV {
                    current_version: current_version@,
                    available_version: "0.0.1-mock"@,
                    changelog: mock_changelog(),
                    download_size_bytes: 16106127360u64,
                    activity: UpdateActivity::Checked,
                },
                ..old(self)@
            }),
    {
        self.state.current_version = current_version;
        self.state.available_version = "0.0.1-mock".to_owned();
        self.state.changelog = "Mock update:\n- Re-frobnicate frobnicators\n- De-spaghettify the update pipeline\n- Encourage the progress bar to keep its day job\n- Reduce existential dread in the installer".to_owned();
        self.state.download_size_bytes = 15 * 1024 * 1024 * 1024;
        self.state.activity = UpdateActivity::Checked;
    }

    /// The state that the panel shows when it runs without the admin service and a check
    /// finds nothing.
    pub fn seed_mock_no_update_state(&mut self, current_version: String)
        ensures
            final(self)@ == (UpdateModelV {
                state: UpdateStateV {
                    current_version: current_version@,
                    available_version: Seq::empty(),
                    changelog: Seq::empty(),
                    download_size_bytes: 0,
                    activity: UpdateActivity::Checked,
                },
                ..old(self)@
            }),
    {
        self.state.current_version = current_version;
        self.state.available_version = String::new();
        self.state.changelog = String::new();
        self.state.download_size_bytes = 0;
        self.state.activity = UpdateActivity::Checked;
    }

    /// A check without the admin service: the first finds nothing, later ones find the
    /// sample update; returns the number of checks made after this one.
    pub fn mock_check(&mut self, attempt: u32, current_version: String) -> (r: u32)
        ensures
            r == (if attempt == u32::MAX { attempt } else { (attempt + 1) as u32 }),
            attempt == 0 ==> final(self)@.state.available_version.len() == 0,
            attempt != 0 ==> final(self)@.state.available_version == "0.0.1-mock"@,
            final(self)@.state.activity == UpdateActivity::Checked,
            final(self)@.state.current_version == current_version@,
    {
        if attempt == 0 {
            self.seed_mock_no_update_state(current_version);
        } else {
            self.seed_mock_update_state(current_version);
        }
        attempt.saturating_add(1)
    }
}

/// The change log of the sample update.
pub open spec fn mock_changelog() -> Seq<char> {
    "Mock update:\n- Re-frobnicate frobnicators\n- De-spaghettify the update pipeline\n- Encourage the progress bar to keep its day job\n- Reduce existential dread in the installer"@
}

/// Law: an installation can only begin from a downloaded update; otherwise nothing changes
/// and the update is reported not ready.
pub proof fn law_install_needs_download(m: UpdateModelV)
    requires
        m.state.activity != UpdateActivity::Downloaded,
    ensures
        apply_start_spec(m) == (m, Err::<(Seq<char>, Seq<char>), UpdateErrorV>(UpdateErrorV::NotReady)),
{
}

/// Law: an installation that begins and succeeds makes the downloaded version the installed
/// one, with nothing left to install.
pub proof fn law_install_success(m: UpdateModelV)
    requires
        apply_start_spec(m).1 is Ok,
    ensures
        ({
            let (m1, res) = apply_start_spec(m);
            let (m2, r2) = apply_finished_spec(m1, res->Ok_0.1, Ok(()));
            &&& m2.state.current_version == m.state.available_version
            &&& m2.state.available_version.len() == 0
            &&& m2.state.activity == UpdateActivity::Installed
            &&& m2.selected is None
            &&& m2.manifest is None
            &&& r2 is Ok
        }),
{
}

/// Law: an installation that begins and fails leaves the downloaded update as it was.
pub proof fn law_install_failure_keeps_download(m: UpdateModelV, e: Seq<char>)
    requires
        apply_start_spec(m).1 is Ok,
    ensures
        ({
            let (m1, res) = apply_start_spec(m);
            let (m2, r2) = apply_finished_spec(m1, res->Ok_0.1, Err(e));
            &&& m2 == m
            &&& r2 == Err::<(), UpdateErrorV>(UpdateErrorV::Rpc(e))
        }),
{
    assert(m.state.activity == UpdateActivity::Downloaded);
}

/// Law: a download that begins and fails leaves the check's result, the update still
/// selected.
pub proof fn law_download_failure_keeps_check(m: UpdateModelV, mode: AuthModeV, e: Seq<char>)
    requires
        download_start_spec(m, mode).1 is Ok,
    ensures
        ({
            let (m1, _) = download_start_spec(m, mode);
            let (m2, r2) = download_finished_spec(m1, Err(e));
            &&& m2 == with_activity(m, UpdateActivity::Checked)
            &&& m2.selected == m.selected
            &&& r2 == Err::<(), UpdateErrorV>(UpdateErrorV::Rpc(e))
        }),
{
}

/// Law: a download that begins and succeeds can be installed, and installs the version that
/// the check found.
pub proof fn law_download_then_install(m: UpdateModelV, mode: AuthModeV, path: Seq<char>)
    requires
        download_start_spec(m, mode).1 is Ok,
        m.state.available_version.len() > 0,
    ensures
        ({
            let (m1, _) = download_start_spec(m, mode);
            let (m2, _) = download_finished_spec(m1, Ok(path));
            apply_start_spec(m2) == (
                with_activity(m2, UpdateActivity::Installing { progress: Progress { done: 0, total: 1 } }),
                Ok::<(Seq<char>, Seq<char>), UpdateErrorV>((path, m.state.available_version)),
            )
        }),
{
}

/// Law: a check that finds an update ends with it selected and shown, one that finds none ends
/// with nothing to offer; either way the check has ended.
pub proof fn law_check_ends_checked(
    m: UpdateModelV,
    reference: Seq<char>,
    version: Seq<char>,
    changelog: Result<Seq<char>, Seq<char>>,
)
    ensures
        checked_none_spec(m).state.activity == UpdateActivity::Checked,
        checked_none_spec(m).state.available_version.len() == 0,
        checked_some_spec(m, reference, version, changelog).state.activity == UpdateActivity::Checked,
        checked_some_spec(m, reference, version, changelog).state.available_version == version,
        checked_some_spec(m, reference, version, changelog).selected == Some(reference),
{
}

/// Law: a step refused for want of a reference, of credentials or of a selected update
/// changes nothing.
pub proof fn law_refused_steps_change_nothing(
    m: UpdateModelV,
    current: Result<Seq<char>, Seq<char>>,
    reference: Seq<char>,
    mode: AuthModeV,
)
    ensures
        check_start_spec(m, current, reference, mode).1 is Err ==> check_start_spec(m, current, reference, mode).0 == m,
        download_start_spec(m, mode).1 is Err ==> download_start_spec(m, mode).0 == m,
        apply_start_spec(m).1 is Err ==> apply_start_spec(m).0 == m,
{
}

} // verus!
