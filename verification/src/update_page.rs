//! The update page: which of its controls show and respond in each step of an update, its
//! labels, and the update server settings it keeps.
use vstd::prelude::*;
use crate::app_config::{UpdateServerConfig, UpdateServerConfigV};
use crate::settings_action::{AuthModeV, SettingsAction, SettingsActionV, UpdateServerAuthMode};
use crate::text::{concat, decimal, decimal_str, owned, str_eq, trim, trim_str};
use crate::update_state::{Progress, UpdateActivity};

verus! {

/// How a control is shown.
#[derive(Debug, Clone, Copy, PartialEq, Eq, Structural)]
pub enum WidgetState {
    Sensitive,
    Insensitive,
    Invisible,
}

/// Whether a control shows and responds.
#[derive(Debug, Clone, Copy, PartialEq, Eq, Structural)]
pub struct WidgetView {
    pub visible: bool,
    pub sensitive: bool,
}

/// The control in the given state.
pub open spec fn widget_in(s: WidgetState) -> WidgetView {
    match s {
        WidgetState::Sensitive => WidgetView { visible: true, sensitive: true },
        WidgetState::Insensitive => WidgetView { visible: true, sensitive: false },
        WidgetState::Invisible => WidgetView { visible: false, sensitive: false },
    }
}

/// The control shown or hidden, its sensitivity kept.
pub open spec fn shown(w: WidgetView, visible: bool) -> WidgetView {
    WidgetView { visible, ..w }
}

/// The text on the progress bar.
#[derive(Debug, Clone, Copy, PartialEq, Eq, Structural)]
pub enum ProgressText {
    Empty,
    Checking,
    Installing,
    Percent(u64),
}

/// The controls of the update page.
#[derive(Debug, Clone, Copy, PartialEq, Eq, Structural)]
pub struct UpdatePageView {
    pub check_button: WidgetView,
    pub checking_box: WidgetView,
    pub no_updates_box: WidgetView,
    pub install_finished_box: WidgetView,
    pub update_details_box: WidgetView,
    pub operation_progress: WidgetView,
    pub download_button: WidgetView,
    pub update_button: WidgetView,
    pub progress_text: ProgressText,
    pub pulsing: bool,
}

/// Every transient part of the page hidden.
pub open spec fn reset_spec(v: UpdatePageView) -> UpdatePageView {
    UpdatePageView {
        checking_box: shown(v.checking_box, false),
        no_updates_box: shown(v.no_updates_box, false),
        install_finished_box: shown(v.install_finished_box, false),
        update_details_box: shown(v.update_details_box, false),
        operation_progress: shown(v.operation_progress, false),
        download_button: shown(v.download_button, false),
        update_button: shown(v.update_button, false),
        ..v
    }
}

/// The rounded percentage of a progress.
pub open spec fn percent_spec(p: Progress) -> int {
    (200 * p.done + p.total) / (2 * p.total as int)
}

/// The page while nothing is under way.
pub open spec fn idle_spec(v: UpdatePageView) -> UpdatePageView {
    UpdatePageView { check_button: widget_in(WidgetState::Sensitive), ..reset_spec(v) }
}

/// The page while an update is looked for.
pub open spec fn checking_spec(v: UpdatePageView) -> UpdatePageView {
    let r = reset_spec(v);
    UpdatePageView {
        checking_box: shown(r.checking_box, true),
        check_button: widget_in(WidgetState::Insensitive),
        operation_progress: widget_in(WidgetState::Sensitive),
        progress_text: ProgressText::Checking,
        ..r
    }
}

/// The page once it is known whether an update is available.
pub open spec fn checked_spec(v: UpdatePageView, available: bool) -> UpdatePageView {
    UpdatePageView {
        check_button: widget_in(
            if available {
                WidgetState::Invisible
            } else {
                WidgetState::Sensitive
            },
        ),
        no_updates_box: shown(v.no_updates_box, !available),
        update_details_box: shown(v.update_details_box, available),
        download_button: shown(v.download_button, available),
        ..v
    }
}

/// The page while an update is downloaded.
pub open spec fn downloading_spec(v: UpdatePageView, available: bool, p: Progress) -> UpdatePageView {
    UpdatePageView {
        check_button: widget_in(WidgetState::Invisible),
        update_details_box: shown(v.update_details_box, available),
        operation_progress: widget_in(WidgetState::Sensitive),
        progress_text: ProgressText::Percent(percent_spec(p) as u64),
        download_button: widget_in(WidgetState::Insensitive),
        ..v
    }
}

/// The page once an update is downloaded.
pub open spec fn downloaded_spec(v: UpdatePageView, available: bool) -> UpdatePageView {
    UpdatePageView {
        check_button: widget_in(WidgetState::Invisible),
        update_details_box: shown(v.update_details_box, available),
        update_button: shown(v.update_button, available),
        ..v
    }
}

/// The page while an update is installed.
pub open spec fn installing_spec(v: UpdatePageView, available: bool) -> UpdatePageView {
    UpdatePageView {
        check_button: widget_in(WidgetState::Invisible),
        update_details_box: shown(v.update_details_box, available),
        operation_progress: widget_in(WidgetState::Sensitive),
        progress_text: ProgressText::Installing,
        pulsing: true,
        update_button: widget_in(WidgetState::Insensitive),
        ..v
    }
}

/// The page once an update is installed.
pub open spec fn installed_spec(v: UpdatePageView) -> UpdatePageView {
    let r = reset_spec(v);
    UpdatePageView {
        check_button: widget_in(WidgetState::Invisible),
        install_finished_box: shown(r.install_finished_box, true),
        ..r
    }
}

/// The page for an activity, after the progress animation stopped.
#[verifier::opaque]
pub open spec fn sync_spec(v: UpdatePageView, activity: UpdateActivity, available: bool) -> UpdatePageView {
    let s = UpdatePageView { pulsing: false, ..v };
    match activity {
        UpdateActivity::Idle => idle_spec(s),
        UpdateActivity::Checking => checking_spec(s),
        UpdateActivity::Checked => checked_spec(s, available),
        UpdateActivity::Downloading { progress } => downloading_spec(s, available, progress),
        UpdateActivity::Downloaded => downloaded_spec(s, available),
        UpdateActivity::Installing { .. } => installing_spec(s, available),
        UpdateActivity::Installed => installed_spec(s),
    }
}

/// The page when it is shown again: nothing under way and every button responds.
pub open spec fn apply_idle_spec(v: UpdatePageView) -> UpdatePageView {
    let r = reset_spec(UpdatePageView { pulsing: false, ..v });
    UpdatePageView {
        check_button: WidgetView { visible: true, sensitive: true },
        download_button: WidgetView { sensitive: true, ..r.download_button },
        update_button: WidgetView { sensitive: true, ..r.update_button },
        ..r
    }
}

/// The index of a sign-in mode in the page's list: anonymous, user and password, OAuth.
pub open spec fn auth_mode_index_spec(name: Seq<char>) -> u32 {
    if name == "anonymous"@ {
        0
    } else if name == "oauth"@ {
        2
    } else {
        1
    }
}

/// The name under which a sign-in mode of the list is kept.
pub open spec fn auth_mode_name_spec(index: u32) -> Seq<char> {
    if index == 0 {
        "anonymous"@
    } else if index == 2 {
        "oauth"@
    } else {
        "user-pass"@
    }
}

/// The sign-in mode a request carries for the selected list entry.
pub open spec fn auth_mode_spec(selected: u32, username: Seq<char>, password: Seq<char>) -> AuthModeV {
    if selected == 1 {
        AuthModeV::UserPass { username, password }
    } else if selected == 2 {
        AuthModeV::OAuth { token: Seq::empty() }
    } else {
        AuthModeV::Anonymous
    }
}

/// Which request to the update server a button makes.
#[derive(Debug, Clone, Copy, PartialEq, Eq, Structural)]
pub enum UpdateServerRequestKind {
    Check,
    Download,
}

impl UpdatePageView {
    /// The page as it is built: everything shown, nothing under way.
    pub fn new() -> (r: Self)
        ensures
            r == idle_spec(UpdatePageView {
                check_button: widget_in(WidgetState::Sensitive),
                checking_box: widget_in(WidgetState::Sensitive),
                no_updates_box: widget_in(WidgetState::Sensitive),
                install_finished_box: widget_in(WidgetState::Sensitive),
                update_details_box: widget_in(WidgetState::Sensitive),
                operation_progress: widget_in(WidgetState::Sensitive),
                download_button: widget_in(WidgetState::Sensitive),
                update_button: widget_in(WidgetState::Sensitive),
                progress_text: ProgressText::Empty,
                pulsing: false,
            }),
    {
        let on = WidgetView { visible: true, sensitive: true };
        let mut v = UpdatePageView {
            check_button: on,
            checking_box: on,
            no_updates_box: on,
            install_finished_box: on,
            update_details_box: on,
            operation_progress: on,
            download_button: on,
            update_button: on,
            progress_text: ProgressText::Empty,
            pulsing: false,
        };
        v.set_idle_state();
        v
    }

    /// Hides every transient part of the page.
    pub fn reset_transient_update_ui(&mut self)
        ensures
            *final(self) == reset_spec(*old(self)),
    {
        self.checking_box.visible = false;
        self.no_updates_box.visible = false;
        self.install_finished_box.visible = false;
        self.update_details_box.visible = false;
        self.operation_progress.visible = false;
        self.download_button.visible = false;
        self.update_button.visible = false;
    }

    pub fn set_idle_state(&mut self)
        ensures
            *final(self) == idle_spec(*old(self)),
    {
        self.reset_transient_update_ui();
        self.check_button = widget(WidgetState::Sensitive);
    }

    pub fn set_checking_state(&mut self)
        ensures
            *final(self) == checking_spec(*old(self)),
    {
        self.reset_transient_update_ui();
        self.checking_box.visible = true;
        self.check_button = widget(WidgetState::Insensitive);
        self.operation_progress = widget(WidgetState::Sensitive);
        self.progress_text = ProgressText::Checking;
    }

    pub fn set_checked_state(&mut self, update_available: bool)
        ensures
            *final(self) == checked_spec(*old(self), update_available),
    {
        self.check_button = widget(
            if update_available {
                WidgetState::Invisible
            } else {
                WidgetState::Sensitive
            },
        );
        self.no_updates_box.visible = !update_available;
        self.update_details_box.visible = update_available;
        self.download_button.visible = update_available;
    }

    pub fn set_downloading_state(&mut self, update_available: bool, progress: Progress)
        requires
            progress.wf(),
        ensures
            *final(self) == downloading_spec(*old(self), update_available, progress),
    {
        self.check_button = widget(WidgetState::Invisible);
        self.update_details_box.visible = update_available;
        self.operation_progress = widget(WidgetState::Sensitive);
        self.progress_text = ProgressText::Percent(percent(progress));
        self.download_button = widget(WidgetState::Insensitive);
    }

    pub fn set_downloaded_state(&mut self, update_available: bool)
        ensures
            *final(self) == downloaded_spec(*old(self), update_available),
    {
        self.check_button = widget(WidgetState::Invisible);
        self.update_details_box.visible = update_available;
        self.update_button.visible = update_available;
    }

    pub fn set_installing_state(&mut self, update_available: bool)
        ensures
            *final(self) == installing_spec(*old(self), update_available),
    {
        self.check_button = widget(WidgetState::Invisible);
        self.update_details_box.visible = update_available;
        self.operation_progress = widget(WidgetState::Sensitive);
        self.progress_text = ProgressText::Installing;
        self.pulsing = true;
        self.update_button = widget(WidgetState::Insensitive);
    }

    pub fn set_installed_state(&mut self)
        ensures
            *final(self) == installed_spec(*old(self)),
    {
        self.reset_transient_update_ui();
        self.check_button = widget(WidgetState::Invisible);
        self.install_finished_box.visible = true;
    }

    /// Shows the page for `activity`; true when the install-finished dialog is due, which
    /// is when an installation just ended.
    pub fn sync_state_controls(
        &mut self,
        activity: UpdateActivity,
        previous: UpdateActivity,
        update_available: bool,
    ) -> (r: bool)
        requires
            match activity {
                UpdateActivity::Downloading { progress } => progress.wf(),
                _ => true,
            },
        ensures
            *final(self) == sync_spec(*old(self), activity, update_available),
            r == (previous is Installing && activity is Installed),
    {
        self.pulsing = false;
        match activity {
            UpdateActivity::Idle => self.set_idle_state(),
            UpdateActivity::Checking => self.set_checking_state(),
            UpdateActivity::Checked => self.set_checked_state(update_available),
            UpdateActivity::Downloading { progress } => {
                self.set_downloading_state(update_available, progress)
            },
            UpdateActivity::Downloaded => self.set_downloaded_state(update_available),
            UpdateActivity::Installing { .. } => self.set_installing_state(update_available),
            UpdateActivity::Installed => self.set_installed_state(),
        }
        proof {
            reveal(sync_spec);
        }
        let was_installing = match previous {
            UpdateActivity::Installing { .. } => true,
            _ => false,
        };
        let now_installed = match activity {
            UpdateActivity::Installed => true,
            _ => false,
        };
        was_installing && now_installed
    }

    /// The page when it is shown again.
    pub fn apply_idle_state(&mut self)
        ensures
            *final(self) == apply_idle_spec(*old(self)),
    {
        self.pulsing = false;
        self.reset_transient_update_ui();
        self.check_button.visible = true;
        self.check_button.sensitive = true;
        self.download_button.sensitive = true;
        self.update_button.sensitive = true;
    }
}

/// The control in the given state.
fn widget(s: WidgetState) -> (r: WidgetView)
    ensures
        r == widget_in(s),
{
    match s {
        WidgetState::Sensitive => WidgetView { visible: true, sensitive: true },
        WidgetState::Insensitive => WidgetView { visible: true, sensitive: false },
        WidgetState::Invisible => WidgetView { visible: false, sensitive: false },
    }
}

/// The rounded percentage of a progress.
pub fn percent(p: Progress) -> (r: u64)
    requires
        p.wf(),
    ensures
        r == percent_spec(p),
        r <= 100,
{
    let d: u128 = p.done as u128;
    let t: u128 = p.total as u128;
    assert(200 * d + t <= 201 * 0xffff_ffff_ffff_ffffu128) by (nonlinear_arith)
        requires
            d <= t,
            t <= 0xffff_ffff_ffff_ffffu128,
    ;
    let q = (200 * d + t) / (2 * t);
    assert(q <= 100) by (nonlinear_arith)
        requires
            q == (200 * d + t) / (2 * t),
            d <= t,
            t > 0,
    ;
    q as u64
}

/// The text on the progress bar.
pub fn progress_label(t: ProgressText) -> (r: String)
    ensures
        r@ == match t {
            ProgressText::Empty => Seq::empty(),
            ProgressText::Checking => "Checking"@,
            ProgressText::Installing => "Installing"@,
            ProgressText::Percent(p) => decimal(p as nat) + "%"@,
        },
{
    match t {
        ProgressText::Empty => String::new(),
        ProgressText::Checking => owned("Checking"),
        ProgressText::Installing => owned("Installing"),
        ProgressText::Percent(p) => {
            let d = decimal_str(p);
            concat(d.as_str(), "%")
        },
    }
}

/// The installed version as shown: "unknown" when it is not known.
pub fn current_version_label(v: &str) -> (r: String)
    ensures
        r@ == (if v@.len() == 0 {
            "unknown"@
        } else {
            v@
        }),
{
    if v.is_empty() {
        owned("unknown")
    } else {
        owned(v)
    }
}

/// The available version as shown: "Not checked" before a check.
pub fn available_version_label(v: &str) -> (r: String)
    ensures
        r@ == (if v@.len() == 0 {
            "Not checked"@
        } else {
            v@
        }),
{
    if v.is_empty() {
        owned("Not checked")
    } else {
        owned(v)
    }
}

/// The download size as shown, from the size in bytes and its human-readable form.
pub fn download_size_label(bytes: u64, size_text: &str) -> (r: String)
    ensures
        r@ == (if bytes == 0 {
            "Download size: unknown"@
        } else {
            "Download size: "@ + size_text@
        }),
{
    if bytes == 0 {
        owned("Download size: unknown")
    } else {
        concat("Download size: ", size_text)
    }
}

/// A size below one MiB: `<bytes> B`.
pub fn format_small_bytes(bytes: u64) -> (r: String)
    ensures
        r@ == decimal(bytes as nat) + " B"@,
{
    let d = decimal_str(bytes);
    concat(d.as_str(), " B")
}

/// The installed version that the host reported, or "unknown" when it could not be asked.
pub fn ghaf_version_or_unknown(reported: Option<String>) -> (r: String)
    ensures
        r@ == match reported {
            Some(v) => v@,
            None => "unknown"@,
        },
{
    match reported {
        Some(v) => v,
        None => owned("unknown"),
    }
}

/// The list index of a kept sign-in mode: 0 for "anonymous", 2 for "oauth", else 1.
pub fn auth_mode_index(name: &str) -> (r: u32)
    ensures
        r == auth_mode_index_spec(name@),
{
    if str_eq(name, "anonymous") {
        0
    } else if str_eq(name, "oauth") {
        2
    } else {
        1
    }
}

/// The name under which the selected sign-in mode is kept.
pub fn auth_mode_name(index: u32) -> (r: String)
    ensures
        r@ == auth_mode_name_spec(index),
{
    if index == 0 {
        owned("anonymous")
    } else if index == 2 {
        owned("oauth")
    } else {
        owned("user-pass")
    }
}

/// The part of the settings shown for the selected sign-in mode.
pub fn auth_stack_child(index: u32) -> (r: &'static str)
    ensures
        r@ == (if index == 1 {
            "userpass"@
        } else if index == 2 {
            "oauth"@
        } else {
            "anonymous"@
        }),
{
    if index == 1 {
        "userpass"
    } else if index == 2 {
        "oauth"
    } else {
        "anonymous"
    }
}

/// The request that the check or download button makes from the settings on the page;
/// the server address is trimmed.
pub fn collect_update_server_action(
    kind: UpdateServerRequestKind,
    selected: u32,
    username: &str,
    password: &str,
    address: &str,
    insecure: bool,
) -> (r: SettingsAction)
    ensures
        r@ == match kind {
            UpdateServerRequestKind::Check => SettingsActionV::CheckForUpdateRequest {
                reference: trim(address@),
                auth_mode: auth_mode_spec(selected, username@, password@),
                insecure,
            },
            UpdateServerRequestKind::Download => SettingsActionV::DownloadUpdateRequest {
                reference: trim(address@),
                auth_mode: auth_mode_spec(selected, username@, password@),
                insecure,
            },
        },
{
    let auth_mode = if selected == 1 {
        UpdateServerAuthMode::UserPass { username: owned(username), password: owned(password) }
    } else if selected == 2 {
        UpdateServerAuthMode::OAuth { token: String::new() }
    } else {
        UpdateServerAuthMode::Anonymous
    };
    let reference = trim_str(address);
    match kind {
        UpdateServerRequestKind::Check => SettingsAction::CheckForUpdateRequest { reference, auth_mode, insecure },
        UpdateServerRequestKind::Download => SettingsAction::DownloadUpdateRequest {
            reference,
            auth_mode,
            insecure,
        },
    }
}

/// The update server settings to keep from the page; the OAuth token stays as it was.
pub fn persisted_update_config(
    selected: u32,
    address: &str,
    insecure: bool,
    username: &str,
    password: &str,
    oauth_token: String,
) -> (r: UpdateServerConfig)
    ensures
        r@ == (UpdateServerConfigV {
            auth_mode: auth_mode_name_spec(selected),
            reference: trim(address@),
            insecure,
            username: username@,
            password: password@,
            oauth_token: oauth_token@,
        }),
{
    UpdateServerConfig {
        auth_mode: auth_mode_name(selected),
        reference: trim_str(address),
        insecure,
        username: owned(username),
        password: owned(password),
        oauth_token,
    }
}

/// A kept sign-in mode shows again as itself, and a list entry is kept under a name that
/// selects it again.
pub proof fn law_auth_mode_round_trip(index: u32, name: Seq<char>)
    ensures
        index <= 2 ==> auth_mode_index_spec(auth_mode_name_spec(index)) == index,
        (name == "anonymous"@ || name == "oauth"@ || name == "user-pass"@) ==> auth_mode_name_spec(
            auth_mode_index_spec(name),
        ) == name,
{
    reveal_strlit("anonymous");
    reveal_strlit("oauth");
    reveal_strlit("user-pass");
    assert("user-pass"@ != "anonymous"@) by {
        assert("user-pass"@[0] != "anonymous"@[0]);
    }
    assert("user-pass"@ != "oauth"@) by {
        assert("user-pass"@.len() != "oauth"@.len());
    }
    assert("anonymous"@ != "oauth"@) by {
        assert("anonymous"@.len() != "oauth"@.len());
    }
}

proof fn lemma_sync_idempotent_idle(v: UpdatePageView, activity: UpdateActivity, available: bool)
    requires
        activity matches UpdateActivity::Idle,
    ensures
        sync_spec(sync_spec(v, activity, available), activity, available) == sync_spec(v, activity, available),
{
    reveal(sync_spec);
}

proof fn lemma_sync_idempotent_checking(v: UpdatePageView, activity: UpdateActivity, available: bool)
    requires
        activity matches UpdateActivity::Checking,
    ensures
        sync_spec(sync_spec(v, activity, available), activity, available) == sync_spec(v, activity, available),
{
    reveal(sync_spec);
}

proof fn lemma_sync_idempotent_checked(v: UpdatePageView, activity: UpdateActivity, available: bool)
    requires
        activity matches UpdateActivity::Checked,
    ensures
        sync_spec(sync_spec(v, activity, available), activity, available) == sync_spec(v, activity, available),
{
    reveal(sync_spec);
}

proof fn lemma_sync_idempotent_downloading(v: UpdatePageView, activity: UpdateActivity, available: bool)
    requires
        activity matches UpdateActivity::Downloading { .. },
    ensures
        sync_spec(sync_spec(v, activity, available), activity, available) == sync_spec(v, activity, available),
{
    reveal(sync_spec);
}

proof fn lemma_sync_idempotent_downloaded(v: UpdatePageView, activity: UpdateActivity, available: bool)
    requires
        activity matches UpdateActivity::Downloaded,
    ensures
        sync_spec(sync_spec(v, activity, available), activity, available) == sync_spec(v, activity, available),
{
    reveal(sync_spec);
}

proof fn lemma_sync_idempotent_installing(v: UpdatePageView, activity: UpdateActivity, available: bool)
    requires
        activity matches UpdateActivity::Installing { .. },
    ensures
        sync_spec(sync_spec(v, activity, available), activity, available) == sync_spec(v, activity, available),
{
    reveal(sync_spec);
}

proof fn lemma_sync_idempotent_installed(v: UpdatePageView, activity: UpdateActivity, available: bool)
    requires
        activity matches UpdateActivity::Installed,
    ensures
        sync_spec(sync_spec(v, activity, available), activity, available) == sync_spec(v, activity, available),
{
    reveal(sync_spec);
}

/// Showing the same activity again changes nothing.
pub proof fn law_sync_idempotent(v: UpdatePageView, activity: UpdateActivity, available: bool)
    ensures
        sync_spec(sync_spec(v, activity, available), activity, available) == sync_spec(v, activity, available),
{
    match activity {
        UpdateActivity::Idle => lemma_sync_idempotent_idle(v, activity, available),
        UpdateActivity::Checking => lemma_sync_idempotent_checking(v, activity, available),
        UpdateActivity::Checked => lemma_sync_idempotent_checked(v, activity, available),
        UpdateActivity::Downloading { .. } => lemma_sync_idempotent_downloading(v, activity, available),
        UpdateActivity::Downloaded => lemma_sync_idempotent_downloaded(v, activity, available),
        UpdateActivity::Installing { .. } => lemma_sync_idempotent_installing(v, activity, available),
        UpdateActivity::Installed => lemma_sync_idempotent_installed(v, activity, available),
    }
}

/// Once an update is installed, only the finished message and no button is shown.
pub proof fn law_installed_page(v: UpdatePageView, available: bool)
    ensures
        ({
            let r = sync_spec(v, UpdateActivity::Installed, available);
            &&& r.install_finished_box.visible
            &&& !r.check_button.visible
            &&& !r.download_button.visible
            &&& !r.update_button.visible
            &&& !r.checking_box.visible
            &&& !r.operation_progress.visible
            &&& !r.pulsing
        }),
{
    reveal(sync_spec);
}

} // verus!
