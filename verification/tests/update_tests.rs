use ctrl_panel::settings_action::{SettingsAction, UpdateServerAuthMode};
use ctrl_panel::update_flow::{
    pull_progress, registry_auth, registry_reference, update_reference, AvailableUpdate, PullEvent,
    RegistryAuth, UpdateError, UpdateModel,
};
use ctrl_panel::update_page::{
    auth_mode_index, auth_mode_name, auth_stack_child, available_version_label,
    collect_update_server_action, current_version_label, download_size_label, format_small_bytes,
    ghaf_version_or_unknown, percent, persisted_update_config, progress_label, ProgressText,
    UpdatePageView, UpdateServerRequestKind, WidgetState, WidgetView,
};
use ctrl_panel::update_state::{Progress, UpdateActivity, UpdateStateData};

fn user_pass(u: &str, p: &str) -> UpdateServerAuthMode {
    UpdateServerAuthMode::UserPass { username: u.to_string(), password: p.to_string() }
}

#[test]
fn progress_of_totals() {
    assert_eq!(Progress::of(5, Some(10)), Progress { done: 5, total: 10 });
    assert_eq!(Progress::of(15, Some(10)), Progress { done: 10, total: 10 });
    assert_eq!(Progress::of(5, Some(0)), Progress { done: 0, total: 1 });
    assert_eq!(Progress::of(5, None), Progress { done: 0, total: 1 });
}

#[test]
fn pull_progress_per_event() {
    assert_eq!(pull_progress(&Some(PullEvent::BlobDownloading { downloaded: 3, total: Some(4) })), Progress { done: 3, total: 4 });
    assert_eq!(pull_progress(&Some(PullEvent::BlobVerified)), Progress { done: 1, total: 1 });
    assert_eq!(pull_progress(&Some(PullEvent::Cancelled)), Progress { done: 0, total: 1 });
    assert_eq!(pull_progress(&None), Progress { done: 0, total: 1 });
}

#[test]
fn reference_is_trimmed_and_required() {
    assert_eq!(registry_reference("  ghcr.io/ghaf/update \n").ok(), Some(String::from("ghcr.io/ghaf/update")));
    assert!(matches!(registry_reference("   "), Err(UpdateError::ReferenceNotConfigured)));
}

#[test]
fn credentials_per_mode() {
    assert!(matches!(registry_auth(&UpdateServerAuthMode::Anonymous), Ok(None)));
    match registry_auth(&user_pass("u", "p")) {
        Ok(Some(RegistryAuth::Basic { username, password })) => {
            assert_eq!(username, "u");
            assert_eq!(password, "p");
        }
        _ => panic!("expected credentials"),
    }
    assert!(matches!(registry_auth(&user_pass("u", "")), Err(UpdateError::CredentialsMissing)));
    assert!(matches!(
        registry_auth(&UpdateServerAuthMode::OAuth { token: String::new() }),
        Err(UpdateError::OAuthNotImplemented)
    ));
}

#[test]
fn error_messages() {
    assert_eq!(UpdateError::NotReady.message(), "update package is not ready");
    assert_eq!(UpdateError::Rpc(String::from("boom")).message(), "boom");
    assert_eq!(UpdateError::NoUpdateAvailable.message(), "no update is available to download");
}

#[test]
fn reference_of_available_update() {
    let u = AvailableUpdate { repository: "ghcr.io/x".into(), tag: "v2".into(), version: "2.0".into() };
    assert_eq!(update_reference(&u), "ghcr.io/x:v2");
}

#[test]
fn whole_update_flow() {
    let mut m = UpdateModel::new();
    assert_eq!(m.state.activity, UpdateActivity::Idle);
    let req = m.check_start(Ok(String::from("1.0")), " reg/ghaf ", &user_pass("u", "p"), true).ok().unwrap();
    assert_eq!(req.reference, "reg/ghaf");
    assert!(req.insecure);
    assert_eq!(m.state.activity, UpdateActivity::Checking);
    assert_eq!(m.state.current_version, "1.0");
    let updates = vec![AvailableUpdate { repository: "reg/ghaf".into(), tag: "2.0".into(), version: "2.0".into() }];
    let cl = m.check_discovered(req, Ok(updates)).ok().unwrap().unwrap();
    assert_eq!(cl.reference, "reg/ghaf:2.0");
    m.check_changelog(cl, Ok(String::from("fixes")));
    assert_eq!(m.state.activity, UpdateActivity::Checked);
    assert_eq!(m.state.available_version, "2.0");
    assert!(m.state.update_available());
    assert!(!m.download_needs_check());
    let pull = m.download_start(&UpdateServerAuthMode::Anonymous, false).ok().unwrap();
    assert_eq!(pull.destination, "/persist/sysupdate");
    assert_eq!(pull.reference, "reg/ghaf:2.0");
    m.download_progress(&Some(PullEvent::BlobDownloading { downloaded: 1, total: Some(2) }));
    assert_eq!(m.state.activity, UpdateActivity::Downloading { progress: Progress { done: 1, total: 2 } });
    assert!(m.download_finished(Ok(String::from("/persist/sysupdate/index.json"))).is_ok());
    assert_eq!(m.state.activity, UpdateActivity::Downloaded);
    let inst = m.apply_start().ok().unwrap();
    assert_eq!(inst.manifest_path, "/persist/sysupdate/index.json");
    assert_eq!(inst.version, "2.0");
    assert!(m.apply_finished(inst, Ok(())).is_ok());
    assert_eq!(m.state.activity, UpdateActivity::Installed);
    assert_eq!(m.state.current_version, "2.0");
    assert_eq!(m.state.available_version, "");
}

#[test]
fn check_without_updates_and_unknown_version() {
    let mut m = UpdateModel::new();
    let req = m.check_start(Err(String::from("no host")), "reg", &UpdateServerAuthMode::Anonymous, false).ok().unwrap();
    assert_eq!(m.state.current_version, "unknown");
    assert!(m.check_discovered(req, Ok(Vec::new())).ok().unwrap().is_none());
    assert_eq!(m.state.activity, UpdateActivity::Checked);
    assert!(!m.state.update_available());
    assert!(matches!(m.download_start(&UpdateServerAuthMode::Anonymous, false), Err(UpdateError::NoUpdateAvailable)));
}

#[test]
fn refused_steps_keep_state() {
    let mut m = UpdateModel::new();
    assert!(matches!(m.check_start(Ok("1".into()), "", &UpdateServerAuthMode::Anonymous, false), Err(UpdateError::ReferenceNotConfigured)));
    assert_eq!(m.state.activity, UpdateActivity::Idle);
    assert!(matches!(m.apply_start(), Err(UpdateError::NotReady)));
    assert_eq!(m.state.activity, UpdateActivity::Idle);
}

#[test]
fn failed_download_goes_back_to_checked() {
    let mut m = UpdateModel::new();
    let req = m.check_start(Ok("1".into()), "r", &UpdateServerAuthMode::Anonymous, false).ok().unwrap();
    let cl = m.check_discovered(req, Ok(vec![AvailableUpdate { repository: "r".into(), tag: "t".into(), version: "2".into() }])).ok().unwrap().unwrap();
    m.check_changelog(cl, Err(String::from("no changelog")));
    assert_eq!(m.state.changelog, "");
    m.download_start(&UpdateServerAuthMode::Anonymous, false).ok().unwrap();
    match m.download_finished(Err(String::from("disk full"))) {
        Err(UpdateError::Rpc(e)) => assert_eq!(e, "disk full"),
        _ => panic!("expected an error"),
    }
    assert_eq!(m.state.activity, UpdateActivity::Checked);
    assert!(!m.download_needs_check());
}

#[test]
fn state_is_checked_after_check() {
    let mut s = UpdateStateData::new();
    assert!(!s.is_checked());
    s.activity = UpdateActivity::Checking;
    assert!(!s.is_checked());
    s.activity = UpdateActivity::Downloaded;
    assert!(s.is_checked());
}

#[test]
fn percent_rounds_half_up() {
    assert_eq!(percent(Progress { done: 1, total: 2 }), 50);
    assert_eq!(percent(Progress { done: 1, total: 8 }), 13);
    assert_eq!(percent(Progress { done: 1, total: 3 }), 33);
    assert_eq!(percent(Progress { done: 7, total: 7 }), 100);
    assert_eq!(percent(Progress { done: u64::MAX, total: u64::MAX }), 100);
}

#[test]
fn labels_of_update_page() {
    assert_eq!(progress_label(ProgressText::Percent(42)), "42%");
    assert_eq!(progress_label(ProgressText::Checking), "Checking");
    assert_eq!(progress_label(ProgressText::Empty), "");
    assert_eq!(current_version_label(""), "unknown");
    assert_eq!(current_version_label("1.2"), "1.2");
    assert_eq!(available_version_label(""), "Not checked");
    assert_eq!(download_size_label(0, "x"), "Download size: unknown");
    assert_eq!(download_size_label(2048, "2048 B"), "Download size: 2048 B");
    assert_eq!(format_small_bytes(512), "512 B");
    assert_eq!(format_small_bytes(0), "0 B");
    assert_eq!(ghaf_version_or_unknown(None), "unknown");
    assert_eq!(ghaf_version_or_unknown(Some("24.09".into())), "24.09");
}

#[test]
fn auth_modes_map_both_ways() {
    assert_eq!(auth_mode_index("anonymous"), 0);
    assert_eq!(auth_mode_index("oauth"), 2);
    assert_eq!(auth_mode_index("user-pass"), 1);
    assert_eq!(auth_mode_index("bogus"), 1);
    for i in 0..3u32 {
        assert_eq!(auth_mode_index(&auth_mode_name(i)), i);
    }
    assert_eq!(auth_mode_name(7), "user-pass");
    assert_eq!(auth_stack_child(1), "userpass");
    assert_eq!(auth_stack_child(0), "anonymous");
    assert_eq!(auth_stack_child(9), "anonymous");
}

#[test]
fn update_server_action_from_page() {
    match collect_update_server_action(UpdateServerRequestKind::Download, 1, "me", "pw", "  reg/x  ", true) {
        SettingsAction::DownloadUpdateRequest { reference, auth_mode: UpdateServerAuthMode::UserPass { username, password }, insecure } => {
            assert_eq!(reference, "reg/x");
            assert_eq!(username, "me");
            assert_eq!(password, "pw");
            assert!(insecure);
        }
        _ => panic!("expected a download request"),
    }
    assert!(matches!(
        collect_update_server_action(UpdateServerRequestKind::Check, 2, "me", "pw", "r", false),
        SettingsAction::CheckForUpdateRequest { auth_mode: UpdateServerAuthMode::OAuth { .. }, insecure: false, .. }
    ));
}

#[test]
fn persisted_settings_keep_token() {
    let c = persisted_update_config(0, " r ", false, "u", "p", String::from("tok"));
    assert_eq!(c.auth_mode, "anonymous");
    assert_eq!(c.reference, "r");
    assert_eq!(c.oauth_token, "tok");
    assert_eq!(c.username, "u");
}

fn on() -> WidgetView {
    WidgetView { visible: true, sensitive: true }
}

#[test]
fn page_controls_follow_activity() {
    let mut v = UpdatePageView::new();
    assert_eq!(v.check_button, on());
    assert!(!v.checking_box.visible);
    assert!(!v.sync_state_controls(UpdateActivity::Checking, UpdateActivity::Idle, false));
    assert!(v.checking_box.visible);
    assert_eq!(v.check_button, WidgetView { visible: true, sensitive: false });
    assert_eq!(v.progress_text, ProgressText::Checking);
    v.sync_state_controls(UpdateActivity::Checked, UpdateActivity::Checking, true);
    assert!(!v.check_button.visible);
    assert!(v.download_button.visible);
    assert!(v.update_details_box.visible);
    v.sync_state_controls(UpdateActivity::Downloading { progress: Progress { done: 1, total: 4 } }, UpdateActivity::Checked, true);
    assert_eq!(v.progress_text, ProgressText::Percent(25));
    assert_eq!(v.download_button, WidgetView { visible: true, sensitive: false });
    v.sync_state_controls(UpdateActivity::Installing { progress: Progress { done: 0, total: 1 } }, UpdateActivity::Downloaded, true);
    assert!(v.pulsing);
    let dialog = v.sync_state_controls(UpdateActivity::Installed, UpdateActivity::Installing { progress: Progress { done: 0, total: 1 } }, false);
    assert!(dialog);
    assert!(!v.pulsing);
    assert!(v.install_finished_box.visible);
    assert!(!v.check_button.visible);
    v.apply_idle_state();
    assert_eq!(v.check_button, on());
    assert!(!v.install_finished_box.visible);
    let _ = WidgetState::Invisible;
}

#[test]
fn page_unchanged_by_repeat() {
    let mut a = UpdatePageView::new();
    a.sync_state_controls(UpdateActivity::Checked, UpdateActivity::Idle, false);
    let mut b = a;
    b.sync_state_controls(UpdateActivity::Checked, UpdateActivity::Checked, false);
    assert_eq!(a, b);
    assert!(a.no_updates_box.visible);
}

#[test]
fn mock_checks() {
    let mut m = UpdateModel::new();
    assert_eq!(m.mock_check(0, "1.0".into()), 1);
    assert_eq!(m.state.available_version, "");
    assert_eq!(m.state.activity, UpdateActivity::Checked);
    assert_eq!(m.mock_check(1, "1.0".into()), 2);
    assert_eq!(m.state.available_version, "0.0.1-mock");
    assert_eq!(m.state.download_size_bytes, 15 * 1024 * 1024 * 1024);
    assert!(m.state.changelog.starts_with("Mock update:\n- Re-frobnicate"));
    assert_eq!(m.mock_check(u32::MAX, "1.0".into()), u32::MAX);
}
