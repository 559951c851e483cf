use ctrl_panel::bug_report::{
    auth_result, check_token, issue_body, AuthEvent, AUTH_TIMEOUT_SECS, issue_step, login_message, BugReportSettingsPage, CommandOutcome,
    GithubError, IssueAction, IssueEvent, IssueStage, SubmitCheck,
};

#[test]
fn toggled_answers() {
    assert_eq!(BugReportSettingsPage::toggled_answer(true, Some("Crash"), "typed"), Some(String::from("Crash")));
    assert_eq!(BugReportSettingsPage::toggled_answer(true, None, "typed"), Some(String::from("typed")));
    assert_eq!(BugReportSettingsPage::toggled_answer(false, Some("Crash"), "typed"), None);
}

#[test]
fn related_toggle_shows_apps() {
    let c = BugReportSettingsPage::related_toggled(true, Some("App"), "").unwrap();
    assert_eq!(c.related, "App");
    assert!(c.show_apps);
    let c = BugReportSettingsPage::related_toggled(true, Some("Network"), "").unwrap();
    assert!(!c.show_apps);
    let c = BugReportSettingsPage::related_toggled(true, None, "other").unwrap();
    assert_eq!(c.related, "other");
    assert!(!c.show_apps);
    assert!(BugReportSettingsPage::related_toggled(false, Some("App"), "").is_none());
}

#[test]
fn submission_complete() {
    let c = BugReportSettingsPage::check_submission("Crash", "App", "Chrome", "t", "d");
    assert_eq!(
        c,
        SubmitCheck {
            enable: true,
            issue_required: false,
            related_required: false,
            title_required: false,
            description_required: false,
            app_required: Some(false),
        }
    );
}

#[test]
fn submission_needs_app_for_app_reports() {
    let c = BugReportSettingsPage::check_submission("Crash", "App", "", "t", "d");
    assert!(!c.enable);
    assert_eq!(c.app_required, Some(true));
    let c = BugReportSettingsPage::check_submission("Crash", "Network", "", "t", "d");
    assert!(c.enable);
    assert_eq!(c.app_required, None);
}

#[test]
fn submission_missing_fields() {
    let c = BugReportSettingsPage::check_submission("", "", "", "", "");
    assert!(!c.enable);
    assert!(c.issue_required && c.related_required && c.title_required && c.description_required);
}

#[test]
fn email_body_with_and_without_app() {
    let b = BugReportSettingsPage::email_body("T", "ID", "SW", "Crash", "App", "Chrome", "desc");
    assert_eq!(
        b,
        "Time: T\n\nBug Report\n\nLogging ID: ID\nSW Version: SW\nIssue: Crash\nRelates to: App\nApp: Chrome\n\nDescription:\ndesc\n"
    );
    let b = BugReportSettingsPage::email_body("T", "", "", "Crash", "Network", "", "d");
    assert_eq!(
        b,
        "Time: T\n\nBug Report\n\nLogging ID: \nSW Version: \nIssue: Crash\nRelates to: Network\nDescription:\nd\n"
    );
    assert_eq!(BugReportSettingsPage::email_title("Crash", "It broke"), "Crash: It broke");
}

#[test]
fn issue_body_drops_attachment() {
    assert_eq!(issue_body("text\n\nAttachment: log\nmore"), "text");
    assert_eq!(issue_body("no attachment"), "no attachment");
    assert_eq!(issue_body("a\n\nAttachment:x\n\nAttachment:y"), "a");
}

#[test]
fn versions_from_commands() {
    assert_eq!(BugReportSettingsPage::sw_version(CommandOutcome::Output(b"24.09\n".to_vec())), Some(String::from("24.09\n")));
    assert_eq!(BugReportSettingsPage::sw_version(CommandOutcome::Failed), None);
    let s = BugReportSettingsPage::system_version(
        CommandOutcome::Output(b"Lenovo".to_vec()),
        CommandOutcome::Failed,
        CommandOutcome::NotRun,
        CommandOutcome::Output(b"SKU1".to_vec()),
    );
    assert_eq!(s, "Lenovo no-version product-failed SKU1");
    assert_eq!(BugReportSettingsPage::sw_version(CommandOutcome::NotRun), None);
    assert_eq!(
        BugReportSettingsPage::dmi_field(CommandOutcome::Output(vec![b'A', 0xff, b'B']), "f", "n"),
        "A\u{FFFD}B"
    );
    assert_eq!(
        BugReportSettingsPage::sw_version(CommandOutcome::Output(vec![0xe2, 0x82])),
        Some(String::from("\u{FFFD}"))
    );
}

#[test]
fn summary_texts() {
    assert_eq!(BugReportSettingsPage::summary(Some(Ok(()))), (String::from("Report sent successfully"), true));
    assert_eq!(
        BugReportSettingsPage::summary(Some(Err(GithubError::Cancelled))),
        (String::from("Error when sending report: Authentication cancelled"), false)
    );
    assert_eq!(
        BugReportSettingsPage::summary(Some(Err(GithubError::Other))),
        (String::from("Error when sending report"), false)
    );
    assert_eq!(BugReportSettingsPage::summary(None), (String::from("Error when sending report"), false));
    assert_eq!(GithubError::TimedOut.message(), ": Authentication timed out");
}

#[test]
fn token_and_login_message() {
    assert_eq!(check_token(""), Err(GithubError::NotAuthenticated));
    assert_eq!(check_token("t"), Ok(()));
    assert_eq!(login_message("https://gh/d", "AB-12"), "<a href=\"https://gh/d\">https://gh/d</a>\nAB-12");
}

#[test]
fn issue_flow_retries_once() {
    assert_eq!(issue_step(IssueStage::FirstSend, IssueEvent::Sent { ok: true }), (IssueStage::Done, IssueAction::ReportSuccess));
    assert_eq!(issue_step(IssueStage::FirstSend, IssueEvent::Sent { ok: false }), (IssueStage::Authenticating, IssueAction::Authenticate));
    assert_eq!(issue_step(IssueStage::Authenticating, IssueEvent::Authenticated { ok: true }), (IssueStage::SecondSend, IssueAction::Send));
    assert_eq!(issue_step(IssueStage::Authenticating, IssueEvent::Authenticated { ok: false }), (IssueStage::Done, IssueAction::ReportFailure));
    assert_eq!(issue_step(IssueStage::SecondSend, IssueEvent::Sent { ok: false }), (IssueStage::Done, IssueAction::ReportFailure));
    assert_eq!(issue_step(IssueStage::Done, IssueEvent::Sent { ok: true }), (IssueStage::Done, IssueAction::Nothing));
}

#[test]
fn sign_in_outcomes() {
    assert_eq!(auth_result(AuthEvent::Token("gho_x".into())), Ok(String::from("gho_x")));
    assert_eq!(auth_result(AuthEvent::TimedOut), Err(GithubError::TimedOut));
    assert_eq!(auth_result(AuthEvent::Cancelled), Err(GithubError::Cancelled));
    assert_eq!(auth_result(AuthEvent::PollFailed), Err(GithubError::Other));
    assert_eq!(AUTH_TIMEOUT_SECS, 60);
}
