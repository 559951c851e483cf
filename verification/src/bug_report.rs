//! The bug report form: what its answers are, when it may be sent, the report it sends
//! and what the page says of the outcome.
use vstd::prelude::*;
use crate::text::{lossy_text, string_from_utf8_lossy};
use crate::text::{
    concat, has_infix, lemma_find_str_from, owned, split_once_str, split_once_str_spec, str_eq,
};

verus! {

/// The answers chosen on the form.
pub struct Answers {
    pub issue: String,
    pub related: String,
    pub app: String,
    pub description_empty: bool,
}

impl Default for Answers {
    fn default() -> (r: Self)
        ensures
            r.issue@.len() == 0,
            r.related@.len() == 0,
            r.app@.len() == 0,
            !r.description_empty,
    {
        Answers { issue: String::new(), related: String::new(), app: String::new(), description_empty: false }
    }
}

/// The answer a choice gives when it is switched on: its label, or the text typed beside it.
pub open spec fn toggled_answer(active: bool, label: Option<Seq<char>>, entry: Seq<char>) -> Option<Seq<char>> {
    if active {
        match label {
            Some(l) => Some(l),
            None => Some(entry),
        }
    } else {
        None
    }
}

/// The view of an optional string slice.
pub open spec fn opt_view(s: Option<&str>) -> Option<Seq<char>> {
    match s {
        Some(x) => Some(x@),
        None => None,
    }
}

/// The "related to" answer, and whether the list of applications is shown.
pub struct RelatedChoice {
    pub related: String,
    pub show_apps: bool,
}

/// What the form asks for before it can be sent; `app_required` is `None` where the mark
/// of the application question is left as it was.
#[derive(Debug, Clone, Copy, PartialEq, Eq, Structural)]
pub struct SubmitCheck {
    pub enable: bool,
    pub issue_required: bool,
    pub related_required: bool,
    pub title_required: bool,
    pub description_required: bool,
    pub app_required: Option<bool>,
}

/// The check of the form: every answer and the title and description are given, and an
/// application is chosen when the report relates to one.
pub open spec fn submit_check_spec(
    issue: Seq<char>,
    related: Seq<char>,
    app: Seq<char>,
    title: Seq<char>,
    description: Seq<char>,
) -> SubmitCheck {
    let app_missing = app.len() == 0 && related == "App"@;
    SubmitCheck {
        enable: issue.len() > 0 && related.len() > 0 && title.len() > 0 && description.len() > 0
            && !app_missing,
        issue_required: issue.len() == 0,
        related_required: related.len() == 0,
        title_required: title.len() == 0,
        description_required: description.len() == 0,
        app_required: if app.len() > 0 {
            Some(false)
        } else if related == "App"@ {
            Some(true)
        } else {
            None
        },
    }
}

/// The body of the report.
pub open spec fn email_body_spec(
    time: Seq<char>,
    id: Seq<char>,
    sw: Seq<char>,
    issue: Seq<char>,
    related: Seq<char>,
    app: Seq<char>,
    description: Seq<char>,
) -> Seq<char> {
    "Time: "@ + time + "\n\nBug Report\n\nLogging ID: "@ + id + "\nSW Version: "@ + sw + "\nIssue: "@
        + issue + "\nRelates to: "@ + related + "\n"@ + (if app.len() > 0 {
        "App: "@ + app + "\n\n"@
    } else {
        Seq::empty()
    }) + "Description:\n"@ + description + "\n"@
}

/// What of a report goes into the issue: the text before its first attachment.
pub open spec fn issue_body_spec(content: Seq<char>) -> Seq<char> {
    match split_once_str_spec(content, "\n\nAttachment:"@) {
        Some(parts) => parts.0,
        None => content,
    }
}

/// An outcome of a command whose output is read.
pub enum CommandOutcome {
    /// It ran and succeeded, with these bytes on its standard output.
    Output(Vec<u8>),
    /// It ran and failed.
    Failed,
    /// It could not be started.
    NotRun,
}

/// The value a `dmidecode` field takes from the outcome of reading it.
pub open spec fn dmi_field_spec(o: CommandOutcome, failed: Seq<char>, not_run: Seq<char>) -> Seq<char> {
    match o {
        CommandOutcome::Output(b) => lossy_text(b@),
        CommandOutcome::Failed => failed,
        CommandOutcome::NotRun => not_run,
    }
}

/// Why sending a report failed.
#[derive(Debug, Clone, Copy, PartialEq, Eq, Structural)]
pub enum GithubError {
    Cancelled,
    TimedOut,
    NotAuthenticated,
    Other,
}

/// The text an error adds to the failure message.
pub open spec fn github_error_text(e: GithubError) -> Seq<char> {
    match e {
        GithubError::Cancelled => ": Authentication cancelled"@,
        GithubError::TimedOut => ": Authentication timed out"@,
        _ => Seq::empty(),
    }
}

/// What the page says once the report was handed on: `None` when no answer came back.
pub open spec fn summary_spec(outcome: Option<Result<(), GithubError>>) -> (Seq<char>, bool) {
    match outcome {
        Some(Ok(())) => ("Report sent successfully"@, true),
        Some(Err(e)) => ("Error when sending report"@ + github_error_text(e), false),
        None => ("Error when sending report"@, false),
    }
}

/// Where the sending of a report stands.
#[derive(Debug, Clone, Copy, PartialEq, Eq, Structural)]
pub enum IssueStage {
    FirstSend,
    Authenticating,
    SecondSend,
    Done,
}

/// What came back from the outside work.
#[derive(Debug, Clone, Copy, PartialEq, Eq, Structural)]
pub enum IssueEvent {
    Sent { ok: bool },
    Authenticated { ok: bool },
}

/// What to do next.
#[derive(Debug, Clone, Copy, PartialEq, Eq, Structural)]
pub enum IssueAction {
    Send,
    Authenticate,
    ReportSuccess,
    ReportFailure,
    Nothing,
}

/// The sending of a report: a first try; when it fails, a sign-in and a second try whose
/// outcome is final.
pub open spec fn issue_step_spec(stage: IssueStage, event: IssueEvent) -> (IssueStage, IssueAction) {
    match (stage, event) {
        (IssueStage::FirstSend, IssueEvent::Sent { ok }) => if ok {
            (IssueStage::Done, IssueAction::ReportSuccess)
        } else {
            (IssueStage::Authenticating, IssueAction::Authenticate)
        },
        (IssueStage::Authenticating, IssueEvent::Authenticated { ok }) => if ok {
            (IssueStage::SecondSend, IssueAction::Send)
        } else {
            (IssueStage::Done, IssueAction::ReportFailure)
        },
        (IssueStage::SecondSend, IssueEvent::Sent { ok }) => if ok {
            (IssueStage::Done, IssueAction::ReportSuccess)
        } else {
            (IssueStage::Done, IssueAction::ReportFailure)
        },
        _ => (stage, IssueAction::Nothing),
    }
}

/// The bug report page.
pub struct BugReportSettingsPage;

impl BugReportSettingsPage {
    /// The issue or application answer when its choice is switched on
    /// (`on_a1_toggled`, `on_a3_toggled`): `None` when it is switched off.
    pub fn toggled_answer(active: bool, label: Option<&str>, entry_text: &str) -> (r: Option<String>)
        ensures
            toggled_answer(active, opt_view(label), entry_text@) == match r {
                Some(s) => Some(s@),
                None => None::<Seq<char>>,
            },
    {
        if active {
            match label {
                Some(l) => Some(owned(l)),
                None => Some(owned(entry_text)),
            }
        } else {
            None
        }
    }

    /// The "related to" answer when its choice is switched on: the choice "App" shows the
    /// list of applications, every other choice hides it.
    pub fn related_toggled(active: bool, label: Option<&str>, entry_text: &str) -> (r: Option<RelatedChoice>)
        ensures
            !active ==> r is None,
            active ==> (r matches Some(c) && toggled_answer(active, opt_view(label), entry_text@)
                == Some(c.related@) && c.show_apps == (opt_view(label) == Some("App"@))),
    {
        if !active {
            return None;
        }
        match label {
            Some(l) => {
                let show = str_eq(l, "App");
                Some(RelatedChoice { related: owned(l), show_apps: show })
            },
            None => Some(RelatedChoice { related: owned(entry_text), show_apps: false }),
        }
    }

    /// Checks the form before it is sent.
    pub fn check_submission(
        issue: &str,
        related: &str,
        app: &str,
        title: &str,
        description: &str,
    ) -> (r: SubmitCheck)
        ensures
            r == submit_check_spec(issue@, related@, app@, title@, description@),
    {
        let mut enable = true;
        let issue_required = issue.is_empty();
        let related_required = related.is_empty();
        let title_required = title.is_empty();
        let description_required = description.is_empty();
        enable = enable && !issue_required && !related_required && !title_required
            && !description_required;
        let app_required = if app.is_empty() {
            if str_eq(related, "App") {
                enable = false;
                Some(true)
            } else {
                None
            }
        } else {
            Some(false)
        };
        SubmitCheck {
            enable,
            issue_required,
            related_required,
            title_required,
            description_required,
            app_required,
        }
    }

    /// The body of the report.
    pub fn email_body(
        time: &str,
        id: &str,
        sw: &str,
        issue: &str,
        related: &str,
        app: &str,
        description: &str,
    ) -> (r: String)
        ensures
            r@ == email_body_spec(time@, id@, sw@, issue@, related@, app@, description@),
    {
        let mut b = concat("Time: ", time);
        b = concat(b.as_str(), "\n\nBug Report\n\nLogging ID: ");
        b = concat(b.as_str(), id);
        b = concat(b.as_str(), "\nSW Version: ");
        b = concat(b.as_str(), sw);
        b = concat(b.as_str(), "\nIssue: ");
        b = concat(b.as_str(), issue);
        b = concat(b.as_str(), "\nRelates to: ");
        b = concat(b.as_str(), related);
        b = concat(b.as_str(), "\n");
        let ghost head = b@;
        if !app.is_empty() {
            b = concat(b.as_str(), "App: ");
            b = concat(b.as_str(), app);
            b = concat(b.as_str(), "\n\n");
            assert(b@ =~= head + ("App: "@ + app@ + "\n\n"@));
        } else {
            assert(b@ =~= head + Seq::<char>::empty());
        }
        let ghost mid = b@;
        b = concat(b.as_str(), "Description:\n");
        b = concat(b.as_str(), description);
        b = concat(b.as_str(), "\n");
        assert(b@ =~= email_body_spec(time@, id@, sw@, issue@, related@, app@, description@));
        b
    }

    /// The title of the report: `<issue>: <title>`.
    pub fn email_title(issue: &str, title: &str) -> (r: String)
        ensures
            r@ == issue@ + ": "@ + title@,
    {
        let a = concat(issue, ": ");
        concat(a.as_str(), title)
    }

    /// The software version from the outcome of `ghaf-version`: its output, decoded as
    /// UTF-8 with replacements, when it succeeded.
    pub fn sw_version(outcome: CommandOutcome) -> (r: Option<String>)
        ensures
            match outcome {
                CommandOutcome::Output(b) => r matches Some(x) && x@ == lossy_text(b@),
                _ => r is None,
            },
    {
        match outcome {
            CommandOutcome::Output(b) => Some(string_from_utf8_lossy(&b)),
            _ => None,
        }
    }

    /// One field read with `dmidecode -s`: its output decoded as UTF-8 with replacements.
    pub fn dmi_field(outcome: CommandOutcome, failed: &str, not_run: &str) -> (r: String)
        ensures
            r@ == dmi_field_spec(outcome, failed@, not_run@),
    {
        match outcome {
            CommandOutcome::Output(b) => string_from_utf8_lossy(&b),
            CommandOutcome::Failed => owned(failed),
            CommandOutcome::NotRun => owned(not_run),
        }
    }

    /// The system version from the manufacturer, version, product name and SKU number
    /// that `dmidecode` gave.
    pub fn system_version(
        manufacturer: CommandOutcome,
        version: CommandOutcome,
        product: CommandOutcome,
        sku: CommandOutcome,
    ) -> (r: String)
        ensures
            r@ == dmi_field_spec(manufacturer, "no-manufacturer"@, "manufacturer-failed"@) + " "@
                + dmi_field_spec(version, "no-version"@, "version-failed"@) + " "@ + dmi_field_spec(
                product,
                "no-product"@,
                "product-failed"@,
            ) + " "@ + dmi_field_spec(sku, "no-sku-number"@, "sku-number-failed"@),
    {
        let m = BugReportSettingsPage::dmi_field(manufacturer, "no-manufacturer", "manufacturer-failed");
        let v = BugReportSettingsPage::dmi_field(version, "no-version", "version-failed");
        let p = BugReportSettingsPage::dmi_field(product, "no-product", "product-failed");
        let s = BugReportSettingsPage::dmi_field(sku, "no-sku-number", "sku-number-failed");
        let mut r = concat(m.as_str(), " ");
        r = concat(r.as_str(), v.as_str());
        r = concat(r.as_str(), " ");
        r = concat(r.as_str(), p.as_str());
        r = concat(r.as_str(), " ");
        concat(r.as_str(), s.as_str())
    }

    /// The text of the summary line and whether it reports a success.
    pub fn summary(outcome: Option<Result<(), GithubError>>) -> (r: (String, bool))
        ensures
            (r.0@, r.1) == summary_spec(outcome),
    {
        match outcome {
            Some(Ok(())) => (owned("Report sent successfully"), true),
            Some(Err(e)) => {
                let t = e.message();
                (concat("Error when sending report", t.as_str()), false)
            },
            None => (owned("Error when sending report"), false),
        }
    }
}

impl GithubError {
    /// The text the error adds to the failure message.
    pub fn message(&self) -> (r: String)
        ensures
            r@ == github_error_text(*self),
    {
        match self {
            GithubError::Cancelled => owned(": Authentication cancelled"),
            GithubError::TimedOut => owned(": Authentication timed out"),
            _ => String::new(),
        }
    }
}

/// What of a report goes into the issue: the text before its first attachment.
pub fn issue_body(content: &str) -> (r: String)
    ensures
        r@ == issue_body_spec(content@),
{
    match split_once_str(content, "\n\nAttachment:") {
        Some((a, _)) => a,
        None => owned(content),
    }
}

/// A report is only sent with a token.
pub fn check_token(token: &str) -> (r: Result<(), GithubError>)
    ensures
        r == (if token@.len() == 0 {
            Err(GithubError::NotAuthenticated)
        } else {
            Ok(())
        }),
{
    if token.is_empty() {
        Err(GithubError::NotAuthenticated)
    } else {
        Ok(())
    }
}

/// The text of the sign-in dialog: a link to the verification page, then the code.
pub fn login_message(uri: &str, code: &str) -> (r: String)
    ensures
        r@ == "<a href=\""@ + uri@ + "\">"@ + uri@ + "</a>\n"@ + code@,
{
    let mut r = concat("<a href=\"", uri);
    r = concat(r.as_str(), "\">");
    r = concat(r.as_str(), uri);
    r = concat(r.as_str(), "</a>\n");
    concat(r.as_str(), code)
}

/// How long the sign-in on another device is waited for, in seconds.
pub const AUTH_TIMEOUT_SECS: u64 = 60;

/// What ended the wait for a sign-in on another device: the token came, polling for it
/// failed, the time ran out, or the dialog was closed.
pub enum AuthEvent {
    Token(String),
    PollFailed,
    TimedOut,
    Cancelled,
}

/// The outcome of a sign-in: the token to keep, or why there is none.
pub fn auth_result(event: AuthEvent) -> (r: Result<String, GithubError>)
    ensures
        match event {
            AuthEvent::Token(t) => r matches Ok(x) && x@ == t@,
            AuthEvent::PollFailed => r matches Err(GithubError::Other),
            AuthEvent::TimedOut => r matches Err(GithubError::TimedOut),
            AuthEvent::Cancelled => r matches Err(GithubError::Cancelled),
        },
{
    match event {
        AuthEvent::Token(t) => Ok(t),
        AuthEvent::PollFailed => Err(GithubError::Other),
        AuthEvent::TimedOut => Err(GithubError::TimedOut),
        AuthEvent::Cancelled => Err(GithubError::Cancelled),
    }
}

/// One step of the sending of a report.
pub fn issue_step(stage: IssueStage, event: IssueEvent) -> (r: (IssueStage, IssueAction))
    ensures
        r == issue_step_spec(stage, event),
{
    match (stage, event) {
        (IssueStage::FirstSend, IssueEvent::Sent { ok }) => if ok {
            (IssueStage::Done, IssueAction::ReportSuccess)
        } else {
            (IssueStage::Authenticating, IssueAction::Authenticate)
        },
        (IssueStage::Authenticating, IssueEvent::Authenticated { ok }) => if ok {
            (IssueStage::SecondSend, IssueAction::Send)
        } else {
            (IssueStage::Done, IssueAction::ReportFailure)
        },
        (IssueStage::SecondSend, IssueEvent::Sent { ok }) => if ok {
            (IssueStage::Done, IssueAction::ReportSuccess)
        } else {
            (IssueStage::Done, IssueAction::ReportFailure)
        },
        _ => (stage, IssueAction::Nothing),
    }
}

/// A report can be sent only when every required answer is given; nothing else is asked.
pub proof fn law_submit_enabled_iff_complete(
    issue: Seq<char>,
    related: Seq<char>,
    app: Seq<char>,
    title: Seq<char>,
    description: Seq<char>,
)
    ensures
        submit_check_spec(issue, related, app, title, description).enable <==> {
            let c = submit_check_spec(issue, related, app, title, description);
            &&& !c.issue_required
            &&& !c.related_required
            &&& !c.title_required
            &&& !c.description_required
            &&& c.app_required != Some(true)
        },
{
}

/// The issue body is the start of the report and holds no attachment marker.
pub proof fn law_issue_body_prefix(content: Seq<char>)
    ensures
        content.take(issue_body_spec(content).len() as int) == issue_body_spec(content),
        !has_infix(issue_body_spec(content), "\n\nAttachment:"@),
{
    let m = "\n\nAttachment:"@;
    lemma_find_str_from(content, m, 0);
    let b = issue_body_spec(content);
    assert(content.take(b.len() as int) =~= b);
    if has_infix(b, m) {
        let j = choose|j: int| 0 <= j && j + m.len() <= b.len() && #[trigger] b.subrange(j, j + m.len()) == m;
        assert(b.subrange(j, j + m.len()) =~= content.subrange(j, j + m.len()));
        assert(m.len() > 0) by {
            reveal_strlit("\n\nAttachment:");
        }
    }
}

/// A report is sent at most twice, and the sign-in happens only after a failed first try:
/// from the start, whatever comes back, a finished sending took one or two tries.
pub proof fn law_issue_flow_ends(ok1: bool, auth_ok: bool, ok2: bool)
    ensures
        ok1 ==> issue_step_spec(IssueStage::FirstSend, IssueEvent::Sent { ok: ok1 }) == (
            IssueStage::Done,
            IssueAction::ReportSuccess,
        ),
        !ok1 ==> issue_step_spec(IssueStage::FirstSend, IssueEvent::Sent { ok: ok1 }).1
            == IssueAction::Authenticate,
        !auth_ok ==> issue_step_spec(IssueStage::Authenticating, IssueEvent::Authenticated { ok: auth_ok })
            == (IssueStage::Done, IssueAction::ReportFailure),
        issue_step_spec(IssueStage::SecondSend, IssueEvent::Sent { ok: ok2 }).0 == IssueStage::Done,
        forall|e: IssueEvent| issue_step_spec(IssueStage::Done, e) == (IssueStage::Done, IssueAction::Nothing),
{
}


/// The action after a send follows its outcome at either try: success is reported exactly
/// when the send went through; a failed second try reports failure, a failed first try
/// leads to a sign-in.
pub proof fn law_send_outcome_reported(ok: bool)
    ensures
        (issue_step_spec(IssueStage::FirstSend, IssueEvent::Sent { ok }).1 == IssueAction::ReportSuccess) <==> ok,
        (issue_step_spec(IssueStage::SecondSend, IssueEvent::Sent { ok }).1 == IssueAction::ReportSuccess) <==> ok,
        (issue_step_spec(IssueStage::SecondSend, IssueEvent::Sent { ok }).1 == IssueAction::ReportFailure) <==> !ok,
        (issue_step_spec(IssueStage::FirstSend, IssueEvent::Sent { ok }).1 == IssueAction::Authenticate) <==> !ok,
{
}


/// After a failed first send, a sign-in that succeeds leads to a second send and one that
/// fails ends with failure.
pub proof fn law_sign_in_outcome(ok: bool)
    ensures
        ok ==> issue_step_spec(IssueStage::Authenticating, IssueEvent::Authenticated { ok }) == (
            IssueStage::SecondSend,
            IssueAction::Send,
        ),
        !ok ==> issue_step_spec(IssueStage::Authenticating, IssueEvent::Authenticated { ok }).1
            == IssueAction::ReportFailure,
{
}

} // verus!
