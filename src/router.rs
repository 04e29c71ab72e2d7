//! The page router: classification of the identity provider's pages, and
//! the state machine that decides, page after page, which handler runs next.
//!
//! The machine does no I/O. Its driver performs `LoginFlow::action`, reports
//! what came of it as an `Event`, and hands that to `LoginFlow::advance`.
use vstd::prelude::*;

use crate::error::LoginError;

verus! {

/// What a probe of the current page found.
pub struct PageView {
    /// The page's title.
    pub title: String,
    /// Text of the MFA title element, where the page has one.
    pub mfa_title: Option<String>,
    /// Text of the login header element, where the page has one.
    pub login_header: Option<String>,
}

/// The character-level content of a `PageView`.
pub ghost struct PageObs {
    pub title: Seq<char>,
    pub mfa_title: Option<Seq<char>>,
    pub login_header: Option<Seq<char>>,
}

pub open spec fn opt_view(o: Option<String>) -> Option<Seq<char>> {
    match o {
        Some(s) => Some(s@),
        None => None,
    }
}

impl View for PageView {
    type V = PageObs;

    open spec fn view(&self) -> PageObs {
        PageObs {
            title: self.title@,
            mfa_title: opt_view(self.mfa_title),
            login_header: opt_view(self.login_header),
        }
    }
}

/// Title of the page that shows that access was granted.
pub const PORTAL_TITLE: &'static str = "AWS access portal";

/// Text of the MFA title element on the approval page.
pub const APPROVE_PROMPT: &'static str = "Approve sign in request";

/// Login header text of the email page.
pub const SIGN_IN_HEADER: &'static str = "Sign in";

/// Login header text of the password page.
pub const PASSWORD_HEADER: &'static str = "Enter password";

pub open spec fn portal_title() -> Seq<char> {
    seq!['A', 'W', 'S', ' ', 'a', 'c', 'c', 'e', 's', 's', ' ', 'p', 'o', 'r', 't', 'a', 'l']
}

pub open spec fn approve_prompt() -> Seq<char> {
    seq![
        'A', 'p', 'p', 'r', 'o', 'v', 'e', ' ', 's', 'i', 'g', 'n', ' ', 'i', 'n', ' ',
        'r', 'e', 'q', 'u', 'e', 's', 't',
    ]
}

pub open spec fn sign_in_header() -> Seq<char> {
    seq!['S', 'i', 'g', 'n', ' ', 'i', 'n']
}

pub open spec fn password_header() -> Seq<char> {
    seq!['E', 'n', 't', 'e', 'r', ' ', 'p', 'a', 's', 's', 'w', 'o', 'r', 'd']
}

/// The screens of the sign-in flow that the router tells apart.
#[derive(Clone, Copy, Debug, PartialEq, Eq, Structural)]
pub enum PageKind {
    /// The access portal, once MFA has been approved in this run.
    AccessGranted,
    /// The MFA approval page, which shows a code.
    MfaApproval,
    /// The email page.
    SignIn,
    /// The password page.
    PasswordEntry,
    /// Anything else: a page in mid-navigation or one the router does not know.
    Unknown,
}

/// The kind of a page, given whether MFA was already approved. The portal
/// title counts only after approval; the MFA title element comes before the
/// login header.
pub open spec fn kind_of(page: PageObs, approved: bool) -> PageKind {
    if approved && page.title == portal_title() {
        PageKind::AccessGranted
    } else {
        match page.mfa_title {
            Some(t) => if t == approve_prompt() {
                PageKind::MfaApproval
            } else {
                PageKind::Unknown
            },
            None => match page.login_header {
                Some(h) => if h == sign_in_header() {
                    PageKind::SignIn
                } else if h == password_header() {
                    PageKind::PasswordEntry
                } else {
                    PageKind::Unknown
                },
                None => PageKind::Unknown,
            },
        }
    }
}

fn text_is(s: &String, lit: &'static str) -> (r: bool)
    ensures
        r == (s@ == lit@),
{
    let owned = lit.to_owned();
    *s == owned
}

/// Classifies a probed page. Reads the probe only: two calls on the same
/// probe and approval give the same kind.
pub fn classify(page: &PageView, approved: bool) -> (r: PageKind)
    ensures
        r == kind_of(page@, approved),
{
    proof {
        reveal_strlit("AWS access portal");
        reveal_strlit("Approve sign in request");
        reveal_strlit("Sign in");
        reveal_strlit("Enter password");
        assert(PORTAL_TITLE@ =~= portal_title());
        assert(APPROVE_PROMPT@ =~= approve_prompt());
        assert(SIGN_IN_HEADER@ =~= sign_in_header());
        assert(PASSWORD_HEADER@ =~= password_header());
    }
    if approved && text_is(&page.title, PORTAL_TITLE) {
        PageKind::AccessGranted
    } else {
        match &page.mfa_title {
            Some(t) => {
                if text_is(t, APPROVE_PROMPT) {
                    PageKind::MfaApproval
                } else {
                    PageKind::Unknown
                }
            },
            None => match &page.login_header {
                Some(h) => {
                    if text_is(h, SIGN_IN_HEADER) {
                        PageKind::SignIn
                    } else if text_is(h, PASSWORD_HEADER) {
                        PageKind::PasswordEntry
                    } else {
                        PageKind::Unknown
                    }
                },
                None => PageKind::Unknown,
            },
        }
    }
}

/// Classifying the same page twice, with the same approval, gives the same
/// kind: probing has no effect on the outcome.
pub proof fn lemma_classify_stable(a: PageView, b: PageView, approved: bool)
    requires
        a@ == b@,
    ensures
        kind_of(a@, approved) == kind_of(b@, approved),
{
}

/// Where a login attempt stands.
#[derive(Clone, Copy, Debug, PartialEq, Eq, Structural)]
pub enum Stage {
    /// The verification page is open; its confirmation button is next.
    Verify,
    /// The router waits for the page to settle and classifies it.
    Observe,
    /// The email page is being filled in.
    SignIn,
    /// The password page is being filled in.
    Password,
    /// The MFA code is being shown to the user.
    Mfa,
    /// The remember-device page is being confirmed.
    Remember,
    /// Access was granted; the portal's continue button is next.
    Continue,
    /// The portal's status text is being read.
    ReadStatus,
    /// The login completed.
    Finished,
    /// The login was aborted by this error.
    Failed(LoginError),
}

/// The work that the driver performs next.
#[derive(Clone, Copy, Debug, PartialEq, Eq, Structural)]
pub enum Action {
    /// Click the confirmation button of the verification page.
    ClickVerification,
    /// Wait for navigation to settle, probe the page and classify it.
    ObservePage,
    /// Ask for the email and type it into the email field.
    EnterEmail,
    /// Ask for the password (masked) and type it into the password field.
    EnterPassword,
    /// Wait (with the long timeout) for the MFA code and show it.
    ShowMfaCode,
    /// Tick "don't ask again" (long timeout) and confirm.
    RememberDevice,
    /// Click the portal's continue button.
    ClickContinue,
    /// Read and show the portal's status text.
    ReadStatus,
    /// The login is complete.
    Stop,
    /// The login failed with this error.
    Abort(LoginError),
}

/// What came of the last action.
#[derive(Clone, Copy, Debug, PartialEq, Eq, Structural)]
pub enum Event {
    /// The action completed.
    Done,
    /// The observed page is of this kind.
    Page(PageKind),
    /// The action failed with this error.
    Failed(LoginError),
}

/// The state of one login attempt: its stage, and whether MFA was approved.
#[derive(Clone, Copy, Debug, PartialEq, Eq, Structural)]
pub struct LoginFlow {
    pub stage: Stage,
    pub approved: bool,
}

pub open spec fn action_of(stage: Stage) -> Action {
    match stage {
        Stage::Verify => Action::ClickVerification,
        Stage::Observe => Action::ObservePage,
        Stage::SignIn => Action::EnterEmail,
        Stage::Password => Action::EnterPassword,
        Stage::Mfa => Action::ShowMfaCode,
        Stage::Remember => Action::RememberDevice,
        Stage::Continue => Action::ClickContinue,
        Stage::ReadStatus => Action::ReadStatus,
        Stage::Finished => Action::Stop,
        Stage::Failed(e) => Action::Abort(e),
    }
}

/// The stage that the router moves to from a classified page.
pub open spec fn route(approved: bool, kind: PageKind) -> Stage {
    match kind {
        PageKind::AccessGranted => if approved {
            Stage::Continue
        } else {
            Stage::Observe
        },
        PageKind::MfaApproval => Stage::Mfa,
        PageKind::SignIn => Stage::SignIn,
        PageKind::PasswordEntry => Stage::Password,
        PageKind::Unknown => Stage::Observe,
    }
}

/// One step of the machine. A finished or failed attempt stays as it is; a
/// failure aborts any other stage; an event that does not answer the
/// stage's action changes nothing. Approval is set once the remember-device
/// page is confirmed, which follows the MFA page.
pub open spec fn next_flow(f: LoginFlow, e: Event) -> LoginFlow {
    match f.stage {
        Stage::Finished => f,
        Stage::Failed(_) => f,
        _ => match e {
            Event::Failed(err) => LoginFlow { stage: Stage::Failed(err), approved: f.approved },
            Event::Page(kind) => if f.stage == Stage::Observe {
                LoginFlow { stage: route(f.approved, kind), approved: f.approved }
            } else {
                f
            },
            Event::Done => match f.stage {
                Stage::Verify => LoginFlow { stage: Stage::Observe, approved: f.approved },
                Stage::SignIn => LoginFlow { stage: Stage::Observe, approved: f.approved },
                Stage::Password => LoginFlow { stage: Stage::Observe, approved: f.approved },
                Stage::Mfa => LoginFlow { stage: Stage::Remember, approved: f.approved },
                Stage::Remember => LoginFlow { stage: Stage::Observe, approved: true },
                Stage::Continue => LoginFlow { stage: Stage::ReadStatus, approved: f.approved },
                Stage::ReadStatus => LoginFlow { stage: Stage::Finished, approved: f.approved },
                _ => f,
            },
        },
    }
}

/// The state after a sequence of events.
pub open spec fn run(f: LoginFlow, events: Seq<Event>) -> LoginFlow
    decreases events.len(),
{
    if events.len() == 0 {
        f
    } else {
        run(next_flow(f, events[0]), events.subrange(1, events.len() as int))
    }
}

impl LoginFlow {
    /// A login attempt on a freshly opened verification page.
    pub fn new() -> (r: LoginFlow)
        ensures
            r.stage == Stage::Verify,
            !r.approved,
    {
        LoginFlow { stage: Stage::Verify, approved: false }
    }

    /// The work to perform next.
    pub fn action(&self) -> (r: Action)
        ensures
            r == action_of(self.stage),
    {
        match self.stage {
            Stage::Verify => Action::ClickVerification,
            Stage::Observe => Action::ObservePage,
            Stage::SignIn => Action::EnterEmail,
            Stage::Password => Action::EnterPassword,
            Stage::Mfa => Action::ShowMfaCode,
            Stage::Remember => Action::RememberDevice,
            Stage::Continue => Action::ClickContinue,
            Stage::ReadStatus => Action::ReadStatus,
            Stage::Finished => Action::Stop,
            Stage::Failed(e) => Action::Abort(e),
        }
    }

    /// Takes in what came of the last action.
    pub fn advance(&mut self, event: Event)
        ensures
            *final(self) == next_flow(*old(self), event),
    {
        let approved = self.approved;
        let stage = match self.stage {
            Stage::Finished => Stage::Finished,
            Stage::Failed(err) => Stage::Failed(err),
            current => match event {
                Event::Failed(err) => Stage::Failed(err),
                Event::Page(kind) => match current {
                    Stage::Observe => match kind {
                        PageKind::AccessGranted => if approved {
                            Stage::Continue
                        } else {
                            Stage::Observe
                        },
                        PageKind::MfaApproval => Stage::Mfa,
                        PageKind::SignIn => Stage::SignIn,
                        PageKind::PasswordEntry => Stage::Password,
                        PageKind::Unknown => Stage::Observe,
                    },
                    other => other,
                },
                Event::Done => match current {
                    Stage::Verify => Stage::Observe,
                    Stage::SignIn => Stage::Observe,
                    Stage::Password => Stage::Observe,
                    Stage::Mfa => Stage::Remember,
                    Stage::Remember => {
                        self.approved = true;
                        Stage::Observe
                    },
                    Stage::Continue => Stage::ReadStatus,
                    Stage::ReadStatus => Stage::Finished,
                    other => other,
                },
            },
        };
        self.stage = stage;
    }

    /// Whether the attempt has ended, by success or by failure.
    pub fn is_over(&self) -> (r: bool)
        ensures
            r == (self.stage == Stage::Finished || self.stage is Failed),
    {
        match self.stage {
            Stage::Finished => true,
            Stage::Failed(_) => true,
            _ => false,
        }
    }
}

/// Approval is set only by confirming the remember-device page, which only
/// the MFA page leads to, and once set it is never cleared.
pub proof fn lemma_approval_follows_mfa(f: LoginFlow, e: Event)
    ensures
        f.approved ==> next_flow(f, e).approved,
        !f.approved && next_flow(f, e).approved ==> f.stage == Stage::Remember && e == Event::Done,
        next_flow(f, e).stage == Stage::Remember && f.stage != Stage::Remember ==> f.stage
            == Stage::Mfa,
        next_flow(f, e).stage == Stage::Mfa && f.stage != Stage::Mfa ==> f.stage == Stage::Observe
            && e == Event::Page(PageKind::MfaApproval),
{
}

/// The router leaves its loop only on the portal title after approval: a
/// portal page seen before approval sends it back to observing.
pub proof fn lemma_exit_needs_approval(f: LoginFlow, page: PageView)
    requires
        f.stage == Stage::Observe,
    ensures
        next_flow(f, Event::Page(kind_of(page@, f.approved))).stage == Stage::Continue <==> (
        f.approved && page@.title == portal_title()),
        !f.approved ==> next_flow(f, Event::Page(kind_of(page@, f.approved))).stage
            != Stage::Continue,
{
}

/// The events of `n` observations of unknown pages.
pub open spec fn unknown_pages(n: nat) -> Seq<Event> {
    Seq::new(n, |i: int| Event::Page(PageKind::Unknown))
}

/// Any number of unknown pages leave an observing router as it was: it
/// neither fails nor stops, and a known page after them is routed as if
/// they had not been seen.
pub proof fn lemma_unknown_pages_keep_flow(f: LoginFlow, n: nat, kind: PageKind)
    requires
        f.stage == Stage::Observe,
    ensures
        run(f, unknown_pages(n)) == f,
        run(f, unknown_pages(n).push(Event::Page(kind))) == next_flow(f, Event::Page(kind)),
    decreases n,
{
    if n > 0 {
        let evs = unknown_pages(n);
        assert(evs.subrange(1, evs.len() as int) =~= unknown_pages((n - 1) as nat));
        let evs2 = evs.push(Event::Page(kind));
        assert(evs2.subrange(1, evs2.len() as int) =~= unknown_pages((n - 1) as nat).push(
            Event::Page(kind),
        ));
        lemma_unknown_pages_keep_flow(f, (n - 1) as nat, kind);
        assert(evs[0] == Event::Page(PageKind::Unknown));
        assert(evs2[0] == Event::Page(PageKind::Unknown));
        assert(next_flow(f, Event::Page(PageKind::Unknown)) == f);
    } else {
        let evs2 = unknown_pages(0).push(Event::Page(kind));
        assert(evs2[0] == Event::Page(kind));
        assert(evs2.subrange(1, evs2.len() as int) =~= Seq::<Event>::empty());
        assert(run(next_flow(f, Event::Page(kind)), Seq::<Event>::empty()) == next_flow(
            f,
            Event::Page(kind),
        ));
    }
}

/// A failed attempt stays failed whatever comes after, and its only action
/// is to abort with that error: nothing is retried.
pub proof fn lemma_failure_is_final(f: LoginFlow, err: LoginError, events: Seq<Event>)
    requires
        f.stage == Stage::Failed(err),
    ensures
        run(f, events) == f,
        action_of(run(f, events).stage) == Action::Abort(err),
    decreases events.len(),
{
    if events.len() > 0 {
        lemma_failure_is_final(f, err, events.subrange(1, events.len() as int));
    }
}

/// How long, in seconds, a login attempt may take from the verification
/// page to the portal. It leaves room for the slow out-of-band MFA approval.
pub const FLOW_DEADLINE_SECS: u64 = 600;

/// The event that the driver reports, before it observes a page, once
/// `elapsed_secs` seconds have passed since the attempt began: past the
/// deadline the attempt fails with `FlowTimeout`, before it nothing happens.
pub fn deadline_event(elapsed_secs: u64) -> (r: Option<Event>)
    ensures
        r == (if elapsed_secs >= FLOW_DEADLINE_SECS {
            Some(Event::Failed(LoginError::FlowTimeout))
        } else {
            None::<Event>
        }),
{
    if elapsed_secs >= FLOW_DEADLINE_SECS {
        Some(Event::Failed(LoginError::FlowTimeout))
    } else {
        None
    }
}

/// An attempt still running at the deadline ends with `FlowTimeout` and
/// aborts: a flow stuck on pages it does not know does not hang.
pub proof fn lemma_deadline_ends_flow(f: LoginFlow, elapsed_secs: u64)
    requires
        f.stage != Stage::Finished,
        !(f.stage is Failed),
        elapsed_secs >= FLOW_DEADLINE_SECS,
    ensures
        next_flow(f, Event::Failed(LoginError::FlowTimeout)).stage == Stage::Failed(
            LoginError::FlowTimeout,
        ),
        action_of(next_flow(f, Event::Failed(LoginError::FlowTimeout)).stage) == Action::Abort(
            LoginError::FlowTimeout,
        ),
{
}

/// A failure in any stage of a running attempt aborts it with that error.
pub proof fn lemma_failure_aborts(f: LoginFlow, err: LoginError)
    requires
        f.stage != Stage::Finished,
        !(f.stage is Failed),
    ensures
        next_flow(f, Event::Failed(err)).stage == Stage::Failed(err),
        action_of(next_flow(f, Event::Failed(err)).stage) == Action::Abort(err),
{
}

} // verus!
