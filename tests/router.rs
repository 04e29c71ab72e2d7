use aws_sso_login::error::LoginError;
use aws_sso_login::router::{classify, deadline_event, Action, FLOW_DEADLINE_SECS, Event, LoginFlow, PageKind, PageView, Stage};

fn page(title: &str, mfa: Option<&str>, header: Option<&str>) -> PageView {
    PageView {
        title: title.to_string(),
        mfa_title: mfa.map(|s| s.to_string()),
        login_header: header.map(|s| s.to_string()),
    }
}

fn observe(flow: &mut LoginFlow, view: &PageView) {
    assert_eq!(flow.action(), Action::ObservePage);
    let kind = classify(view, flow.approved);
    flow.advance(Event::Page(kind));
}

#[test]
fn classify_known_pages() {
    let sign_in = page("Sign in to your account", None, Some("Sign in"));
    let password = page("Sign in to your account", None, Some("Enter password"));
    let mfa = page("Sign in to your account", Some("Approve sign in request"), None);
    let portal = page("AWS access portal", None, None);
    assert_eq!(classify(&sign_in, false), PageKind::SignIn);
    assert_eq!(classify(&password, false), PageKind::PasswordEntry);
    assert_eq!(classify(&mfa, false), PageKind::MfaApproval);
    assert_eq!(classify(&portal, true), PageKind::AccessGranted);
    assert_eq!(classify(&portal, false), PageKind::Unknown);
}

#[test]
fn classify_unknown_pages() {
    assert_eq!(classify(&page("", None, None), false), PageKind::Unknown);
    assert_eq!(classify(&page("x", None, Some("Stay signed in?")), false), PageKind::Unknown);
    assert_eq!(classify(&page("x", Some("Verify your identity"), Some("Sign in")), false), PageKind::Unknown);
    assert_eq!(classify(&page("x", None, Some("sign in")), false), PageKind::Unknown);
}

#[test]
fn mfa_title_comes_before_login_header() {
    let both = page("x", Some("Approve sign in request"), Some("Sign in"));
    assert_eq!(classify(&both, false), PageKind::MfaApproval);
    let approved_portal = page("AWS access portal", Some("Approve sign in request"), None);
    assert_eq!(classify(&approved_portal, true), PageKind::AccessGranted);
    assert_eq!(classify(&approved_portal, false), PageKind::MfaApproval);
}

#[test]
fn classify_twice_gives_same_kind() {
    let views = [
        page("Sign in to your account", None, Some("Sign in")),
        page("AWS access portal", None, None),
        page("x", Some("Approve sign in request"), None),
        page("y", None, None),
    ];
    for v in views.iter() {
        for approved in [false, true] {
            assert_eq!(classify(v, approved), classify(v, approved));
        }
    }
}

#[test]
fn full_sequence_runs_handlers_in_order() {
    let mut flow = LoginFlow::new();
    let mut actions = Vec::new();

    actions.push(flow.action());
    flow.advance(Event::Done);

    let pages = [
        page("Sign in to your account", None, Some("Sign in")),
        page("Sign in to your account", None, Some("Enter password")),
        page("Sign in to your account", Some("Approve sign in request"), None),
    ];
    for p in pages.iter() {
        observe(&mut flow, p);
        actions.push(flow.action());
        if flow.action() == Action::ShowMfaCode {
            assert!(!flow.approved);
            flow.advance(Event::Done);
            actions.push(flow.action());
            assert!(!flow.approved);
        }
        flow.advance(Event::Done);
    }
    assert!(flow.approved);

    observe(&mut flow, &page("AWS access portal", None, None));
    actions.push(flow.action());
    flow.advance(Event::Done);
    actions.push(flow.action());
    flow.advance(Event::Done);
    actions.push(flow.action());

    assert_eq!(
        actions,
        vec![
            Action::ClickVerification,
            Action::EnterEmail,
            Action::EnterPassword,
            Action::ShowMfaCode,
            Action::RememberDevice,
            Action::ClickContinue,
            Action::ReadStatus,
            Action::Stop,
        ]
    );
    assert_eq!(flow.stage, Stage::Finished);
    assert!(flow.is_over());
}

#[test]
fn portal_before_approval_does_not_end_loop() {
    let mut flow = LoginFlow::new();
    flow.advance(Event::Done);
    observe(&mut flow, &page("AWS access portal", None, None));
    assert_eq!(flow.stage, Stage::Observe);
    assert!(!flow.approved);
    assert!(!flow.is_over());
    flow.advance(Event::Page(PageKind::AccessGranted));
    assert_eq!(flow.action(), Action::ObservePage);
}

#[test]
fn unknown_pages_keep_observing() {
    let mut flow = LoginFlow::new();
    flow.advance(Event::Done);
    for _ in 0..25 {
        observe(&mut flow, &page("Redirecting", None, None));
        assert_eq!(flow.stage, Stage::Observe);
        assert!(!flow.is_over());
    }
    observe(&mut flow, &page("Sign in to your account", None, Some("Sign in")));
    assert_eq!(flow.action(), Action::EnterEmail);
}

#[test]
fn element_timeout_aborts_without_retry() {
    let mut flow = LoginFlow::new();
    flow.advance(Event::Done);
    observe(&mut flow, &page("Sign in to your account", None, Some("Enter password")));
    assert_eq!(flow.action(), Action::EnterPassword);
    flow.advance(Event::Failed(LoginError::ElementTimeout));
    assert_eq!(flow.action(), Action::Abort(LoginError::ElementTimeout));
    assert!(flow.is_over());
    flow.advance(Event::Done);
    flow.advance(Event::Page(PageKind::SignIn));
    assert_eq!(flow.stage, Stage::Failed(LoginError::ElementTimeout));
    assert_eq!(flow.action(), Action::Abort(LoginError::ElementTimeout));
}

#[test]
fn mfa_wait_timeout_aborts() {
    let mut flow = LoginFlow::new();
    flow.advance(Event::Done);
    observe(&mut flow, &page("x", Some("Approve sign in request"), None));
    assert_eq!(flow.action(), Action::ShowMfaCode);
    flow.advance(Event::Done);
    assert_eq!(flow.action(), Action::RememberDevice);
    flow.advance(Event::Failed(LoginError::ElementTimeout));
    assert!(!flow.approved);
    assert_eq!(flow.action(), Action::Abort(LoginError::ElementTimeout));
}

#[test]
fn verification_failure_aborts() {
    let mut flow = LoginFlow::new();
    flow.advance(Event::Failed(LoginError::Navigation));
    assert_eq!(flow.action(), Action::Abort(LoginError::Navigation));
}

#[test]
fn finished_flow_stays_finished() {
    let mut flow = LoginFlow { stage: Stage::ReadStatus, approved: true };
    flow.advance(Event::Done);
    assert_eq!(flow.stage, Stage::Finished);
    flow.advance(Event::Failed(LoginError::UserInput));
    assert_eq!(flow.stage, Stage::Finished);
    assert_eq!(flow.action(), Action::Stop);
}

#[test]
fn mismatched_event_changes_nothing() {
    let mut flow = LoginFlow::new();
    flow.advance(Event::Page(PageKind::SignIn));
    assert_eq!(flow, LoginFlow::new());
    flow.advance(Event::Done);
    flow.advance(Event::Done);
    assert_eq!(flow.stage, Stage::Observe);
}

#[test]
fn args_keep_options() {
    let a = aws_sso_login::cli::Args::new(true, Some("corp".to_string()));
    assert!(a.gui);
    assert_eq!(a.profile, Some("corp".to_string()));
    let b = aws_sso_login::cli::Args::new(false, None);
    assert!(!b.gui);
    assert_eq!(b.profile, None);
}

#[test]
fn deadline_aborts_a_stuck_flow() {
    assert_eq!(FLOW_DEADLINE_SECS, 600);
    assert_eq!(deadline_event(0), None);
    assert_eq!(deadline_event(599), None);
    assert_eq!(deadline_event(600), Some(Event::Failed(LoginError::FlowTimeout)));
    let mut flow = LoginFlow::new();
    flow.advance(Event::Done);
    for _ in 0..5 {
        observe(&mut flow, &page("Redirecting", None, None));
    }
    flow.advance(deadline_event(900).unwrap());
    assert_eq!(flow.action(), Action::Abort(LoginError::FlowTimeout));
    assert!(flow.is_over());
}
