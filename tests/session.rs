use unifi_protect_backup::reauth::{next_step, ReauthPhase, RequestAction, RequestEvent};
use unifi_protect_backup::session::extract_auth_cookie;

#[test]
fn cookie_is_extracted() {
    let c = extract_auth_cookie("TOKEN=abc.def; path=/; HttpOnly");
    assert_eq!(c.as_deref(), Some("TOKEN=abc.def"));
}

#[test]
fn cookie_after_other_cookies() {
    let c = extract_auth_cookie("theme=dark; TOKEN=xyz; secure");
    assert_eq!(c.as_deref(), Some("TOKEN=xyz"));
}

#[test]
fn cookie_missing_or_unterminated() {
    assert_eq!(extract_auth_cookie("session=1; path=/"), None);
    assert_eq!(extract_auth_cookie("TOKEN=abc"), None);
    assert_eq!(extract_auth_cookie(""), None);
}

#[test]
fn success_needs_no_login() {
    let (p, a) = next_step(ReauthPhase::First, RequestEvent::Status(200));
    assert_eq!(p, ReauthPhase::Done);
    assert_eq!(a, RequestAction::Finish(200));
}

#[test]
fn expired_session_logs_in_once_and_retries() {
    let (p, a) = next_step(ReauthPhase::First, RequestEvent::Status(401));
    assert_eq!(a, RequestAction::SendUnderLock);
    let (p, a) = next_step(p, RequestEvent::Status(401));
    assert_eq!(a, RequestAction::Login);
    let (p, a) = next_step(p, RequestEvent::LoginSucceeded);
    assert_eq!(a, RequestAction::Send);
    let (p, a) = next_step(p, RequestEvent::Status(200));
    assert_eq!(p, ReauthPhase::Done);
    assert_eq!(a, RequestAction::Finish(200));
}

#[test]
fn second_unauthorized_is_an_auth_error() {
    let (p, _) = next_step(ReauthPhase::First, RequestEvent::Status(401));
    let (p, _) = next_step(p, RequestEvent::Status(401));
    let (p, _) = next_step(p, RequestEvent::LoginSucceeded);
    let (p, a) = next_step(p, RequestEvent::Status(401));
    assert_eq!(p, ReauthPhase::Done);
    assert_eq!(a, RequestAction::FailAuth);
}

#[test]
fn refreshed_by_another_task() {
    let (p, _) = next_step(ReauthPhase::First, RequestEvent::Status(401));
    let (p, a) = next_step(p, RequestEvent::Status(200));
    assert_eq!(p, ReauthPhase::Done);
    assert_eq!(a, RequestAction::Finish(200));
}

#[test]
fn failed_login_is_an_auth_error() {
    let (_, a) = next_step(ReauthPhase::LoggingIn, RequestEvent::LoginFailed);
    assert_eq!(a, RequestAction::FailAuth);
}
