//! Decisions of an authenticated request that may meet an expired
//! session: the caller performs each action and reports what came back.
use vstd::prelude::*;

verus! {

/// HTTP status that means the session is no longer valid.
pub const UNAUTHORIZED: u16 = 401;

/// Where one authenticated request stands.
#[derive(Debug, Clone, Copy, PartialEq, Eq, Structural)]
pub enum ReauthPhase {
    /// The first attempt, with the current session, is in flight.
    First,
    /// Holding the re-login lock, the request is sent once more: another
    /// task may have refreshed the session meanwhile.
    Recheck,
    /// Logging in again.
    LoggingIn,
    /// The request is sent with the new session.
    AfterLogin,
    /// A final answer was given.
    Done,
}

/// What the caller saw.
#[derive(Debug, Clone, Copy, PartialEq, Eq, Structural)]
pub enum RequestEvent {
    /// A response with this status arrived.
    Status(u16),
    LoginSucceeded,
    LoginFailed,
}

/// What the caller does next.
#[derive(Debug, Clone, Copy, PartialEq, Eq, Structural)]
pub enum RequestAction {
    /// Take the re-login lock and send the request again.
    SendUnderLock,
    /// Log in again.
    Login,
    /// Send the request with the refreshed session.
    Send,
    /// Hand the response with this status to the caller.
    Finish(u16),
    /// Give up with an authentication error.
    FailAuth,
}

pub open spec fn step_spec(p: ReauthPhase, e: RequestEvent) -> (ReauthPhase, RequestAction) {
    match (p, e) {
        (ReauthPhase::First, RequestEvent::Status(s)) => if s == UNAUTHORIZED {
            (ReauthPhase::Recheck, RequestAction::SendUnderLock)
        } else {
            (ReauthPhase::Done, RequestAction::Finish(s))
        },
        (ReauthPhase::Recheck, RequestEvent::Status(s)) => if s == UNAUTHORIZED {
            (ReauthPhase::LoggingIn, RequestAction::Login)
        } else {
            (ReauthPhase::Done, RequestAction::Finish(s))
        },
        (ReauthPhase::LoggingIn, RequestEvent::LoginSucceeded) => (ReauthPhase::AfterLogin, RequestAction::Send),
        (ReauthPhase::AfterLogin, RequestEvent::Status(s)) => if s == UNAUTHORIZED {
            (ReauthPhase::Done, RequestAction::FailAuth)
        } else {
            (ReauthPhase::Done, RequestAction::Finish(s))
        },
        _ => (ReauthPhase::Done, RequestAction::FailAuth),
    }
}

/// The next phase and action after event `e` in phase `p`.
pub fn next_step(p: ReauthPhase, e: RequestEvent) -> (r: (ReauthPhase, RequestAction))
    ensures
        r == step_spec(p, e),
{
    match (p, e) {
        (ReauthPhase::First, RequestEvent::Status(s)) => if s == UNAUTHORIZED {
            (ReauthPhase::Recheck, RequestAction::SendUnderLock)
        } else {
            (ReauthPhase::Done, RequestAction::Finish(s))
        },
        (ReauthPhase::Recheck, RequestEvent::Status(s)) => if s == UNAUTHORIZED {
            (ReauthPhase::LoggingIn, RequestAction::Login)
        } else {
            (ReauthPhase::Done, RequestAction::Finish(s))
        },
        (ReauthPhase::LoggingIn, RequestEvent::LoginSucceeded) => (ReauthPhase::AfterLogin, RequestAction::Send),
        (ReauthPhase::AfterLogin, RequestEvent::Status(s)) => if s == UNAUTHORIZED {
            (ReauthPhase::Done, RequestAction::FailAuth)
        } else {
            (ReauthPhase::Done, RequestAction::Finish(s))
        },
        _ => (ReauthPhase::Done, RequestAction::FailAuth),
    }
}

/// Whether a login may still be asked for from phase `p`.
pub open spec fn login_left(p: ReauthPhase) -> bool {
    p == ReauthPhase::First || p == ReauthPhase::Recheck
}

/// Number of `Login` actions asked for while the events `evs` arrive,
/// starting in phase `p`.
pub open spec fn logins(p: ReauthPhase, evs: Seq<RequestEvent>) -> nat
    decreases evs.len(),
{
    if evs.len() == 0 {
        0
    } else {
        let (q, a) = step_spec(p, evs[0]);
        (if a == RequestAction::Login { 1nat } else { 0nat }) + logins(q, evs.drop_first())
    }
}

/// Whatever the responses, one request logs in again at most once.
pub proof fn lemma_at_most_one_login(p: ReauthPhase, evs: Seq<RequestEvent>)
    ensures
        logins(p, evs) <= if login_left(p) { 1nat } else { 0nat },
    decreases evs.len(),
{
    if evs.len() > 0 {
        let (q, a) = step_spec(p, evs[0]);
        lemma_at_most_one_login(q, evs.drop_first());
        assert(a == RequestAction::Login ==> !login_left(q));
        assert(!login_left(p) ==> !login_left(q) && a != RequestAction::Login);
    }
}

/// A 401 that answers the request sent after the new login ends in an
/// authentication error, and no second login is tried.
pub proof fn lemma_unauthorized_after_login_fails()
    ensures
        step_spec(ReauthPhase::AfterLogin, RequestEvent::Status(UNAUTHORIZED))
            == (ReauthPhase::Done, RequestAction::FailAuth),
{
}

} // verus!
