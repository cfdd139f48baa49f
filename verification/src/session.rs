//! The supervisor of the single live session to the protocol client.
//!
//! The supervisor's state holds plain values only. The protocol client's
//! handle stays with the caller, who performs what each transition asks for
//! and names the session it speaks of by the number it was given: a task that
//! outlives its session finds that its number is no longer the live one, and
//! its report changes nothing.

use vstd::prelude::*;
use vstd::string::*;
use crate::text::{clone_opt, opt_text};

verus! {

/// A report of the connection's state, as published to the user interface.
#[derive(Clone, Debug, PartialEq)]
pub struct ConnectionStatus {
    /// One of `connected`, `disconnected`, `connecting`, `error`.
    pub status: String,
    pub message: Option<String>,
}

/// What a status report is, as plain values.
pub struct StatusView {
    pub status: Seq<char>,
    pub message: Option<Seq<char>>,
}

impl View for ConnectionStatus {
    type V = StatusView;

    open spec fn view(&self) -> StatusView {
        StatusView { status: self.status@, message: opt_text(self.message) }
    }
}

/// Where the session stands.
#[derive(Clone, Copy, Debug, PartialEq, Eq)]
pub enum Phase {
    Disconnected,
    Connecting,
    Connected,
    Error,
}

/// The supervisor's shared state.
#[derive(Clone, Debug, PartialEq)]
pub struct RunbotState {
    pub connected: bool,
    pub ws_url: Option<String>,
    pub access_token: Option<String>,
    /// The identity that the session logged in as, once it is known.
    pub self_id: Option<i64>,
    pub phase: Phase,
    /// The number of the live session, if there is one.
    pub session: Option<u64>,
    /// The number that the next session will get.
    pub next_session: u64,
    /// What went wrong, while the phase is `Error`.
    pub error: Option<String>,
}

/// What the supervisor's state is, as plain values.
pub struct SessionView {
    pub connected: bool,
    pub ws_url: Option<Seq<char>>,
    pub access_token: Option<Seq<char>>,
    pub self_id: Option<i64>,
    pub phase: Phase,
    pub session: Option<u64>,
    pub next_session: u64,
    pub error: Option<Seq<char>>,
}

impl View for RunbotState {
    type V = SessionView;

    open spec fn view(&self) -> SessionView {
        SessionView {
            connected: self.connected,
            ws_url: opt_text(self.ws_url),
            access_token: opt_text(self.access_token),
            self_id: self.self_id,
            phase: self.phase,
            session: self.session,
            next_session: self.next_session,
            error: opt_text(self.error),
        }
    }
}

/// Attempts at learning the session's identity before it is given up.
pub const LOGIN_ATTEMPTS: u32 = 5;

/// The wait after the first failed attempt, in milliseconds.
pub const FIRST_BACKOFF_MS: u64 = 500;

/// Seconds to wait for the answer to an API call.
pub const RESPONSE_TIMEOUT_SECS: u64 = 10;

/// The state is coherent: a live session is connected and in no terminal
/// phase, it has a number that was handed out before, an identity is known
/// only while a session is live, and an error only in the error phase.
pub open spec fn state_wf(s: SessionView) -> bool {
    &&& s.connected == s.session is Some
    &&& s.connected == (s.phase is Connecting || s.phase is Connected)
    &&& s.session is Some ==> s.session->0 < s.next_session
    &&& s.self_id is Some ==> s.connected
    &&& s.error is Some ==> s.phase is Error
}

/// Two to the power `n`.
pub open spec fn pow2(n: nat) -> nat
    decreases n,
{
    if n == 0 {
        1
    } else {
        2 * pow2((n - 1) as nat)
    }
}

/// The wait that follows the `failures`-th failed attempt: 500 ms, doubled
/// with every further failure.
pub open spec fn backoff_ms(failures: nat) -> nat
    recommends
        failures >= 1,
{
    FIRST_BACKOFF_MS as nat * pow2((failures - 1) as nat)
}

/// What to do after an attempt at learning the identity has failed.
#[derive(Clone, Copy, Debug, PartialEq, Eq)]
pub enum LoginStep {
    /// Wait this many milliseconds, then try again.
    RetryAfter(u64),
    /// The last attempt has failed: wait this many milliseconds, then give
    /// the session up.
    GiveUpAfter(u64),
    /// More attempts have failed than are ever made: give the session up.
    GiveUp,
}

/// The step after the `failures`-th failed attempt. Every failure is followed
/// by its backoff: after each of the first four comes another attempt, after
/// the fifth the session is given up.
pub open spec fn login_step(failures: nat) -> LoginStep {
    if failures < LOGIN_ATTEMPTS as nat {
        LoginStep::RetryAfter(backoff_ms(failures) as u64)
    } else if failures == LOGIN_ATTEMPTS as nat {
        LoginStep::GiveUpAfter(backoff_ms(failures) as u64)
    } else {
        LoginStep::GiveUp
    }
}

/// Five attempts are made at most, and the five waits that follow their
/// failures are 500, 1000, 2000, 4000 and 8000 ms.
pub proof fn five_attempts_five_waits()
    ensures
        login_step(1) == LoginStep::RetryAfter(500),
        login_step(2) == LoginStep::RetryAfter(1000),
        login_step(3) == LoginStep::RetryAfter(2000),
        login_step(4) == LoginStep::RetryAfter(4000),
        login_step(5) == LoginStep::GiveUpAfter(8000),
{
    reveal_with_fuel(pow2, 6);
}

/// The wait in milliseconds that follows the `failures`-th failed attempt,
/// for the attempts that the supervisor makes.
pub fn backoff_delay_ms(failures: u32) -> (r: u64)
    requires
        1 <= failures <= LOGIN_ATTEMPTS,
    ensures
        r == backoff_ms(failures as nat),
        r == 500 || r == 1000 || r == 2000 || r == 4000 || r == 8000,
{
    let mut delay: u64 = FIRST_BACKOFF_MS;
    let mut k: u32 = 1;
    proof {
        reveal_with_fuel(pow2, 6);
    }
    while k < failures
        invariant
            1 <= k <= failures <= LOGIN_ATTEMPTS,
            delay == backoff_ms(k as nat),
            delay <= 8000,
        decreases failures - k,
    {
        proof {
            reveal_with_fuel(pow2, 6);
        }
        delay = delay * 2;
        k += 1;
    }
    proof {
        reveal_with_fuel(pow2, 6);
    }
    delay
}

/// Decides what follows the `failures`-th failed attempt at learning the
/// identity: the backoff and another attempt, or after the fifth failure the
/// backoff and giving up.
pub fn after_login_failure(failures: u32) -> (r: LoginStep)
    requires
        failures >= 1,
    ensures
        r == login_step(failures as nat),
{
    if failures < LOGIN_ATTEMPTS {
        LoginStep::RetryAfter(backoff_delay_ms(failures))
    } else if failures == LOGIN_ATTEMPTS {
        LoginStep::GiveUpAfter(backoff_delay_ms(failures))
    } else {
        LoginStep::GiveUp
    }
}

/// The address to connect to: the endpoint, with the credential as its
/// `access_token` query where there is one.
pub open spec fn connection_url_text(ws_url: Seq<char>, access_token: Option<Seq<char>>) -> Seq<
    char,
> {
    match access_token {
        Some(token) => ws_url + "?access_token="@ + token,
        None => ws_url,
    }
}

/// Builds the address to connect to.
pub fn connection_url(ws_url: &str, access_token: &Option<String>) -> (r: String)
    ensures
        r@ == connection_url_text(ws_url@, opt_text(*access_token)),
{
    let mut url = ws_url.to_owned();
    match access_token {
        Some(token) => {
            url.append("?access_token=");
            url.append(token.as_str());
        },
        None => {},
    }
    url
}

/// A status report with the given tag and message.
pub fn report(status: &str, message: &str) -> (r: ConnectionStatus)
    ensures
        r@ == (StatusView { status: status@, message: Some(message@) }),
{
    ConnectionStatus { status: status.to_owned(), message: Some(message.to_owned()) }
}

/// The state with no live session, in the given phase.
pub open spec fn cleared(s: SessionView, phase: Phase, error: Option<Seq<char>>) -> SessionView {
    SessionView { connected: false, self_id: None, session: None, phase, error, ..s }
}

/// The state after a session was installed for the given endpoint.
pub open spec fn installed(
    s: SessionView,
    ws_url: Seq<char>,
    access_token: Option<Seq<char>>,
) -> SessionView {
    SessionView {
        connected: true,
        ws_url: Some(ws_url),
        access_token,
        phase: Phase::Connecting,
        session: Some(s.next_session),
        next_session: (s.next_session + 1) as u64,
        error: None,
        ..s
    }
}

/// The message of the error report for a failed run loop.
pub open spec fn run_loop_error_text(detail: Seq<char>) -> Seq<char> {
    "连接错误: "@ + detail
}

/// The report of the state `s`.
pub open spec fn status_of(s: SessionView) -> StatusView {
    match s.phase {
        Phase::Connected => StatusView { status: "connected"@, message: Some("已连接"@) },
        Phase::Connecting => StatusView { status: "connecting"@, message: Some("正在连接..."@) },
        Phase::Disconnected => StatusView { status: "disconnected"@, message: Some("未连接"@) },
        Phase::Error => StatusView { status: "error"@, message: s.error },
    }
}

impl RunbotState {
    /// Whether the state is coherent.
    pub open spec fn wf(&self) -> bool {
        state_wf(self@)
    }

    /// The state before any connection: disconnected, nothing known.
    pub fn new() -> (r: RunbotState)
        ensures
            r.wf(),
            r@ == (SessionView {
                connected: false,
                ws_url: None,
                access_token: None,
                self_id: None,
                phase: Phase::Disconnected,
                session: None,
                next_session: 0,
                error: None,
            }),
    {
        RunbotState {
            connected: false,
            ws_url: None,
            access_token: None,
            self_id: None,
            phase: Phase::Disconnected,
            session: None,
            next_session: 0,
            error: None,
        }
    }

    /// Whether the state is coherent: to be asked of a state that was put
    /// together elsewhere.
    pub fn is_well_formed(&self) -> (r: bool)
        ensures
            r == self.wf(),
    {
        let active = match self.phase {
            Phase::Connecting => true,
            Phase::Connected => true,
            _ => false,
        };
        let failed = match self.phase {
            Phase::Error => true,
            _ => false,
        };
        let numbered = match self.session {
            Some(session) => session < self.next_session,
            None => true,
        };
        self.connected == self.session.is_some() && self.connected == active && numbered && (
        self.self_id.is_none() || self.connected) && (self.error.is_none() || failed)
    }

    /// Whether `session` is the live session.
    pub open spec fn is_live(&self, session: u64) -> bool {
        self.session == Some(session)
    }

    /// Whether `session` is the live session.
    pub fn is_active(&self, session: u64) -> (r: bool)
        ensures
            r == self.is_live(session),
    {
        match self.session {
            Some(live) => live == session,
            None => false,
        }
    }

    /// The second step of a connect, once the protocol client's handle
    /// exists: installs a new session for the endpoint and returns its number
    /// with the `connecting` report. Returns `None`, and changes nothing, when
    /// a session is still live or the session numbers are used up.
    pub fn install_session(&mut self, ws_url: &str, access_token: &Option<String>) -> (r: Option<
        (u64, ConnectionStatus),
    >)
        requires
            old(self).wf(),
        ensures
            final(self).wf(),
            r is Some <==> (!old(self).connected && old(self).next_session < u64::MAX),
            r is Some ==> {
                &&& final(self)@ == installed(old(self)@, ws_url@, opt_text(*access_token))
                &&& r.unwrap().0 == old(self).next_session
                &&& r.unwrap().1@ == status_of(final(self)@)
            },
            r is None ==> *final(self) == *old(self),
    {
        if self.connected || self.next_session == u64::MAX {
            return None;
        }
        let session = self.next_session;
        self.connected = true;
        self.ws_url = Some(ws_url.to_owned());
        self.access_token = clone_opt(access_token);
        self.phase = Phase::Connecting;
        self.session = Some(session);
        self.next_session = session + 1;
        self.error = None;
        Some((session, report("connecting", "正在连接...")))
    }

    /// The last step of a connect: the session counts as connected without
    /// waiting for its identity. The report is `connected` in any case; the
    /// phase moves on only where `session` is still live and connecting.
    pub fn mark_connected(&mut self, session: u64) -> (r: ConnectionStatus)
        requires
            old(self).wf(),
        ensures
            final(self).wf(),
            r@ == (StatusView { status: "connected"@, message: Some("已连接"@) }),
            old(self).is_live(session) && old(self).phase is Connecting ==> final(self)@ == (
            SessionView { phase: Phase::Connected, ..old(self)@ }),
            !(old(self).is_live(session) && old(self).phase is Connecting) ==> *final(self)
                == *old(self),
    {
        if self.is_active(session) {
            match self.phase {
                Phase::Connecting => {
                    self.phase = Phase::Connected;
                },
                _ => {},
            }
        }
        report("connected", "已连接")
    }

    /// The run loop of `session` ended in an error. The caller shuts that
    /// session down; here it is cleared if it is still the live one, and the
    /// error is reported.
    pub fn run_loop_failed(&mut self, session: u64, detail: &str) -> (r: ConnectionStatus)
        requires
            old(self).wf(),
        ensures
            final(self).wf(),
            r@ == (StatusView {
                status: "error"@,
                message: Some(run_loop_error_text(detail@)),
            }),
            old(self).is_live(session) ==> final(self)@ == cleared(
                old(self)@,
                Phase::Error,
                Some(run_loop_error_text(detail@)),
            ),
            !old(self).is_live(session) ==> *final(self) == *old(self),
    {
        let mut message = "连接错误: ".to_owned();
        message.append(detail);
        if self.is_active(session) {
            self.connected = false;
            self.self_id = None;
            self.session = None;
            self.phase = Phase::Error;
            self.error = Some(message.clone());
        }
        ConnectionStatus { status: "error".to_owned(), message: Some(message) }
    }

    /// Latches an identity learned for `session`: the first identity that a
    /// live session learns stays, a later one does not replace it, and a
    /// session that is no longer live learns nothing. Returns the identity to
    /// announce, if this call latched one.
    pub fn latch_identity(&mut self, session: u64, self_id: i64) -> (learned: Option<i64>)
        requires
            old(self).wf(),
        ensures
            final(self).wf(),
            learned is Some <==> (old(self).is_live(session) && old(self).self_id is None
                && self_id > 0),
            learned is Some ==> learned == Some(self_id) && final(self)@ == (SessionView {
                self_id: Some(self_id),
                ..old(self)@
            }),
            learned is None ==> *final(self) == *old(self),
    {
        if self.is_active(session) && self.self_id.is_none() && self_id > 0 {
            self.self_id = Some(self_id);
            Some(self_id)
        } else {
            None
        }
    }

    /// Every attempt at learning the identity of `session` has failed: a
    /// session without an identity must not stay connected. If it is still the
    /// live one it is cleared, for the caller to shut down, and the error is
    /// reported; otherwise nothing changes and nothing is reported.
    pub fn identity_failed(&mut self, session: u64) -> (r: Option<ConnectionStatus>)
        requires
            old(self).wf(),
        ensures
            final(self).wf(),
            r is Some <==> old(self).is_live(session),
            r is Some ==> {
                &&& r->0@ == (StatusView {
                    status: "error"@,
                    message: Some("获取登录信息失败，已断开连接"@),
                })
                &&& final(self)@ == cleared(
                    old(self)@,
                    Phase::Error,
                    Some("获取登录信息失败，已断开连接"@),
                )
            },
            r is None ==> *final(self) == *old(self),
    {
        if self.is_active(session) {
            self.connected = false;
            self.self_id = None;
            self.session = None;
            self.phase = Phase::Error;
            self.error = Some("获取登录信息失败，已断开连接".to_owned());
            Some(report("error", "获取登录信息失败，已断开连接"))
        } else {
            None
        }
    }
}

/// What a connect asks of the caller before the new session is built.
#[derive(Clone, Debug, PartialEq)]
pub struct ConnectPlan {
    /// The session to shut down first, if one was live. A failure to shut it
    /// down does not stop the connect.
    pub retire: Option<u64>,
    /// The address to build the new protocol client for.
    pub url: String,
}

/// Begins a connect to `ws_url`: retires the live session, if there is one,
/// and says which address to build the new protocol client for. Without a
/// live session the state stays as it is. The new session is installed with
/// `install_session` once its protocol client exists.
pub fn connect_runbot(state: &mut RunbotState, ws_url: &str, access_token: &Option<String>) -> (r:
    ConnectPlan)
    requires
        old(state).wf(),
    ensures
        final(state).wf(),
        r.retire == old(state).session,
        r.url@ == connection_url_text(ws_url@, opt_text(*access_token)),
        old(state).connected ==> final(state)@ == cleared(old(state)@, Phase::Disconnected, None),
        !old(state).connected ==> *final(state) == *old(state),
{
    let url = connection_url(ws_url, access_token);
    if state.connected {
        let retire = state.session;
        state.connected = false;
        state.self_id = None;
        state.session = None;
        state.phase = Phase::Disconnected;
        state.error = None;
        ConnectPlan { retire, url }
    } else {
        ConnectPlan { retire: None, url }
    }
}

/// Takes the live session out of the state and returns its number, for the
/// caller to shut down outside any lock, with the `disconnected` report.
/// Without a live session only the report is made.
pub fn disconnect_runbot(state: &mut RunbotState) -> (r: (Option<u64>, ConnectionStatus))
    requires
        old(state).wf(),
    ensures
        final(state).wf(),
        r.0 == old(state).session,
        r.1@ == (StatusView { status: "disconnected"@, message: Some("已断开连接"@) }),
        final(state)@ == cleared(old(state)@, Phase::Disconnected, None),
{
    let retired = state.session;
    state.connected = false;
    state.self_id = None;
    state.session = None;
    state.phase = Phase::Disconnected;
    state.error = None;
    (retired, report("disconnected", "已断开连接"))
}

/// The report of the current state. Nothing is asked of the network.
pub fn get_runbot_status(state: &RunbotState) -> (r: ConnectionStatus)
    ensures
        r@ == status_of(state@),
{
    match state.phase {
        Phase::Connected => report("connected", "已连接"),
        Phase::Connecting => report("connecting", "正在连接..."),
        Phase::Disconnected => report("disconnected", "未连接"),
        Phase::Error => ConnectionStatus {
            status: "error".to_owned(),
            message: clone_opt(&state.error),
        },
    }
}

/// The identity of the live session, if it is known. Nothing is asked of the
/// network.
pub fn get_runbot_self_id(state: &RunbotState) -> (r: Option<i64>)
    ensures
        r == state.self_id,
{
    state.self_id
}

/// Disconnecting twice is disconnecting once: the second call finds no
/// session, retires none and leaves the state as the first left it.
pub proof fn disconnect_is_idempotent(s: SessionView)
    ensures
        cleared(cleared(s, Phase::Disconnected, None), Phase::Disconnected, None) == cleared(
            s,
            Phase::Disconnected,
            None,
        ),
        cleared(s, Phase::Disconnected, None).session is None,
        state_wf(cleared(s, Phase::Disconnected, None)),
{
}

/// At most one session is live, and a connect that follows a retire installs
/// a session with a number that no earlier session had: a task that still
/// holds the retired number can no longer pass for the live one.
pub proof fn retired_session_stays_stale(
    s: SessionView,
    ws_url: Seq<char>,
    access_token: Option<Seq<char>>,
)
    requires
        state_wf(s),
        s.next_session < u64::MAX,
    ensures
        state_wf(installed(cleared(s, Phase::Disconnected, None), ws_url, access_token)),
        s.session is Some ==> installed(
            cleared(s, Phase::Disconnected, None),
            ws_url,
            access_token,
        ).session != s.session,
{
}

} // verus!
