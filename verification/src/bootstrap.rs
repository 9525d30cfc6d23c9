//! The connection bootstrap: the two-phase connect, split at its I/O edges.
//! The caller performs the HTTP preflight, the socket upgrade and the pump
//! spawning; every decision in between — what to log, when the job fails,
//! what to enqueue — is a verified step here, a function of the outcome the
//! caller hands back.

use vstd::prelude::*;
use crate::codec::Fault;
use crate::codec::TX_AUTH_FLAG;
use crate::codec::TX_TIE_INIT_FLAG;
use crate::codec::encode;
use crate::session::App;
use crate::session::AppState;
use crate::session::AppStateView;
use crate::session::AppView;
use crate::session::untie_frame;
use crate::session::untie_string;
use crate::state::Chat;
use crate::state::ChatState;
use crate::state::ChatView;
use crate::state::Job;
use crate::state::JobState;
use crate::state::JobStateView;
use crate::state::JobSwitchAppState;
use crate::state::JobSwitchView;
use crate::state::JobView;
use crate::state::UserKey;
use crate::state::UserKeyView;
use crate::strings::AUTH_JOB;
use crate::strings::AUTH_JOB_CONNECT;
use crate::strings::AUTH_JOB_CONNECT_AUTH;
use crate::strings::AUTH_JOB_PRECONNECT;
use crate::strings::JOB_STARTING;
use crate::strings::JOB_SUCCESS;
use crate::strings::TIE_JOB;
use crate::strings::TIE_JOB_UNTYING;
use crate::strings::TIE_JOB_WITH;
use crate::text::prefix_before;
use crate::text::str_eq;

verus! {

/// How the HTTP preflight ended: no response at all, a response whose body
/// could not be read, or the body's text.
pub enum PreflightOutcome {
    Unreachable,
    Unparseable,
    Body(String),
}

/// The mathematical value of a preflight outcome.
#[verifier::ext_equal]
pub enum PreflightOutcomeView {
    Unreachable,
    Unparseable,
    Body(Seq<char>),
}

impl View for PreflightOutcome {
    type V = PreflightOutcomeView;

    open spec fn view(&self) -> PreflightOutcomeView {
        match self {
            PreflightOutcome::Unreachable => PreflightOutcomeView::Unreachable,
            PreflightOutcome::Unparseable => PreflightOutcomeView::Unparseable,
            PreflightOutcome::Body(body) => PreflightOutcomeView::Body(body@),
        }
    }
}

/// The HTTP preflight address: plain HTTP against the configured host.
pub open spec fn preflight_url_spec(root_url: Seq<char>) -> Seq<char> {
    "http://"@ + root_url + "/preconnect.php"@
}

/// Builds the HTTP preflight address for the caller to fetch.
pub fn preflight_url(app: &App) -> (r: String)
    ensures
        r@ == preflight_url_spec(app@.server.root_url),
{
    String::from_str("http://").concat(app.server.root_url.as_str()).concat("/preconnect.php")
}

/// The socket address: a websocket against the configured host and port.
pub open spec fn socket_url_spec(root_url: Seq<char>, port: Seq<char>) -> Seq<char> {
    "ws://"@ + root_url + ":"@ + port
}

/// Builds the socket address for the caller to connect to.
pub fn socket_url(app: &App) -> (r: String)
    ensures
        r@ == socket_url_spec(app@.server.root_url, app@.server.port),
{
    String::from_str("ws://").concat(app.server.root_url.as_str()).concat(":").concat(
        app.server.port.as_str(),
    )
}

/// What starting the authorization job does: capture the credential from the
/// first input, switch to a fresh job titled as the authorizing job, and log
/// the opening lines.
pub open spec fn auth_begin_step(a: AppView, now: Seq<char>) -> AppView {
    let keyed = AppView {
        user_key: Some(
            UserKeyView { full: a.inputs[0], username: prefix_before(a.inputs[0], ':') },
        ),
        ..a
    };
    keyed.set_state_spec(AppStateView::Job(JobView::fresh(AUTH_JOB@))).job_log_add_spec(
        now,
        JOB_STARTING@,
    ).job_log_add_spec(now, AUTH_JOB_PRECONNECT@)
}

/// Starts the authorization job from the credential standing in the first
/// input; the caller then issues the HTTP preflight.
pub fn start_auth_job(app: &mut App, now: &str)
    requires
        old(app)@.wf(),
    ensures
        final(app)@ == auth_begin_step(old(app)@, now@),
        final(app)@.wf(),
{
    let full = app.inputs[0].clone();
    app.user_key = Some(UserKey::default(full));
    app.set_state(AppState::Job(Job::default(String::from_str(AUTH_JOB))));
    app.job_log_add(now, JOB_STARTING);
    app.job_log_add(now, AUTH_JOB_PRECONNECT);
    proof {
        assert(app@ =~~= auth_begin_step(old(app)@, now@));
    }
}

/// What the preflight outcome does to the job: progress reaches 25 either
/// way; only the exact body `Ok` lets the bootstrap proceed, every other
/// outcome fails the job back to the auth screen under its own log line.
pub open spec fn preflight_step(a: AppView, outcome: PreflightOutcomeView, now: Seq<char>) -> AppView {
    let a1 = a.job_progress_set_spec(25);
    match outcome {
        PreflightOutcomeView::Unreachable => a1.job_log_add_spec(
            now,
            Fault::PreflightUnreachable.line(),
        ).job_state_set_spec(JobStateView::Failed(JobSwitchView::Auth), false),
        PreflightOutcomeView::Unparseable => a1.job_log_add_spec(
            now,
            JOB_SUCCESS@,
        ).job_log_add_spec(now, Fault::PreflightUnparseable.line()).job_state_set_spec(
            JobStateView::Failed(JobSwitchView::Auth),
            false,
        ),
        PreflightOutcomeView::Body(b) => {
            let a2 = a1.job_log_add_spec(now, JOB_SUCCESS@);
            if b == "Ok"@ {
                a2.job_log_add_spec(now, AUTH_JOB_CONNECT@).job_progress_set_spec(50)
            } else {
                a2.job_log_add_spec(now, Fault::PreflightRejected.line()).job_state_set_spec(
                    JobStateView::Failed(JobSwitchView::Auth),
                    false,
                )
            }
        },
    }
}

/// Records the preflight outcome. Returns whether the bootstrap proceeds to
/// open the socket: true exactly when the body was the literal `Ok`.
pub fn preflight_done(app: &mut App, outcome: PreflightOutcome, now: &str) -> (proceed: bool)
    requires
        old(app)@.wf(),
    ensures
        final(app)@ == preflight_step(old(app)@, outcome@, now@),
        proceed == (outcome@ matches PreflightOutcomeView::Body(b) && b == "Ok"@),
        final(app)@.wf(),
{
    app.job_progress_set(25);
    match outcome {
        PreflightOutcome::Unreachable => {
            app.job_log_add(now, Fault::PreflightUnreachable.log_line());
            app.job_state_set(JobState::Failed(JobSwitchAppState::Auth), false);
            proof {
                assert(app@ =~~= preflight_step(old(app)@, outcome@, now@));
            }
            false
        },
        PreflightOutcome::Unparseable => {
            app.job_log_add(now, JOB_SUCCESS);
            app.job_log_add(now, Fault::PreflightUnparseable.log_line());
            app.job_state_set(JobState::Failed(JobSwitchAppState::Auth), false);
            proof {
                assert(app@ =~~= preflight_step(old(app)@, outcome@, now@));
            }
            false
        },
        PreflightOutcome::Body(body) => {
            app.job_log_add(now, JOB_SUCCESS);
            if str_eq(body.as_str(), "Ok") {
                app.job_log_add(now, AUTH_JOB_CONNECT);
                app.job_progress_set(50);
                proof {
                    assert(app@ =~~= preflight_step(old(app)@, PreflightOutcomeView::Body(body@), now@));
                }
                true
            } else {
                app.job_log_add(now, Fault::PreflightRejected.log_line());
                app.job_state_set(JobState::Failed(JobSwitchAppState::Auth), false);
                proof {
                    assert(app@ =~~= preflight_step(old(app)@, PreflightOutcomeView::Body(body@), now@));
                }
                false
            }
        },
    }
}

/// What a failed socket upgrade does: progress ticks to 70, then the job
/// fails back to the auth screen under the socket fault's log line.
pub open spec fn socket_failed_step(a: AppView, now: Seq<char>) -> AppView {
    a.job_progress_set_spec(70).job_log_add_spec(
        now,
        Fault::SocketUnavailable.line(),
    ).job_state_set_spec(JobStateView::Failed(JobSwitchView::Auth), false)
}

/// Records that the socket upgrade failed.
pub fn socket_failed(app: &mut App, now: &str)
    requires
        old(app)@.wf(),
    ensures
        final(app)@ == socket_failed_step(old(app)@, now@),
        final(app)@.wf(),
{
    app.job_progress_set(70);
    app.job_log_add(now, Fault::SocketUnavailable.log_line());
    app.job_state_set(JobState::Failed(JobSwitchAppState::Auth), false);
    proof {
        assert(app@ =~~= socket_failed_step(old(app)@, now@));
    }
}

/// The authorization frame: flag, shared secret, separator, full credential.
pub open spec fn auth_frame(key: Seq<char>, full: Seq<char>) -> Seq<char> {
    seq![TX_AUTH_FLAG] + key + "/"@ + full
}

/// What a successful socket upgrade does: progress reaches 90 and exactly
/// one authorization frame goes onto the send queue; the job stays in
/// progress until the server answers it.
pub open spec fn socket_opened_step(a: AppView, now: Seq<char>) -> AppView {
    match a.user_key {
        Some(k) => a.job_progress_set_spec(70).job_log_add_spec(
            now,
            JOB_SUCCESS@,
        ).job_progress_set_spec(90).job_log_add_spec(now, AUTH_JOB_CONNECT_AUTH@)
            .sending_queue_add_spec(auth_frame(a.server.key, k.full)),
        None => a,
    }
}

/// Records that the socket is up and enqueues the authorization frame; the
/// caller has spawned the pumps on the socket's two halves.
pub fn socket_opened(app: &mut App, now: &str)
    requires
        old(app)@.wf(),
        old(app)@.user_key is Some,
    ensures
        final(app)@ == socket_opened_step(old(app)@, now@),
        final(app)@.wf(),
{
    app.job_progress_set(70);
    app.job_log_add(now, JOB_SUCCESS);
    app.job_progress_set(90);
    app.job_log_add(now, AUTH_JOB_CONNECT_AUTH);
    let full = match &app.user_key {
        Some(k) => k.full.clone(),
        None => unreached(),
    };
    let body = app.server.key.clone().concat("/").concat(full.as_str());
    let frame = encode(TX_AUTH_FLAG, body.as_str());
    app.sending_queue_add(frame);
    proof {
        assert(app@ =~~= socket_opened_step(old(app)@, now@));
    }
}

/// What starting the pairing job does: capture the subject from the first
/// input, switch to a fresh job titled as the tying job that records the
/// subject and an abortable fallback to an unpaired chat, and — when a tie
/// already stands — log and enqueue the untie first.
pub open spec fn tie_begin_step(a: AppView, now: Seq<char>) -> AppView {
    let subject = a.inputs[0];
    let job = JobView {
        title: TIE_JOB@,
        progress: 0,
        state: JobStateView::InProgress(Some(JobSwitchView::Chat(ChatView::init()))),
        log: Seq::empty(),
        data: seq![subject],
    };
    let untie_required = a.state matches AppStateView::Chat(c) && c.state is Tied;
    let a1 = a.set_state_spec(AppStateView::Job(job));
    if untie_required {
        a1.job_log_add_spec(now, TIE_JOB_UNTYING@).sending_queue_add_spec(untie_frame())
    } else {
        a1
    }
}

/// Starts the pairing job from the subject standing in the first input.
/// Returns whether an existing tie had to be broken first: the caller then
/// waits a settle delay before `tie_job_send`.
pub fn start_tie_job(app: &mut App, now: &str) -> (untie_required: bool)
    requires
        old(app)@.wf(),
    ensures
        final(app)@ == tie_begin_step(old(app)@, now@),
        untie_required == (old(app)@.state matches AppStateView::Chat(c) && c.state is Tied),
        final(app)@.wf(),
{
    let subject = app.inputs[0].clone();
    let mut job = Job::default(String::from_str(TIE_JOB));
    let mut data: Vec<String> = Vec::new();
    data.push(subject);
    job.data = data;
    job.state = JobState::InProgress(Some(JobSwitchAppState::Chat(Chat::default())));
    let untie_required = match &app.state {
        AppState::Chat(chat) => match &chat.state {
            ChatState::Tied(_) => true,
            ChatState::Untied => false,
        },
        _ => false,
    };
    app.set_state(AppState::Job(job));
    if untie_required {
        app.job_log_add(now, TIE_JOB_UNTYING);
        app.sending_queue_add(untie_string());
    }
    proof {
        assert(app@ =~~= tie_begin_step(old(app)@, now@));
    }
    untie_required
}

/// What sending the pairing request does: log the subject being tied and
/// enqueue the pairing-initiation frame, the subject taken from the job's
/// recorded data; without an active tying job, nothing.
pub open spec fn tie_send_step(a: AppView, now: Seq<char>) -> AppView {
    match a.state {
        AppStateView::Job(j) => if j.title == TIE_JOB@ && j.data.len() > 0 {
            let subject = j.data[0];
            a.job_log_add_spec(
                now,
                TIE_JOB_WITH@ + " "@ + subject + "..."@,
            ).sending_queue_add_spec(seq![TX_TIE_INIT_FLAG] + subject)
        } else {
            a
        },
        _ => a,
    }
}

/// Sends the pairing request recorded by `start_tie_job`.
pub fn tie_job_send(app: &mut App, now: &str)
    requires
        old(app)@.wf(),
    ensures
        final(app)@ == tie_send_step(old(app)@, now@),
        final(app)@.wf(),
{
    let subject_opt: Option<String> = match &app.state {
        AppState::Job(job) => if str_eq(job.title.as_str(), TIE_JOB) && job.data.len() > 0 {
            Some(job.data[0].clone())
        } else {
            None
        },
        _ => None,
    };
    match subject_opt {
        Some(subject) => {
            let line = String::from_str(TIE_JOB_WITH).concat(" ").concat(subject.as_str()).concat(
                "...",
            );
            app.job_log_add(now, line.as_str());
            let frame = encode(TX_TIE_INIT_FLAG, subject.as_str());
            app.sending_queue_add(frame);
        },
        None => {},
    }
    proof {
        assert(app@ =~~= tie_send_step(old(app)@, now@));
    }
}

/// What a failed transmit does: the connectivity fault goes into the log and
/// the active job fails back to the auth screen; the outbound pump itself
/// carries on with the remaining entries.
pub open spec fn outbound_fault_step(a: AppView, now: Seq<char>) -> AppView {
    a.job_log_add_spec(now, Fault::SocketUnavailable.line()).job_state_set_spec(
        JobStateView::Failed(JobSwitchView::Auth),
        false,
    )
}

/// Records that transmitting one queued frame failed.
pub fn outbound_fault(app: &mut App, now: &str)
    requires
        old(app)@.wf(),
    ensures
        final(app)@ == outbound_fault_step(old(app)@, now@),
        final(app)@.wf(),
{
    app.job_log_add(now, Fault::SocketUnavailable.log_line());
    app.job_state_set(JobState::Failed(JobSwitchAppState::Auth), false);
    proof {
        assert(app@ =~~= outbound_fault_step(old(app)@, now@));
    }
}

} // verus!
