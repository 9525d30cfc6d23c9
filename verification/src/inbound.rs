//! The inbound pump's dispatch: one decoded frame at a time, strictly in
//! arrival order, each one a pure step of the application state machine.
//! `inbound_step` is that step as a mathematical function; `dispatch_frame`
//! computes it. Frames that do not match the active screen's expectations
//! are ignored.

use vstd::prelude::*;
use crate::clock::clock_hm;
use crate::clock::clock_hms;
use crate::codec::Fault;
use crate::codec::RXTX_FAULT_FLAG;
use crate::codec::RXTX_MESSAGE_FLAG;
use crate::codec::RXTX_OK_FLAG;
use crate::codec::RXTX_UNTIE_FLAG;
use crate::codec::RX_AUTH_FAULT_FLAG;
use crate::codec::RX_AUTH_FAULT_OVERAUTH_FLAG;
use crate::codec::RX_AUTH_OK_FLAG;
use crate::codec::RX_TIE_FAULT_NOUSER_FLAG;
use crate::codec::RX_TIE_FAULT_OVERTIE_FLAG;
use crate::codec::RX_TIE_FAULT_SELFTIE_FLAG;
use crate::codec::RX_TIE_OK_FLAG;
use crate::codec::RX_TIE_OK_WAIT_FLAG;
use crate::codec::decode;
use crate::session::App;
use crate::session::AppState;
use crate::session::AppStateView;
use crate::session::AppView;
use crate::session::untie_frame;
use crate::state::Chat;
use crate::state::ChatState;
use crate::state::ChatView;
use crate::state::JobState;
use crate::state::JobStateView;
use crate::state::JobSwitchAppState;
use crate::state::JobSwitchView;
use crate::strings::AUTH_JOB;
use crate::strings::CONNECTION_DROPPED_ERROR;
use crate::strings::JOB_SUCCESS;
use crate::strings::MESSAGE_CORRUPTED_ERROR;
use crate::strings::TIE_JOB;
use crate::strings::TIE_JOB_AWAITING;
use crate::text::str_eq;

verus! {

/// What one inbound frame does to the application. `log_now` stamps job log
/// lines, `msg_now` stamps chat message lines.
pub open spec fn inbound_step(
    a: AppView,
    txt: Seq<char>,
    log_now: Seq<char>,
    msg_now: Seq<char>,
) -> AppView {
    if txt.len() == 0 {
        // A malformed frame: note it and carry on.
        a.job_log_add_spec(log_now, Fault::FrameMalformed.line())
    } else {
        let flag = txt[0];
        let body = txt.subrange(1, txt.len() as int);
        if flag == RX_AUTH_OK_FLAG {
            match a.state {
                AppStateView::Job(j) => if j.title == AUTH_JOB@ {
                    a.job_log_add_spec(log_now, JOB_SUCCESS@).job_progress_set_spec(
                        100,
                    ).job_state_set_spec(
                        JobStateView::Succeeded(JobSwitchView::Chat(ChatView::init())),
                        false,
                    )
                } else {
                    a
                },
                _ => a,
            }
        } else if flag == RX_AUTH_FAULT_FLAG {
            match a.state {
                AppStateView::Job(j) => if j.title == AUTH_JOB@ {
                    a.job_log_add_spec(log_now, Fault::AuthRejected.line()).job_state_set_spec(
                        JobStateView::Failed(JobSwitchView::Auth),
                        false,
                    )
                } else {
                    a
                },
                _ => a,
            }
        } else if flag == RX_AUTH_FAULT_OVERAUTH_FLAG {
            match a.state {
                AppStateView::Job(j) => if j.title == AUTH_JOB@ {
                    a.job_log_add_spec(
                        log_now,
                        Fault::AuthAlreadyLoggedIn.line(),
                    ).job_state_set_spec(JobStateView::Failed(JobSwitchView::Auth), false)
                } else {
                    a
                },
                _ => a,
            }
        } else if flag == RX_TIE_OK_FLAG {
            match a.state {
                AppStateView::Job(j) => if j.title == TIE_JOB@ && j.data.len() > 0 {
                    a.job_log_add_spec(log_now, JOB_SUCCESS@).job_progress_set_spec(
                        100,
                    ).job_state_set_spec(
                        JobStateView::Succeeded(
                            JobSwitchView::Chat(ChatView::with_subject_spec(j.data[0])),
                        ),
                        false,
                    )
                } else {
                    a
                },
                _ => a,
            }
        } else if flag == RX_TIE_OK_WAIT_FLAG {
            match a.state {
                AppStateView::Job(j) => if j.title == TIE_JOB@ {
                    a.job_log_add_spec(log_now, TIE_JOB_AWAITING@).job_progress_set_spec(50)
                } else {
                    a
                },
                _ => a,
            }
        } else if flag == RX_TIE_FAULT_NOUSER_FLAG {
            match a.state {
                AppStateView::Job(j) => if j.title == TIE_JOB@ {
                    a.job_log_add_spec(
                        log_now,
                        Fault::PairingNoSuchUser.line(),
                    ).job_state_set_spec(
                        JobStateView::Failed(JobSwitchView::Chat(ChatView::init())),
                        false,
                    )
                } else {
                    a
                },
                _ => a,
            }
        } else if flag == RX_TIE_FAULT_SELFTIE_FLAG {
            match a.state {
                AppStateView::Job(j) => if j.title == TIE_JOB@ {
                    a.job_log_add_spec(log_now, Fault::PairingSelfPair.line()).job_state_set_spec(
                        JobStateView::Failed(JobSwitchView::Chat(ChatView::init())),
                        false,
                    )
                } else {
                    a
                },
                _ => a,
            }
        } else if flag == RX_TIE_FAULT_OVERTIE_FLAG {
            match a.state {
                AppStateView::Job(j) => if j.title == TIE_JOB@ {
                    a.job_log_add_spec(
                        log_now,
                        Fault::PairingAlreadyTied.line(),
                    ).job_state_set_spec(
                        JobStateView::Failed(JobSwitchView::Chat(ChatView::init())),
                        false,
                    ).sending_queue_add_spec(untie_frame())
                } else {
                    a
                },
                _ => a,
            }
        } else if flag == RXTX_UNTIE_FLAG {
            // The peer or the server broke the tie: land on a fresh,
            // unpaired chat at once.
            match a.state {
                AppStateView::Chat(c) => if c.state is Tied {
                    a.set_state_spec(AppStateView::Chat(ChatView::init()))
                } else {
                    a
                },
                _ => a,
            }
        } else if flag == RXTX_MESSAGE_FLAG {
            match a.state {
                AppStateView::Chat(c) => if c.state is Tied {
                    a.chat_messages_add_spec(msg_now, body)
                } else {
                    a
                },
                _ => a,
            }
        } else if flag == RXTX_FAULT_FLAG {
            a.job_state_set_spec(JobStateView::Failed(JobSwitchView::Auth), true).job_log_add_spec(
                log_now,
                Fault::GenericRemoteFault.line(),
            )
        } else if flag == RXTX_OK_FLAG {
            a
        } else {
            // An unknown flag: keep the whole frame in the log.
            a.job_log_add_spec(log_now, txt)
        }
    }
}

/// Applies one inbound frame to the application, under the given clock
/// readings.
pub fn dispatch_frame(app: &mut App, txt: &str, log_now: &str, msg_now: &str)
    requires
        old(app)@.wf(),
    ensures
        final(app)@ == inbound_step(old(app)@, txt@, log_now@, msg_now@),
        final(app)@.wf(),
{
    let decoded = decode(txt);
    match decoded {
        Err(fault) => {
            app.job_log_add(log_now, fault.log_line());
        },
        Ok((flag, body)) => {
            if flag == RX_AUTH_OK_FLAG {
                let is_auth_job = match &app.state {
                    AppState::Job(job) => str_eq(job.title.as_str(), AUTH_JOB),
                    _ => false,
                };
                if is_auth_job {
                    app.job_log_add(log_now, JOB_SUCCESS);
                    app.job_progress_set(100);
                    app.job_state_set(
                        JobState::Succeeded(JobSwitchAppState::Chat(Chat::default())),
                        false,
                    );
                }
            } else if flag == RX_AUTH_FAULT_FLAG {
                let is_auth_job = match &app.state {
                    AppState::Job(job) => str_eq(job.title.as_str(), AUTH_JOB),
                    _ => false,
                };
                if is_auth_job {
                    app.job_log_add(log_now, Fault::AuthRejected.log_line());
                    app.job_state_set(JobState::Failed(JobSwitchAppState::Auth), false);
                }
            } else if flag == RX_AUTH_FAULT_OVERAUTH_FLAG {
                let is_auth_job = match &app.state {
                    AppState::Job(job) => str_eq(job.title.as_str(), AUTH_JOB),
                    _ => false,
                };
                if is_auth_job {
                    app.job_log_add(log_now, Fault::AuthAlreadyLoggedIn.log_line());
                    app.job_state_set(JobState::Failed(JobSwitchAppState::Auth), false);
                }
            } else if flag == RX_TIE_OK_FLAG {
                let subject_opt: Option<String> = match &app.state {
                    AppState::Job(job) => if str_eq(job.title.as_str(), TIE_JOB) && job.data.len()
                        > 0 {
                        Some(job.data[0].clone())
                    } else {
                        None
                    },
                    _ => None,
                };
                match subject_opt {
                    Some(subject) => {
                        app.job_log_add(log_now, JOB_SUCCESS);
                        app.job_progress_set(100);
                        app.job_state_set(
                            JobState::Succeeded(
                                JobSwitchAppState::Chat(Chat::with_subject(subject)),
                            ),
                            false,
                        );
                    },
                    None => {},
                }
            } else if flag == RX_TIE_OK_WAIT_FLAG {
                let is_tie_job = match &app.state {
                    AppState::Job(job) => str_eq(job.title.as_str(), TIE_JOB),
                    _ => false,
                };
                if is_tie_job {
                    app.job_log_add(log_now, TIE_JOB_AWAITING);
                    app.job_progress_set(50);
                }
            } else if flag == RX_TIE_FAULT_NOUSER_FLAG {
                let is_tie_job = match &app.state {
                    AppState::Job(job) => str_eq(job.title.as_str(), TIE_JOB),
                    _ => false,
                };
                if is_tie_job {
                    app.job_log_add(log_now, Fault::PairingNoSuchUser.log_line());
                    app.job_state_set(
                        JobState::Failed(JobSwitchAppState::Chat(Chat::default())),
                        false,
                    );
                }
            } else if flag == RX_TIE_FAULT_SELFTIE_FLAG {
                let is_tie_job = match &app.state {
                    AppState::Job(job) => str_eq(job.title.as_str(), TIE_JOB),
                    _ => false,
                };
                if is_tie_job {
                    app.job_log_add(log_now, Fault::PairingSelfPair.log_line());
                    app.job_state_set(
                        JobState::Failed(JobSwitchAppState::Chat(Chat::default())),
                        false,
                    );
                }
            } else if flag == RX_TIE_FAULT_OVERTIE_FLAG {
                let is_tie_job = match &app.state {
                    AppState::Job(job) => str_eq(job.title.as_str(), TIE_JOB),
                    _ => false,
                };
                if is_tie_job {
                    app.job_log_add(log_now, Fault::PairingAlreadyTied.log_line());
                    app.job_state_set(
                        JobState::Failed(JobSwitchAppState::Chat(Chat::default())),
                        false,
                    );
                    app.sending_queue_add(crate::session::untie_string());
                }
            } else if flag == RXTX_UNTIE_FLAG {
                let tied = match &app.state {
                    AppState::Chat(chat) => match &chat.state {
                        ChatState::Tied(_) => true,
                        ChatState::Untied => false,
                    },
                    _ => false,
                };
                if tied {
                    app.set_state(AppState::Chat(Chat::default()));
                }
            } else if flag == RXTX_MESSAGE_FLAG {
                let tied = match &app.state {
                    AppState::Chat(chat) => match &chat.state {
                        ChatState::Tied(_) => true,
                        ChatState::Untied => false,
                    },
                    _ => false,
                };
                if tied {
                    app.chat_messages_add(msg_now, body.as_str());
                }
            } else if flag == RXTX_FAULT_FLAG {
                app.job_state_set(JobState::Failed(JobSwitchAppState::Auth), true);
                app.job_log_add(log_now, Fault::GenericRemoteFault.log_line());
            } else if flag == RXTX_OK_FLAG {
            } else {
                app.job_log_add(log_now, txt);
            }
        },
    }
    proof {
        assert(app@ =~~= inbound_step(old(app)@, txt@, log_now@, msg_now@));
    }
}

/// Applies one inbound frame under the wall clock's readings: the step is
/// `inbound_step` for whatever the clock returned.
pub fn handle_frame(app: &mut App, txt: &str)
    requires
        old(app)@.wf(),
    ensures
        exists|log_now: Seq<char>, msg_now: Seq<char>|
            final(app)@ == #[trigger] inbound_step(old(app)@, txt@, log_now, msg_now),
        final(app)@.wf(),
{
    let log_now = clock_hms();
    let msg_now = clock_hm();
    dispatch_frame(app, txt, log_now.as_str(), msg_now.as_str());
    proof {
        assert(app@ == inbound_step(old(app)@, txt@, log_now@, msg_now@));
    }
}

/// What a transport-level read fault does: the active job fails back to the
/// auth screen and notes the corrupted stream; the pump itself carries on.
pub open spec fn transport_error_step(a: AppView, now: Seq<char>) -> AppView {
    a.job_state_set_spec(JobStateView::Failed(JobSwitchView::Auth), false).job_log_add_spec(
        now,
        Fault::FrameMalformed.line(),
    )
}

/// Records a transport-level read fault.
pub fn transport_error(app: &mut App, now: &str)
    requires
        old(app)@.wf(),
    ensures
        final(app)@ == transport_error_step(old(app)@, now@),
        final(app)@.wf(),
{
    app.job_state_set(JobState::Failed(JobSwitchAppState::Auth), false);
    app.job_log_add(now, MESSAGE_CORRUPTED_ERROR);
    proof {
        assert(app@ =~~= transport_error_step(old(app)@, now@));
    }
}

/// What the end of the inbound stream does: from a chat screen, force a
/// failed job onto the screen so the disconnect is always observable and
/// recoverable; from any other screen, nothing.
pub open spec fn transport_closed_step(a: AppView, now: Seq<char>) -> AppView {
    if a.state is Chat {
        a.job_state_set_spec(JobStateView::Failed(JobSwitchView::Auth), true).job_log_add_spec(
            now,
            Fault::TransportDropped.line(),
        )
    } else {
        a
    }
}

/// Records that the inbound stream ended.
pub fn transport_closed(app: &mut App, now: &str)
    requires
        old(app)@.wf(),
    ensures
        final(app)@ == transport_closed_step(old(app)@, now@),
        final(app)@.wf(),
{
    let in_chat = match &app.state {
        AppState::Chat(_) => true,
        _ => false,
    };
    if in_chat {
        app.job_state_set(JobState::Failed(JobSwitchAppState::Auth), true);
        app.job_log_add(now, CONNECTION_DROPPED_ERROR);
    }
    proof {
        assert(app@ =~~= transport_closed_step(old(app)@, now@));
    }
}

/// Law: receiving the auth-accepted flag while a job titled as the
/// authorizing job is in progress completes it — the outcome becomes
/// `Succeeded` handing over to a fresh chat, and progress reaches 100.
pub proof fn lemma_auth_accept_completes(
    a: AppView,
    txt: Seq<char>,
    log_now: Seq<char>,
    msg_now: Seq<char>,
)
    requires
        a.wf(),
        a.state matches AppStateView::Job(j) && j.title == AUTH_JOB@ && j.state is InProgress,
        txt.len() > 0,
        txt[0] == RX_AUTH_OK_FLAG,
    ensures
        inbound_step(a, txt, log_now, msg_now).state matches AppStateView::Job(j2)
            && j2.state == JobStateView::Succeeded(JobSwitchView::Chat(ChatView::init()))
            && j2.progress == 100,
{
}

/// Law: receiving the auth-accepted flag while no job is active changes
/// nothing at all.
pub proof fn lemma_auth_accept_without_job(
    a: AppView,
    txt: Seq<char>,
    log_now: Seq<char>,
    msg_now: Seq<char>,
)
    requires
        !(a.state is Job),
        txt.len() > 0,
        txt[0] == RX_AUTH_OK_FLAG,
    ensures
        inbound_step(a, txt, log_now, msg_now) == a,
{
}

} // verus!
