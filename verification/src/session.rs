//! The top-level application state machine: one `App` value is the single
//! source of truth that the UI loop reads and that the pumps and the
//! bootstrap mutate. Every mutation is a function here, and every function's
//! contract says exactly what the new value is in terms of the old one.

use vstd::prelude::*;
use crate::codec::RXTX_MESSAGE_FLAG;
use crate::codec::encode;
use crate::queue::SendQueue;
use crate::queue::SendQueueView;
use crate::queue::dropme_frame;
use crate::queue::dropme_string;
use crate::secure::Server;
use crate::secure::ServerView;
use crate::state::Chat;
use crate::state::ChatState;
use crate::state::ChatView;
use crate::state::Job;
use crate::state::JobState;
use crate::state::JobStateView;
use crate::state::JobSwitchAppState;
use crate::state::JobSwitchView;
use crate::state::JobView;
use crate::state::UserKey;
use crate::state::UserKeyView;
use crate::strings::FATAL_RUNTIME_ERROR;

verus! {

/// The untie frame as it travels the wire.
pub open spec fn untie_frame() -> Seq<char> {
    "C"@
}

/// Builds the untie frame.
pub fn untie_string() -> (r: String)
    ensures
        r@ == untie_frame(),
{
    String::from_str("C")
}

/// Three blank input buffers: every screen resets to these.
pub open spec fn blank_inputs_spec() -> Seq<Seq<char>> {
    seq![Seq::<char>::empty(), Seq::<char>::empty(), Seq::<char>::empty()]
}

fn blank_inputs() -> (v: Vec<String>)
    ensures
        v.deep_view() == blank_inputs_spec(),
{
    let mut v: Vec<String> = Vec::new();
    v.push(String::new());
    v.push(String::new());
    v.push(String::new());
    proof {
        assert(v.deep_view() =~~= blank_inputs_spec());
    }
    v
}

/// The job synthesized when a failure must surface while no job is active.
pub open spec fn fatal_job(state: JobStateView) -> JobView {
    JobView {
        title: FATAL_RUNTIME_ERROR@,
        progress: 0,
        state,
        log: Seq::empty(),
        data: Seq::empty(),
    }
}

/// Which screen the application shows.
#[verifier::ext_equal]
pub enum AppStateView {
    Auth,
    Chat(ChatView),
    Job(JobView),
}

/// The screen selector: exactly one of these is active at any instant.
pub enum AppState {
    Auth,
    Chat(Chat),
    Job(Job),
}

impl View for AppState {
    type V = AppStateView;

    open spec fn view(&self) -> AppStateView {
        match self {
            AppState::Auth => AppStateView::Auth,
            AppState::Chat(chat) => AppStateView::Chat(chat@),
            AppState::Job(job) => AppStateView::Job(job@),
        }
    }
}

/// A screen state the engine may switch to: a job's progress stays within
/// the gauge's range.
pub open spec fn state_wf(s: AppStateView) -> bool {
    s matches AppStateView::Job(j) ==> j.progress <= 100
}

/// The mathematical value of the whole application.
#[verifier::ext_equal]
pub struct AppView {
    pub server: ServerView,
    pub user_key: Option<UserKeyView>,
    pub inputs: Seq<Seq<char>>,
    pub input_focus: u8,
    pub max_input_focus: u8,
    pub state: AppStateView,
    pub requested_exit: bool,
    pub requested_job: u8,
    pub sending_queue: SendQueueView,
    pub writer_exists: bool,
}

impl AppView {
    /// The application's invariant: three input buffers, a well-formed send
    /// queue, and job progress within the gauge's range.
    pub open spec fn wf(self) -> bool {
        &&& self.inputs.len() == 3
        &&& self.sending_queue.wf()
        &&& state_wf(self.state)
    }

    /// The value the application starts from: the auth screen, nothing
    /// queued, no credential, blank connection parameters.
    pub open spec fn init() -> AppView {
        AppView {
            server: ServerView::empty(),
            user_key: None,
            inputs: blank_inputs_spec(),
            input_focus: 0,
            max_input_focus: 1,
            state: AppStateView::Auth,
            requested_exit: false,
            requested_job: 0,
            sending_queue: SendQueueView::empty(),
            writer_exists: false,
        }
    }

    /// What `job_log_add` does: append the timestamped line to the active
    /// job's log; without an active job, nothing.
    pub open spec fn job_log_add_spec(self, now: Seq<char>, msg: Seq<char>) -> AppView {
        match self.state {
            AppStateView::Job(j) => AppView {
                state: AppStateView::Job(j.log_add_spec(now, msg)),
                ..self
            },
            _ => self,
        }
    }

    /// What `job_progress_set` does: progress moves only forward, only while
    /// the active job is in progress; otherwise nothing.
    pub open spec fn job_progress_set_spec(self, progress: u16) -> AppView {
        match self.state {
            AppStateView::Job(j) => if j.state is InProgress && progress >= j.progress {
                AppView { state: AppStateView::Job(JobView { progress, ..j }), ..self }
            } else {
                self
            },
            _ => self,
        }
    }

    /// What `job_state_set` does: replace the active job's progress state;
    /// with `force_err` and no active job, synthesize the fatal job around
    /// it; otherwise nothing.
    pub open spec fn job_state_set_spec(self, job_state: JobStateView, force_err: bool) -> AppView {
        match self.state {
            AppStateView::Job(j) => AppView {
                state: AppStateView::Job(JobView { state: job_state, ..j }),
                ..self
            },
            _ => if force_err {
                AppView { state: AppStateView::Job(fatal_job(job_state)), ..self }
            } else {
                self
            },
        }
    }

    /// What `sending_queue_add` does: enqueue under the window's collapse
    /// rule.
    pub open spec fn sending_queue_add_spec(self, msg: Seq<char>) -> AppView {
        AppView { sending_queue: self.sending_queue.enqueue_spec(msg), ..self }
    }

    /// What `chat_messages_add` does: put the timestamped message in front of
    /// the active chat's list; without an active chat, nothing.
    pub open spec fn chat_messages_add_spec(self, now: Seq<char>, msg: Seq<char>) -> AppView {
        match self.state {
            AppStateView::Chat(c) => AppView {
                state: AppStateView::Chat(c.messages_add_spec(now, msg)),
                ..self
            },
            _ => self,
        }
    }

    /// What `set_state` does: pick the focus bounds for the target screen,
    /// enqueue the session-drop sentinel when leaving for the auth screen
    /// while the outbound pump runs, blank the inputs, and swap the screen.
    pub open spec fn set_state_spec(self, to: AppStateView) -> AppView {
        let a1 = match to {
            AppStateView::Chat(c) => AppView {
                max_input_focus: if c.state is Tied {
                    3
                } else {
                    1
                },
                input_focus: 1,
                ..self
            },
            AppStateView::Auth => {
                let aq = if self.writer_exists {
                    self.sending_queue_add_spec(dropme_frame())
                } else {
                    self
                };
                AppView { max_input_focus: 1, input_focus: 0, ..aq }
            },
            AppStateView::Job(_) => AppView { max_input_focus: 1, input_focus: 0, ..self },
        };
        AppView { inputs: blank_inputs_spec(), state: to, ..a1 }
    }

    /// What `set_state_using_switch` does: like `set_state`, for the screen a
    /// job hands over to; the tied chat gets the message input focused.
    pub open spec fn set_state_using_switch_spec(self, to: JobSwitchView) -> AppView {
        let a1 = match to {
            JobSwitchView::Chat(c) => AppView {
                max_input_focus: if c.state is Tied {
                    3
                } else {
                    1
                },
                input_focus: if c.state is Tied {
                    2
                } else {
                    1
                },
                state: AppStateView::Chat(c),
                ..self
            },
            JobSwitchView::Auth => {
                let aq = if self.writer_exists {
                    self.sending_queue_add_spec(dropme_frame())
                } else {
                    self
                };
                AppView {
                    max_input_focus: 1,
                    input_focus: 0,
                    state: AppStateView::Auth,
                    ..aq
                }
            },
        };
        AppView { inputs: blank_inputs_spec(), ..a1 }
    }

    /// What `untie` does: enqueue one untie frame and land on a fresh,
    /// unpaired chat, without waiting for the peer.
    pub open spec fn untie_spec(self) -> AppView {
        self.sending_queue_add_spec(untie_frame()).set_state_spec(
            AppStateView::Chat(ChatView::init()),
        )
    }

    /// The chat frame carrying the user's message: flag, sender, separator,
    /// text.
    pub open spec fn message_frame(username: Seq<char>, msg: Seq<char>) -> Seq<char> {
        seq![RXTX_MESSAGE_FLAG] + username + ": "@ + msg
    }

    /// What `send_message` does: take the message input, blank it, and
    /// enqueue the chat frame under the user's display name.
    pub open spec fn send_message_spec(self) -> AppView {
        match self.user_key {
            Some(k) => {
                let msg = self.inputs[2];
                AppView {
                    inputs: self.inputs.update(2, Seq::<char>::empty()),
                    ..self
                }.sending_queue_add_spec(AppView::message_frame(k.username, msg))
            },
            None => self,
        }
    }

    /// What `job_acknowledge` does: on the job screen, Enter either aborts an
    /// in-progress job that recorded a fallback (enqueuing an untie frame) or
    /// moves past a concluded job; each way lands on the recorded switch
    /// state.
    pub open spec fn job_acknowledge_spec(self) -> AppView {
        match self.state {
            AppStateView::Job(j) => match j.state {
                JobStateView::InProgress(Some(sw)) => self.sending_queue_add_spec(
                    untie_frame(),
                ).set_state_using_switch_spec(sw),
                JobStateView::Succeeded(sw) => self.set_state_using_switch_spec(sw),
                JobStateView::Failed(sw) => self.set_state_using_switch_spec(sw),
                JobStateView::InProgress(None) => self,
            },
            _ => self,
        }
    }
}

/// The whole application: the single source of truth every other component
/// reads and mutates through the functions below.
pub struct App {
    pub server: Server,
    pub user_key: Option<UserKey>,
    pub inputs: Vec<String>,
    pub input_focus: u8,
    pub max_input_focus: u8,
    pub state: AppState,
    pub requested_exit: bool,
    /// Which job the UI asked for: 0 none, 1 authorization, 2 pairing.
    pub requested_job: u8,
    pub sending_queue: SendQueue,
    pub writer_exists: bool,
}

impl View for App {
    type V = AppView;

    open spec fn view(&self) -> AppView {
        AppView {
            server: self.server@,
            user_key: match self.user_key {
                Some(k) => Some(k@),
                None => None,
            },
            inputs: self.inputs.deep_view(),
            input_focus: self.input_focus,
            max_input_focus: self.max_input_focus,
            state: self.state@,
            requested_exit: self.requested_exit,
            requested_job: self.requested_job,
            sending_queue: self.sending_queue@,
            writer_exists: self.writer_exists,
        }
    }
}

impl App {
    /// The starting application value: the auth screen, blank everything.
    pub fn initial() -> (a: App)
        ensures
            a@ == AppView::init(),
            a@.wf(),
    {
        let a = App {
            server: Server::default(),
            user_key: None,
            inputs: blank_inputs(),
            input_focus: 0,
            max_input_focus: 1,
            state: AppState::Auth,
            requested_exit: false,
            requested_job: 0,
            sending_queue: SendQueue::new(),
            writer_exists: false,
        };
        proof {
            assert(a@ =~~= AppView::init());
        }
        a
    }

    /// The zero application value, identical to `initial`; kept as the named
    /// placeholder the process holds before anything runs.
    pub fn null() -> (a: App)
        ensures
            a@ == AppView::init(),
            a@.wf(),
    {
        App::initial()
    }

    /// Appends a timestamped line to the active job's log (if the current
    /// state is a job, otherwise does nothing).
    pub fn job_log_add(&mut self, now: &str, msg: &str)
        requires
            old(self)@.wf(),
        ensures
            final(self)@ == old(self)@.job_log_add_spec(now@, msg@),
            final(self)@.wf(),
    {
        match &mut self.state {
            AppState::Job(job) => {
                job.log_add(now, msg);
            },
            _ => {},
        }
        proof {
            assert(self@ =~~= old(self)@.job_log_add_spec(now@, msg@));
        }
    }

    /// Raises the active job's progress (if the current state is an
    /// in-progress job and the value does not move backwards, otherwise does
    /// nothing).
    pub fn job_progress_set(&mut self, progress: u16)
        requires
            old(self)@.wf(),
            progress <= 100,
        ensures
            final(self)@ == old(self)@.job_progress_set_spec(progress),
            final(self)@.wf(),
    {
        match &mut self.state {
            AppState::Job(job) => {
                let in_progress = match &job.state {
                    JobState::InProgress(_) => true,
                    _ => false,
                };
                if in_progress && progress >= job.progress {
                    job.progress = progress;
                }
            },
            _ => {},
        }
        proof {
            assert(self@ =~~= old(self)@.job_progress_set_spec(progress));
        }
    }

    /// Replaces the active job's progress state (if the current state is a
    /// job, or — with `force_err` — by synthesizing the fatal job, otherwise
    /// does nothing).
    pub fn job_state_set(&mut self, job_state: JobState, force_err: bool)
        requires
            old(self)@.wf(),
        ensures
            final(self)@ == old(self)@.job_state_set_spec(job_state@, force_err),
            final(self)@.wf(),
    {
        match &mut self.state {
            AppState::Job(job) => {
                job.state = job_state;
            },
            _ => {
                if force_err {
                    self.state = AppState::Job(Job {
                        title: String::from_str(FATAL_RUNTIME_ERROR),
                        progress: 0,
                        state: job_state,
                        log: Vec::new(),
                        data: Vec::new(),
                    });
                }
            },
        }
        proof {
            assert(self@ =~~= old(self)@.job_state_set_spec(job_state@, force_err));
        }
    }

    /// Appends a frame to the send queue under the window's collapse rule.
    pub fn sending_queue_add(&mut self, msg: String)
        requires
            old(self)@.wf(),
        ensures
            final(self)@ == old(self)@.sending_queue_add_spec(msg@),
            final(self)@.wf(),
    {
        self.sending_queue.enqueue(msg);
        proof {
            assert(self@ =~~= old(self)@.sending_queue_add_spec(msg@));
        }
    }

    /// Puts a timestamped message in front of the active chat's list (if the
    /// current state is a chat, otherwise does nothing).
    pub fn chat_messages_add(&mut self, now: &str, msg: &str)
        requires
            old(self)@.wf(),
        ensures
            final(self)@ == old(self)@.chat_messages_add_spec(now@, msg@),
            final(self)@.wf(),
    {
        match &mut self.state {
            AppState::Chat(chat) => {
                chat.messages_add(now, msg);
            },
            _ => {},
        }
        proof {
            assert(self@ =~~= old(self)@.chat_messages_add_spec(now@, msg@));
        }
    }

    /// Switches to the given screen and resets every transient UI field in
    /// the same step.
    pub fn set_state(&mut self, to: AppState)
        requires
            old(self)@.wf(),
            state_wf(to@),
        ensures
            final(self)@ == old(self)@.set_state_spec(to@),
            final(self)@.wf(),
    {
        match &to {
            AppState::Chat(chat) => {
                let tied = match &chat.state {
                    ChatState::Tied(_) => true,
                    ChatState::Untied => false,
                };
                self.max_input_focus = if tied {
                    3
                } else {
                    1
                };
                self.input_focus = 1;
            },
            AppState::Auth => {
                if self.writer_exists {
                    self.sending_queue.enqueue(dropme_string());
                }
                self.max_input_focus = 1;
                self.input_focus = 0;
            },
            AppState::Job(_) => {
                self.max_input_focus = 1;
                self.input_focus = 0;
            },
        }
        self.inputs = blank_inputs();
        self.state = to;
        proof {
            assert(self@ =~~= old(self)@.set_state_spec(self.state@));
        }
    }

    /// Switches to the screen a job recorded as its follow-up and resets
    /// every transient UI field in the same step.
    pub fn set_state_using_switch(&mut self, to: JobSwitchAppState)
        requires
            old(self)@.wf(),
        ensures
            final(self)@ == old(self)@.set_state_using_switch_spec(to@),
            final(self)@.wf(),
    {
        let ghost to_view = to@;
        match to {
            JobSwitchAppState::Chat(chat) => {
                let tied = match &chat.state {
                    ChatState::Tied(_) => true,
                    ChatState::Untied => false,
                };
                if tied {
                    self.input_focus = 2;
                    self.max_input_focus = 3;
                } else {
                    self.input_focus = 1;
                    self.max_input_focus = 1;
                }
                self.state = AppState::Chat(chat);
            },
            JobSwitchAppState::Auth => {
                if self.writer_exists {
                    self.sending_queue.enqueue(dropme_string());
                }
                self.max_input_focus = 1;
                self.state = AppState::Auth;
                self.input_focus = 0;
            },
        }
        self.inputs = blank_inputs();
        proof {
            assert(self@ =~~= old(self)@.set_state_using_switch_spec(to_view));
        }
    }

    /// The explicit untie action: enqueues one untie frame and lands on a
    /// fresh, unpaired chat at once, without a network round-trip.
    pub fn untie(&mut self)
        requires
            old(self)@.wf(),
        ensures
            final(self)@ == old(self)@.untie_spec(),
            final(self)@.wf(),
    {
        self.sending_queue.enqueue(untie_string());
        self.set_state(AppState::Chat(Chat::default()));
        proof {
            assert(self@ =~~= old(self)@.untie_spec());
        }
    }

    /// The send-message action: takes the message input, blanks it, and
    /// enqueues the chat frame under the user's display name.
    pub fn send_message(&mut self)
        requires
            old(self)@.wf(),
            old(self)@.user_key is Some,
        ensures
            final(self)@ == old(self)@.send_message_spec(),
            final(self)@.wf(),
    {
        let message = self.inputs[2].clone();
        self.inputs.set(2, String::new());
        let username = match &self.user_key {
            Some(k) => k.username.clone(),
            None => unreached(),
        };
        let body = username.concat(": ").concat(message.as_str());
        let frame = encode(RXTX_MESSAGE_FLAG, body.as_str());
        self.sending_queue.enqueue(frame);
        proof {
            assert(self@ =~~= old(self)@.send_message_spec());
        }
    }

    /// The Enter action on the job screen: abort an in-progress job that
    /// recorded a fallback (enqueuing an untie frame), or move past a
    /// concluded job; each way lands on the recorded switch state.
    pub fn job_acknowledge(&mut self)
        requires
            old(self)@.wf(),
        ensures
            final(self)@ == old(self)@.job_acknowledge_spec(),
            final(self)@.wf(),
    {
        let mut st = AppState::Auth;
        core::mem::swap(&mut st, &mut self.state);
        match st {
            AppState::Job(job) => {
                let Job { title, progress, state, log, data } = job;
                match state {
                    JobState::InProgress(Some(sw)) => {
                        self.sending_queue.enqueue(untie_string());
                        self.set_state_using_switch(sw);
                    },
                    JobState::Succeeded(sw) => {
                        self.set_state_using_switch(sw);
                    },
                    JobState::Failed(sw) => {
                        self.set_state_using_switch(sw);
                    },
                    JobState::InProgress(None) => {
                        self.state = AppState::Job(Job {
                            title,
                            progress,
                            state: JobState::InProgress(None),
                            log,
                            data,
                        });
                    },
                }
            },
            other => {
                self.state = other;
            },
        }
        proof {
            assert(self@ =~~= old(self)@.job_acknowledge_spec());
        }
    }
}

} // verus!
