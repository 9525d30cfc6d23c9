//! The data model of the client: the chat screen with its pairing state, the
//! job screen for long-running operations, and the user's credential. Each
//! executable type carries a mathematical view over which every contract
//! speaks.

use vstd::prelude::*;
use crate::text::prefix_before;
use crate::text::stamp;
use crate::text::stamped;
use crate::text::take_until;

verus! {

/// Whether the chat screen is paired ("tied") with a peer.
#[verifier::ext_equal]
pub enum ChatStateView {
    Untied,
    Tied(Seq<char>),
}

/// The mathematical value of a chat screen.
#[verifier::ext_equal]
pub struct ChatView {
    pub state: ChatStateView,
    pub messages: Seq<Seq<char>>,
    pub typing_state_iteration: u8,
}

impl ChatView {
    /// A fresh, unpaired chat with no messages.
    pub open spec fn init() -> ChatView {
        ChatView { state: ChatStateView::Untied, messages: Seq::empty(), typing_state_iteration: 0 }
    }

    /// A fresh chat paired with the given peer.
    pub open spec fn with_subject_spec(subject: Seq<char>) -> ChatView {
        ChatView {
            state: ChatStateView::Tied(subject),
            messages: Seq::empty(),
            typing_state_iteration: 0,
        }
    }

    /// What `messages_add` does: the timestamped line goes in front, so the
    /// newest message stands first.
    pub open spec fn messages_add_spec(self, now: Seq<char>, msg: Seq<char>) -> ChatView {
        ChatView { messages: self.messages.insert(0, stamped(now, msg)), ..self }
    }
}

/// Pairing state of the chat screen.
pub enum ChatState {
    Untied,
    Tied(String),
}

impl View for ChatState {
    type V = ChatStateView;

    open spec fn view(&self) -> ChatStateView {
        match self {
            ChatState::Untied => ChatStateView::Untied,
            ChatState::Tied(subject) => ChatStateView::Tied(subject@),
        }
    }
}

/// The chat screen: pairing state and the messages shown, most recent first.
pub struct Chat {
    pub state: ChatState,
    pub messages: Vec<String>,
    pub typing_state_iteration: u8,
}

impl View for Chat {
    type V = ChatView;

    open spec fn view(&self) -> ChatView {
        ChatView {
            state: self.state@,
            messages: self.messages.deep_view(),
            typing_state_iteration: self.typing_state_iteration,
        }
    }
}

impl Default for Chat {
    /// A fresh, unpaired chat.
    fn default() -> (c: Chat)
        ensures
            c@ == ChatView::init(),
    {
        let c = Chat { state: ChatState::Untied, messages: Vec::new(), typing_state_iteration: 0 };
        proof {
            assert(c@ =~~= ChatView::init());
        }
        c
    }
}

impl Chat {
    /// A fresh chat paired with the given peer.
    pub fn with_subject(with_subject: String) -> (c: Chat)
        ensures
            c@ == ChatView::with_subject_spec(with_subject@),
    {
        let c = Chat {
            state: ChatState::Tied(with_subject),
            messages: Vec::new(),
            typing_state_iteration: 0,
        };
        proof {
            assert(c@ =~~= ChatView::with_subject_spec(with_subject@));
        }
        c
    }

    /// Puts the timestamped message in front of the list.
    pub fn messages_add(&mut self, now: &str, msg: &str)
        ensures
            final(self)@ == old(self)@.messages_add_spec(now@, msg@),
    {
        let line = stamp(now, msg);
        self.messages.insert(0, line);
        proof {
            assert(self@ =~~= old(self)@.messages_add_spec(now@, msg@));
        }
    }
}

/// Where a concluded or abortable job hands the application next: back to the
/// auth screen or onto a chat screen. (A job never hands over to another
/// job, which keeps the type finite.)
#[verifier::ext_equal]
pub enum JobSwitchView {
    Auth,
    Chat(ChatView),
}

/// Progress state of a job, each terminal outcome carrying the state to
/// switch to on acknowledgment.
#[verifier::ext_equal]
pub enum JobStateView {
    InProgress(Option<JobSwitchView>),
    Succeeded(JobSwitchView),
    Failed(JobSwitchView),
}

/// The mathematical value of a job screen.
#[verifier::ext_equal]
pub struct JobView {
    pub title: Seq<char>,
    pub progress: u16,
    pub state: JobStateView,
    pub log: Seq<Seq<char>>,
    pub data: Seq<Seq<char>>,
}

impl JobView {
    /// A fresh job with the given title: in progress, no log, no data.
    pub open spec fn fresh(title: Seq<char>) -> JobView {
        JobView {
            title,
            progress: 0,
            state: JobStateView::InProgress(None),
            log: Seq::empty(),
            data: Seq::empty(),
        }
    }

    /// What `log_add` does: append the timestamped line.
    pub open spec fn log_add_spec(self, now: Seq<char>, msg: Seq<char>) -> JobView {
        JobView { log: self.log.push(stamped(now, msg)), ..self }
    }
}

/// The application state a job hands over to when it concludes or aborts.
pub enum JobSwitchAppState {
    Auth,
    Chat(Chat),
}

impl View for JobSwitchAppState {
    type V = JobSwitchView;

    open spec fn view(&self) -> JobSwitchView {
        match self {
            JobSwitchAppState::Auth => JobSwitchView::Auth,
            JobSwitchAppState::Chat(chat) => JobSwitchView::Chat(chat@),
        }
    }
}

/// Progress state of a job.
pub enum JobState {
    InProgress(Option<JobSwitchAppState>),
    Succeeded(JobSwitchAppState),
    Failed(JobSwitchAppState),
}

impl View for JobState {
    type V = JobStateView;

    open spec fn view(&self) -> JobStateView {
        match self {
            JobState::InProgress(switch) => JobStateView::InProgress(
                match switch {
                    Some(sw) => Some(sw@),
                    None => None,
                },
            ),
            JobState::Succeeded(switch) => JobStateView::Succeeded(switch@),
            JobState::Failed(switch) => JobStateView::Failed(switch@),
        }
    }
}

/// The job screen: a long-running operation with its progress, outcome, log
/// and operation-specific context data.
pub struct Job {
    pub title: String,
    pub progress: u16,
    pub state: JobState,
    pub log: Vec<String>,
    pub data: Vec<String>,
}

impl View for Job {
    type V = JobView;

    open spec fn view(&self) -> JobView {
        JobView {
            title: self.title@,
            progress: self.progress,
            state: self.state@,
            log: self.log.deep_view(),
            data: self.data.deep_view(),
        }
    }
}

impl Job {
    /// A fresh job with the given title.
    pub fn default(with_title: String) -> (j: Job)
        ensures
            j@ == JobView::fresh(with_title@),
    {
        let j = Job {
            title: with_title,
            progress: 0,
            state: JobState::InProgress(None),
            log: Vec::new(),
            data: Vec::new(),
        };
        proof {
            assert(j@ =~~= JobView::fresh(j.title@));
        }
        j
    }

    /// Appends the timestamped line to the job's log.
    pub fn log_add(&mut self, now: &str, msg: &str)
        ensures
            final(self)@ == old(self)@.log_add_spec(now@, msg@),
    {
        let line = stamp(now, msg);
        self.log.push(line);
        proof {
            assert(self@ =~~= old(self)@.log_add_spec(now@, msg@));
        }
    }
}

/// The mathematical value of a user's credential: the full key and the
/// display name derived from it.
#[verifier::ext_equal]
pub struct UserKeyView {
    pub full: Seq<char>,
    pub username: Seq<char>,
}

/// The user's credential; the display name is everything before the first
/// colon.
pub struct UserKey {
    pub full: String,
    pub username: String,
}

impl View for UserKey {
    type V = UserKeyView;

    open spec fn view(&self) -> UserKeyView {
        UserKeyView { full: self.full@, username: self.username@ }
    }
}

impl UserKey {
    /// Derives the credential pair from the full key.
    pub fn default(with_full: String) -> (k: UserKey)
        ensures
            k@.full == with_full@,
            k@.username == prefix_before(with_full@, ':'),
    {
        let username = take_until(with_full.as_str(), ':');
        UserKey { full: with_full, username }
    }
}

} // verus!
