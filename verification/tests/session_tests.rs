use husky::session::{App, AppState};
use husky::state::{Chat, ChatState, Job, JobState, JobSwitchAppState, UserKey};

fn tied_chat(peer: &str) -> Chat {
    Chat {
        state: ChatState::Tied(peer.to_string()),
        messages: Vec::new(),
        typing_state_iteration: 0,
    }
}

#[test]
fn initial_app_shows_auth_screen() {
    let app = App::initial();
    assert!(matches!(app.state, AppState::Auth));
    assert_eq!(app.input_focus, 0);
    assert_eq!(app.max_input_focus, 1);
    assert_eq!(app.inputs, vec!["".to_string(), "".to_string(), "".to_string()]);
    assert!(app.user_key.is_none());
    assert!(!app.requested_exit);
    assert_eq!(app.requested_job, 0);
    assert!(!app.writer_exists);
    assert_eq!(app.sending_queue.len(), 0);
    assert_eq!(app.server.key, "");
}

#[test]
fn null_app_equals_initial() {
    let a = App::null();
    let b = App::initial();
    assert!(matches!(a.state, AppState::Auth));
    assert_eq!(a.inputs, b.inputs);
    assert_eq!(a.input_focus, b.input_focus);
    assert_eq!(a.server.name, b.server.name);
}

#[test]
fn user_key_derives_display_name() {
    let k = UserKey::default("alice:xyz".to_string());
    assert_eq!(k.full, "alice:xyz");
    assert_eq!(k.username, "alice");
    let plain = UserKey::default("nodelimiter".to_string());
    assert_eq!(plain.username, "nodelimiter");
}

#[test]
fn job_default_is_fresh() {
    let j = Job::default("Authorizing...".to_string());
    assert_eq!(j.title, "Authorizing...");
    assert_eq!(j.progress, 0);
    assert!(matches!(j.state, JobState::InProgress(None)));
    assert!(j.log.is_empty());
    assert!(j.data.is_empty());
}

#[test]
fn chat_constructors() {
    let c = Chat::default();
    assert!(matches!(c.state, ChatState::Untied));
    assert!(c.messages.is_empty());
    let t = Chat::with_subject("bob".to_string());
    match &t.state {
        ChatState::Tied(peer) => assert_eq!(peer, "bob"),
        _ => panic!("expected a tied chat"),
    }
}

#[test]
fn chat_messages_add_puts_newest_first() {
    let mut c = Chat::default();
    c.messages_add("10:00", "bob: first");
    c.messages_add("10:01", "bob: second");
    assert_eq!(c.messages, vec!["(10:01) bob: second".to_string(), "(10:00) bob: first".to_string()]);
}

#[test]
fn job_log_add_appends_stamped_lines() {
    let mut app = App::initial();
    app.set_state(AppState::Job(Job::default("Authorizing...".to_string())));
    app.job_log_add("12:00:00", "Starting...");
    app.job_log_add("12:00:01", "Reaching server...");
    match &app.state {
        AppState::Job(job) => {
            assert_eq!(
                job.log,
                vec![
                    "(12:00:00) Starting...".to_string(),
                    "(12:00:01) Reaching server...".to_string()
                ]
            );
        },
        _ => panic!("expected a job"),
    }
}

#[test]
fn job_log_add_without_job_is_noop() {
    let mut app = App::initial();
    app.job_log_add("12:00:00", "nothing");
    assert!(matches!(app.state, AppState::Auth));
}

#[test]
fn job_progress_moves_only_forward_while_in_progress() {
    let mut app = App::initial();
    app.set_state(AppState::Job(Job::default("Authorizing...".to_string())));
    app.job_progress_set(25);
    match &app.state {
        AppState::Job(job) => assert_eq!(job.progress, 25),
        _ => panic!("expected a job"),
    }
    // A smaller value does not move it backwards.
    app.job_progress_set(10);
    match &app.state {
        AppState::Job(job) => assert_eq!(job.progress, 25),
        _ => panic!("expected a job"),
    }
    // Once the job concludes, progress is frozen.
    app.job_state_set(JobState::Failed(JobSwitchAppState::Auth), false);
    app.job_progress_set(90);
    match &app.state {
        AppState::Job(job) => assert_eq!(job.progress, 25),
        _ => panic!("expected a job"),
    }
}

#[test]
fn job_state_set_replaces_outcome() {
    let mut app = App::initial();
    app.set_state(AppState::Job(Job::default("Tying...".to_string())));
    app.job_state_set(JobState::Succeeded(JobSwitchAppState::Auth), false);
    match &app.state {
        AppState::Job(job) => assert!(matches!(job.state, JobState::Succeeded(JobSwitchAppState::Auth))),
        _ => panic!("expected a job"),
    }
}

#[test]
fn job_state_set_force_synthesizes_fatal_job() {
    let mut app = App::initial();
    assert!(matches!(app.state, AppState::Auth));
    app.job_state_set(JobState::Failed(JobSwitchAppState::Auth), true);
    match &app.state {
        AppState::Job(job) => {
            assert_eq!(job.title, "WARNING: FATAL");
            assert_eq!(job.progress, 0);
            assert!(matches!(job.state, JobState::Failed(JobSwitchAppState::Auth)));
        },
        _ => panic!("expected the fatal job"),
    }
}

#[test]
fn job_state_set_without_force_is_noop_outside_job() {
    let mut app = App::initial();
    app.job_state_set(JobState::Failed(JobSwitchAppState::Auth), false);
    assert!(matches!(app.state, AppState::Auth));
}

#[test]
fn set_state_resets_inputs_and_focus() {
    let mut app = App::initial();
    app.inputs[0] = "typed".to_string();
    app.set_state(AppState::Chat(tied_chat("bob")));
    assert_eq!(app.inputs, vec!["".to_string(), "".to_string(), "".to_string()]);
    assert_eq!(app.input_focus, 1);
    assert_eq!(app.max_input_focus, 3);
    app.set_state(AppState::Chat(Chat::default()));
    assert_eq!(app.max_input_focus, 1);
}

#[test]
fn logout_with_running_writer_enqueues_sentinel() {
    let mut app = App::initial();
    app.state = AppState::Chat(Chat::default());
    app.writer_exists = true;
    app.set_state(AppState::Auth);
    assert!(matches!(app.state, AppState::Auth));
    assert_eq!(app.sending_queue.drain_window(), vec!["X".to_string()]);
}

#[test]
fn logout_without_writer_enqueues_nothing() {
    let mut app = App::initial();
    app.state = AppState::Chat(Chat::default());
    app.set_state(AppState::Auth);
    assert_eq!(app.sending_queue.len(), 0);
}

#[test]
fn untie_enqueues_one_frame_and_unpairs_synchronously() {
    let mut app = App::initial();
    app.user_key = Some(UserKey::default("alice:xyz".to_string()));
    app.set_state(AppState::Chat(tied_chat("bob")));
    app.untie();
    match &app.state {
        AppState::Chat(chat) => assert!(matches!(chat.state, ChatState::Untied)),
        _ => panic!("expected a chat"),
    }
    let pending = app.sending_queue.drain_window();
    assert_eq!(pending, vec!["C".to_string()]);
    assert_eq!(app.sending_queue.len(), 1);
}

#[test]
fn send_message_enqueues_under_display_name() {
    let mut app = App::initial();
    app.user_key = Some(UserKey::default("alice:xyz".to_string()));
    app.set_state(AppState::Chat(tied_chat("bob")));
    app.inputs[2] = "hello there".to_string();
    app.send_message();
    assert_eq!(app.inputs[2], "");
    assert_eq!(app.sending_queue.drain_window(), vec!["Balice: hello there".to_string()]);
}

#[test]
fn job_acknowledge_moves_past_succeeded_job() {
    let mut app = App::initial();
    let mut job = Job::default("Tying...".to_string());
    job.state = JobState::Succeeded(JobSwitchAppState::Chat(tied_chat("bob")));
    app.set_state(AppState::Job(job));
    app.job_acknowledge();
    match &app.state {
        AppState::Chat(chat) => match &chat.state {
            ChatState::Tied(peer) => assert_eq!(peer, "bob"),
            _ => panic!("expected a tied chat"),
        },
        _ => panic!("expected a chat"),
    }
    assert_eq!(app.input_focus, 2);
    assert_eq!(app.max_input_focus, 3);
}

#[test]
fn job_acknowledge_moves_past_failed_job() {
    let mut app = App::initial();
    let mut job = Job::default("Authorizing...".to_string());
    job.state = JobState::Failed(JobSwitchAppState::Auth);
    app.set_state(AppState::Job(job));
    app.job_acknowledge();
    assert!(matches!(app.state, AppState::Auth));
    assert_eq!(app.input_focus, 0);
    assert_eq!(app.max_input_focus, 1);
}

#[test]
fn job_acknowledge_aborts_job_with_fallback() {
    let mut app = App::initial();
    let mut job = Job::default("Tying...".to_string());
    job.state = JobState::InProgress(Some(JobSwitchAppState::Chat(Chat::default())));
    app.set_state(AppState::Job(job));
    app.job_acknowledge();
    match &app.state {
        AppState::Chat(chat) => assert!(matches!(chat.state, ChatState::Untied)),
        _ => panic!("expected a chat"),
    }
    assert_eq!(app.sending_queue.drain_window(), vec!["C".to_string()]);
}

#[test]
fn job_acknowledge_ignores_job_without_fallback() {
    let mut app = App::initial();
    app.set_state(AppState::Job(Job::default("Authorizing...".to_string())));
    app.job_acknowledge();
    match &app.state {
        AppState::Job(job) => assert_eq!(job.title, "Authorizing..."),
        _ => panic!("expected the job to stay"),
    }
    assert_eq!(app.sending_queue.len(), 0);
}
