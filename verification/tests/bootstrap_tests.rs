use husky::bootstrap::{
    outbound_fault, preflight_done, preflight_url, socket_failed, socket_opened, socket_url,
    start_auth_job, start_tie_job, tie_job_send, PreflightOutcome,
};
use husky::secure::{decode_config_value, Server};
use husky::session::{App, AppState};
use husky::state::{Chat, ChatState, JobState, JobSwitchAppState};

const HMS: &str = "12:00:00";

fn configured_app() -> App {
    let mut app = App::initial();
    app.server = Server {
        key: "s3cr3t".to_string(),
        root_url: "example.test".to_string(),
        port: "9001".to_string(),
        name: "testnet".to_string(),
    };
    app
}

#[test]
fn auth_flow_reaches_one_pending_auth_frame() {
    // Submit a credential, pass the preflight, open the socket: an active
    // authorizing job at progress 90 with exactly one pending frame.
    let mut app = configured_app();
    app.inputs[0] = "alice:xyz".to_string();
    start_auth_job(&mut app, HMS);
    match &app.state {
        AppState::Job(job) => {
            assert_eq!(job.title, "Authorizing...");
            assert!(matches!(job.state, JobState::InProgress(None)));
        },
        _ => panic!("expected the authorizing job"),
    }
    let key = app.user_key.as_ref().unwrap();
    assert_eq!(key.full, "alice:xyz");
    assert_eq!(key.username, "alice");

    let proceed = preflight_done(&mut app, PreflightOutcome::Body("Ok".to_string()), HMS);
    assert!(proceed);
    socket_opened(&mut app, HMS);
    match &app.state {
        AppState::Job(job) => {
            assert_eq!(job.title, "Authorizing...");
            assert_eq!(job.progress, 90);
            assert!(matches!(job.state, JobState::InProgress(None)));
        },
        _ => panic!("expected the authorizing job"),
    }
    let pending = app.sending_queue.drain_window();
    assert_eq!(pending, vec!["As3cr3t/alice:xyz".to_string()]);
}

#[test]
fn preflight_busy_body_fails_without_any_frame() {
    let mut app = configured_app();
    app.inputs[0] = "alice:xyz".to_string();
    start_auth_job(&mut app, HMS);
    let proceed = preflight_done(&mut app, PreflightOutcome::Body("Busy".to_string()), HMS);
    assert!(!proceed);
    match &app.state {
        AppState::Job(job) => {
            assert!(matches!(job.state, JobState::Failed(JobSwitchAppState::Auth)));
            assert_eq!(
                job.log.last().unwrap(),
                "(12:00:00) FAULT: Connection not approved. Try again later"
            );
        },
        _ => panic!("expected the failed job"),
    }
    assert_eq!(app.sending_queue.len(), 0);
}

#[test]
fn preflight_unreachable_fails_job() {
    let mut app = configured_app();
    start_auth_job(&mut app, HMS);
    let proceed = preflight_done(&mut app, PreflightOutcome::Unreachable, HMS);
    assert!(!proceed);
    match &app.state {
        AppState::Job(job) => {
            assert_eq!(job.progress, 25);
            assert!(matches!(job.state, JobState::Failed(JobSwitchAppState::Auth)));
            assert_eq!(job.log.last().unwrap(), "(12:00:00) FAULT: Unable to get response from server");
        },
        _ => panic!("expected the failed job"),
    }
}

#[test]
fn preflight_unparseable_fails_job() {
    let mut app = configured_app();
    start_auth_job(&mut app, HMS);
    let proceed = preflight_done(&mut app, PreflightOutcome::Unparseable, HMS);
    assert!(!proceed);
    match &app.state {
        AppState::Job(job) => {
            assert!(matches!(job.state, JobState::Failed(JobSwitchAppState::Auth)));
            assert_eq!(job.log.last().unwrap(), "(12:00:00) FAULT: Unable to parse server response");
        },
        _ => panic!("expected the failed job"),
    }
}

#[test]
fn socket_failure_fails_job() {
    let mut app = configured_app();
    start_auth_job(&mut app, HMS);
    let proceed = preflight_done(&mut app, PreflightOutcome::Body("Ok".to_string()), HMS);
    assert!(proceed);
    socket_failed(&mut app, HMS);
    match &app.state {
        AppState::Job(job) => {
            assert_eq!(job.progress, 70);
            assert!(matches!(job.state, JobState::Failed(JobSwitchAppState::Auth)));
            assert_eq!(job.log.last().unwrap(), "(12:00:00) FAULT: Unable to communicate with socket");
        },
        _ => panic!("expected the failed job"),
    }
    assert_eq!(app.sending_queue.len(), 0);
}

#[test]
fn tie_job_from_paired_chat_unties_first() {
    let mut app = configured_app();
    app.set_state(AppState::Chat(Chat::with_subject("old".to_string())));
    app.inputs[0] = "bob".to_string();
    let untie_required = start_tie_job(&mut app, HMS);
    assert!(untie_required);
    match &app.state {
        AppState::Job(job) => {
            assert_eq!(job.title, "Tying...");
            assert_eq!(job.data, vec!["bob".to_string()]);
            assert!(matches!(job.state, JobState::InProgress(Some(JobSwitchAppState::Chat(_)))));
            assert_eq!(job.log.last().unwrap(), "(12:00:00) Breaking existing tie...");
        },
        _ => panic!("expected the tying job"),
    }
    assert_eq!(app.sending_queue.drain_window(), vec!["C".to_string()]);

    tie_job_send(&mut app, HMS);
    assert_eq!(
        app.sending_queue.drain_window(),
        vec!["C".to_string(), "Tbob".to_string()]
    );
    match &app.state {
        AppState::Job(job) => {
            assert_eq!(job.log.last().unwrap(), "(12:00:00) Tying with bob...");
        },
        _ => panic!("expected the tying job"),
    }
}

#[test]
fn tie_job_from_unpaired_chat_skips_untie() {
    let mut app = configured_app();
    app.set_state(AppState::Chat(Chat::default()));
    app.inputs[0] = "bob".to_string();
    let untie_required = start_tie_job(&mut app, HMS);
    assert!(!untie_required);
    assert_eq!(app.sending_queue.len(), 0);
    tie_job_send(&mut app, HMS);
    assert_eq!(app.sending_queue.drain_window(), vec!["Tbob".to_string()]);
}

#[test]
fn tie_send_without_tie_job_is_noop() {
    let mut app = configured_app();
    tie_job_send(&mut app, HMS);
    assert_eq!(app.sending_queue.len(), 0);
    assert!(matches!(app.state, AppState::Auth));
}

#[test]
fn outbound_fault_fails_active_job() {
    let mut app = configured_app();
    start_auth_job(&mut app, HMS);
    outbound_fault(&mut app, HMS);
    match &app.state {
        AppState::Job(job) => {
            assert!(matches!(job.state, JobState::Failed(JobSwitchAppState::Auth)));
            assert_eq!(job.log.last().unwrap(), "(12:00:00) FAULT: Unable to communicate with socket");
        },
        _ => panic!("expected the failed job"),
    }
}

#[test]
fn urls_are_built_from_the_configuration() {
    let app = configured_app();
    assert_eq!(preflight_url(&app), "http://example.test/preconnect.php");
    assert_eq!(socket_url(&app), "ws://example.test:9001");
}

#[test]
fn config_value_decodes_base64_utf8() {
    assert_eq!(decode_config_value("aGVsbG8="), Some("hello".to_string()));
    assert_eq!(decode_config_value(""), Some("".to_string()));
    // Not base64 at all.
    assert_eq!(decode_config_value("%%%"), None);
    // Valid base64, but the bytes are not UTF-8.
    assert_eq!(decode_config_value("/w=="), None);
}

#[test]
fn server_from_encoded_decodes_all_four() {
    let srv = Server::from_encoded("czNjcjN0", "ZXhhbXBsZS50ZXN0", "OTAwMQ==", "dGVzdG5ldA==")
        .unwrap();
    assert_eq!(srv.key, "s3cr3t");
    assert_eq!(srv.root_url, "example.test");
    assert_eq!(srv.port, "9001");
    assert_eq!(srv.name, "testnet");
}

#[test]
fn server_from_encoded_rejects_bad_value() {
    assert!(Server::from_encoded("czNjcjN0", "!!!", "OTAwMQ==", "dGVzdG5ldA==").is_none());
}
