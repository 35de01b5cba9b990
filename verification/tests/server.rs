use s3fs::config::{Config, ConfigFile};
use s3fs::server::{Action, Outcome, Phase, S3Server, Stage, StartupError, Step};
use std::path::PathBuf;

fn default_config() -> Config {
    Config {
        config_file: None,
        host: "127.0.0.1".to_string(),
        port: 9001,
        root: PathBuf::from("./s3-data"),
        access_key: "admin".to_string(),
        secret_key: "admin".to_string(),
    }
}

fn server() -> S3Server {
    S3Server::new(default_config())
}

fn failure(detail: &str) -> Outcome {
    Outcome::Failure(detail.to_string())
}

fn failed(stage: Stage, detail: &str) -> Step {
    Step {
        phase: Phase::Failed(StartupError { stage, detail: detail.to_string() }),
        action: Action::Abort,
    }
}

/// Every step the server takes when its actions go as `outcomes` say, the
/// first step included.
fn run(outcomes: Vec<Outcome>) -> Vec<Step> {
    let server = server();
    let mut steps = vec![server.start()];
    for outcome in outcomes {
        let phase = steps[steps.len() - 1].phase.clone();
        steps.push(server.advance(phase, outcome));
    }
    steps
}

fn successes(count: usize) -> Vec<Outcome> {
    vec![Outcome::Success; count]
}

const STAGES: [(Stage, Action); 6] = [
    (Stage::RootDirectory, Action::CreateRoot),
    (Stage::Backend, Action::BuildBackend),
    (Stage::Authentication, Action::BuildAuth),
    (Stage::Service, Action::ComposeService),
    (Stage::Address, Action::ResolveAddress),
    (Stage::Listener, Action::Bind),
];

#[test]
fn new_keeps_the_settings() {
    let server = S3Server::new(default_config());
    assert_eq!(server.config(), &default_config());
}

#[test]
fn start_asks_for_the_root_directory() {
    assert_eq!(
        server().start(),
        Step { phase: Phase::Starting(Stage::RootDirectory), action: Action::CreateRoot }
    );
}

#[test]
fn start_can_be_asked_again() {
    let server = server();
    assert_eq!(server.start(), server.start());
}

#[test]
fn startup_takes_its_stages_in_order() {
    let steps = run(successes(6));
    assert_eq!(steps.len(), 7);
    for (index, (stage, action)) in STAGES.iter().enumerate() {
        assert_eq!(steps[index], Step { phase: Phase::Starting(*stage), action: *action });
    }
    assert_eq!(steps[6], Step { phase: Phase::Serving, action: Action::Accept });
}

#[test]
fn each_stage_is_fatal_when_it_fails() {
    for (index, (stage, _)) in STAGES.iter().enumerate() {
        let mut outcomes = successes(index);
        outcomes.push(failure("it broke"));
        let steps = run(outcomes);
        assert_eq!(steps[index].phase, Phase::Starting(*stage));
        assert_eq!(steps[index + 1], failed(*stage, "it broke"));
    }
}

#[test]
fn failed_server_stays_failed() {
    let server = server();
    let phase = Phase::Failed(StartupError {
        stage: Stage::Listener,
        detail: "Address already in use".to_string(),
    });
    assert_eq!(
        server.advance(phase.clone(), Outcome::Success),
        failed(Stage::Listener, "Address already in use")
    );
    assert_eq!(
        server.advance(phase, failure("something else")),
        failed(Stage::Listener, "Address already in use")
    );
}

#[test]
fn root_directory_that_cannot_be_created_is_fatal() {
    let mut outcomes = vec![failure("Read-only file system (os error 30)")];
    outcomes.extend(successes(10));
    let steps = run(outcomes);
    assert_eq!(steps[0].action, Action::CreateRoot);
    for step in &steps[1..] {
        assert_eq!(step, &failed(Stage::RootDirectory, "Read-only file system (os error 30)"));
    }
    for step in &steps {
        assert_ne!(step.action, Action::Bind);
        assert_ne!(step.action, Action::Accept);
        assert_ne!(step.action, Action::Dispatch);
    }
}

#[test]
fn address_that_does_not_parse_binds_nothing() {
    let mut outcomes = successes(4);
    outcomes.push(failure("invalid socket address syntax"));
    outcomes.extend(vec![Outcome::Success, failure("x"), Outcome::Success]);
    let steps = run(outcomes);
    assert_eq!(steps[4], Step { phase: Phase::Starting(Stage::Address), action: Action::ResolveAddress });
    assert_eq!(steps[5], failed(Stage::Address, "invalid socket address syntax"));
    assert_eq!(steps[8], failed(Stage::Address, "invalid socket address syntax"));
    for step in &steps {
        assert_ne!(step.action, Action::Bind);
        assert_ne!(step.action, Action::Accept);
        assert_ne!(step.action, Action::Dispatch);
    }
}

#[test]
fn bind_failure_accepts_nothing() {
    let mut outcomes = successes(5);
    outcomes.push(failure("Address already in use (os error 98)"));
    outcomes.extend(successes(3));
    let steps = run(outcomes);
    assert_eq!(steps[5].action, Action::Bind);
    for step in &steps[6..] {
        assert_eq!(step, &failed(Stage::Listener, "Address already in use (os error 98)"));
    }
    for step in &steps {
        assert_ne!(step.action, Action::Accept);
        assert_ne!(step.action, Action::Dispatch);
    }
}

#[test]
fn accepted_connection_is_dispatched() {
    assert_eq!(
        server().advance(Phase::Serving, Outcome::Success),
        Step { phase: Phase::Serving, action: Action::Dispatch }
    );
}

#[test]
fn failed_accept_is_followed_by_another_accept() {
    assert_eq!(
        server().advance(Phase::Serving, failure("Too many open files (os error 24)")),
        Step { phase: Phase::Serving, action: Action::Accept }
    );
}

#[test]
fn accept_loop_survives_a_failed_accept() {
    let mut outcomes = successes(6);
    outcomes.push(Outcome::Success);
    outcomes.push(failure("Connection aborted"));
    outcomes.push(Outcome::Success);
    let steps = run(outcomes);
    assert_eq!(steps[6], Step { phase: Phase::Serving, action: Action::Accept });
    assert_eq!(steps[7], Step { phase: Phase::Serving, action: Action::Dispatch });
    assert_eq!(steps[8], Step { phase: Phase::Serving, action: Action::Accept });
    assert_eq!(steps[9], Step { phase: Phase::Serving, action: Action::Dispatch });
}

#[test]
fn accept_loop_survives_any_number_of_failed_accepts() {
    let mut outcomes = successes(6);
    for _ in 0..1000 {
        outcomes.push(failure("Too many open files"));
    }
    outcomes.push(Outcome::Success);
    let steps = run(outcomes);
    for step in &steps[7..1007] {
        assert_eq!(step, &Step { phase: Phase::Serving, action: Action::Accept });
    }
    assert_eq!(steps[1007], Step { phase: Phase::Serving, action: Action::Dispatch });
}

#[test]
fn defaults_come_up_and_serve_the_first_connection() {
    let server = server();
    assert_eq!(server.config().socket_addr(), "127.0.0.1:9001");
    assert_eq!(server.config().root, PathBuf::from("./s3-data"));
    let auth = server.auth();
    assert_eq!(auth.lookup("admin").map(|secret| secret.expose()), Some("admin"));

    let mut step = server.start();
    let mut asked = vec![step.action];
    for _ in 0..7 {
        step = server.advance(step.phase, Outcome::Success);
        asked.push(step.action);
    }
    assert_eq!(
        asked,
        vec![
            Action::CreateRoot,
            Action::BuildBackend,
            Action::BuildAuth,
            Action::ComposeService,
            Action::ResolveAddress,
            Action::Bind,
            Action::Accept,
            Action::Dispatch,
        ]
    );
    assert_eq!(step.phase, Phase::Serving);
}

#[test]
fn server_binds_where_the_file_says() {
    let cli = Config { config_file: Some(PathBuf::from("s3fs.json")), ..default_config() };
    let file =
        ConfigFile { host: None, port: Some(9100), root: None, access_key: None, secret_key: None };
    let server = S3Server::new(Config::load(cli, Some(Ok(file))).unwrap());
    assert_eq!(server.config().port, 9100);
    assert_eq!(server.config().socket_addr(), "127.0.0.1:9100");
}

#[test]
fn backend_failure_is_reported_as_such() {
    let error = StartupError { stage: Stage::Backend, detail: "Error { source: Os { code: 2 } }".to_string() };
    assert_eq!(error.message(), "Failed to create filesystem: Error { source: Os { code: 2 } }");
}

#[test]
fn backend_failure_without_detail() {
    let error = StartupError { stage: Stage::Backend, detail: String::new() };
    assert_eq!(error.message(), "Failed to create filesystem: ");
}

#[test]
fn other_failures_are_reported_in_their_own_words() {
    for stage in [
        Stage::RootDirectory,
        Stage::Authentication,
        Stage::Service,
        Stage::Address,
        Stage::Listener,
    ] {
        let error = StartupError { stage, detail: "Permission denied (os error 13)".to_string() };
        assert_eq!(error.message(), "Permission denied (os error 13)");
    }
}

#[test]
fn failure_of_a_run_carries_its_message() {
    let steps = run(vec![Outcome::Success, failure("NotADirectory")]);
    match &steps[2].phase {
        Phase::Failed(error) => {
            assert_eq!(error.stage, Stage::Backend);
            assert_eq!(error.message(), "Failed to create filesystem: NotADirectory");
        }
        other => panic!("start-up went on: {:?}", other),
    }
}
