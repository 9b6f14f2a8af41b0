use std::sync::Arc;

use harper_desktop::config::{
    startup_config, Config, Setting, SettingsAction, SettingsEvent,
};
use harper_desktop::config_fetch::{ConfigFetch, FetchReply, FetchRequest};
use harper_desktop::rules::{lint_group, RegisteredLinter, WeirRule};
use harper_desktop::service::{
    HighlighterService, HighlighterWorker, ServiceNext, Shutdown, ShutdownStep,
};
use harper_desktop::session::{lint_text, HighlighterSession, LintTextAction, LintTextEvent};
use harper_desktop::worker::{
    finish_spawn, run_server_until_shutdown, silent_exit_message, ServerEvent, ServerFlow,
    SpawnError, SpawnOutcome, WorkerAction, WorkerStage, WorkerThread,
};

type Service = HighlighterService<&'static str, u8, u32>;

fn worker(id: u32) -> HighlighterWorker<u8, u32> {
    HighlighterWorker::new(1, id)
}

fn started(id: u32) -> Service {
    let mut service = Service::new(Arc::new("config"));
    let step = service.start(false);
    assert!(step.retired.is_none());
    assert_eq!(step.next, ServiceNext::Spawn(Arc::new("config")));
    assert_eq!(service.finish_start::<String>(Ok(worker(id))), Ok(true));
    service
}

fn retired(step: &harper_desktop::service::ServiceStep<&'static str, u8, u32>) -> Option<u32> {
    step.retired.as_ref().and_then(|worker| worker.thread)
}

#[test]
fn a_new_service_is_not_running() {
    let mut service = Service::new(Arc::new("config"));
    assert_eq!(*service.config, "config");
    for finished in [false, true] {
        let step = service.is_running(finished);
        assert!(step.retired.is_none());
        assert_eq!(step.next, ServiceNext::Answer(false));
    }
}

#[test]
fn starting_twice_spawns_once() {
    let mut service = started(7);
    let step = service.start(false);
    assert!(step.retired.is_none());
    assert_eq!(step.next, ServiceNext::Answer(true));
    assert_eq!(service.worker.unwrap().thread, Some(7));
}

#[test]
fn a_finished_worker_is_replaced() {
    let mut service = started(7);
    let step = service.start(true);
    assert_eq!(retired(&step), Some(7));
    assert_eq!(step.next, ServiceNext::Spawn(Arc::new("config")));
    assert_eq!(service.finish_start::<String>(Ok(worker(8))), Ok(true));
    assert_eq!(service.is_running(false).next, ServiceNext::Answer(true));
}

#[test]
fn a_finished_worker_does_not_count() {
    let mut service = started(7);
    let step = service.is_running(true);
    assert_eq!(retired(&step), Some(7));
    assert_eq!(step.next, ServiceNext::Answer(false));
    assert!(service.worker.is_none());
    let mut service = started(7);
    assert!(service.reap_finished_worker(false).is_none());
    assert!(service.reap_finished_worker(true).is_some());
    assert!(service.reap_finished_worker(true).is_none());
}

#[test]
fn a_failed_spawn_leaves_the_service_stopped() {
    let mut service = Service::new(Arc::new("config"));
    assert_eq!(service.start(false).next, ServiceNext::Spawn(Arc::new("config")));
    assert_eq!(service.finish_start(Err("no process")), Err("no process"));
    assert_eq!(service.is_running(false).next, ServiceNext::Answer(false));
}

#[test]
fn stopping_hands_the_worker_out_once() {
    let mut service = started(7);
    let step = service.stop();
    assert_eq!(retired(&step), Some(7));
    assert_eq!(step.next, ServiceNext::Answer(false));
    let step = service.stop();
    assert!(step.retired.is_none());
    assert_eq!(step.next, ServiceNext::Answer(false));
}

#[test]
fn toggling_flips() {
    let mut service = started(7);
    let step = service.toggle(false);
    assert_eq!(retired(&step), Some(7));
    assert_eq!(step.next, ServiceNext::Answer(false));
    let step = service.toggle(false);
    assert!(step.retired.is_none());
    assert_eq!(step.next, ServiceNext::Spawn(Arc::new("config")));
    assert_eq!(service.finish_start::<String>(Ok(worker(8))), Ok(true));
    let step = service.toggle(true);
    assert_eq!(retired(&step), Some(8));
    assert_eq!(step.next, ServiceNext::Spawn(Arc::new("config")));
}

#[test]
fn a_worker_is_shut_down_once() {
    let mut worker = worker(7);
    assert!(!worker.is_finished(false));
    assert!(worker.is_finished(true));
    let shutdown = worker.stop();
    assert_eq!((shutdown.signal, shutdown.join), (Some(1), Some(7)));
    assert!(worker.is_finished(true));
    assert!(worker.is_finished(false));
    let shutdown = worker.stop();
    assert_eq!((shutdown.signal, shutdown.join), (None, None));
}

#[test]
fn the_signal_goes_before_the_join() {
    let mut shutdown = worker(7).stop();
    assert!(matches!(shutdown.next_step(), ShutdownStep::Signal(1)));
    assert!(matches!(shutdown.next_step(), ShutdownStep::Join(7)));
    assert!(matches!(shutdown.next_step(), ShutdownStep::Done));
    let mut shutdown: Shutdown<u8, u32> = Shutdown { signal: None, join: Some(7) };
    assert!(matches!(shutdown.next_step(), ShutdownStep::Join(7)));
    assert!(matches!(shutdown.next_step(), ShutdownStep::Done));
    let mut shutdown: Shutdown<u8, u32> = Shutdown { signal: Some(1), join: None };
    assert!(matches!(shutdown.next_step(), ShutdownStep::Signal(1)));
    assert!(matches!(shutdown.next_step(), ShutdownStep::Done));
}

#[test]
fn a_stopped_worker_does_not_count() {
    for finished in [false, true] {
        let mut stopped = worker(7);
        stopped.stop();
        let mut service = Service::new(Arc::new("config"));
        assert_eq!(service.finish_start::<String>(Ok(stopped)), Ok(true));
        let step = service.is_running(finished);
        assert!(step.retired.is_some());
        assert_eq!(step.next, ServiceNext::Answer(false));
        assert!(service.worker.is_none());
        assert_eq!(service.start(finished).next, ServiceNext::Spawn(Arc::new("config")));
    }
}

/// The stages entered by a thread whose actions have these outcomes, and the errors reported.
fn stages(outcomes: &[Result<(), &'static str>]) -> (Vec<WorkerStage>, Vec<&'static str>) {
    let mut thread = WorkerThread::new(Arc::new("config"));
    let mut entered = vec![thread.stage];
    let mut errors = Vec::new();
    for outcome in outcomes {
        if let WorkerAction::ReportFailure(error) = thread.advance(*outcome) {
            errors.push(error);
        }
        entered.push(thread.stage);
    }
    (entered, errors)
}

#[test]
fn a_worker_that_starts_up_serves_and_ends_its_process() {
    let (entered, errors) = stages(&[Ok(()); 6]);
    assert_eq!(
        entered,
        [
            WorkerStage::BuildRuntime,
            WorkerStage::SpawnProcess,
            WorkerStage::CreateServer,
            WorkerStage::ReportReady,
            WorkerStage::Serve,
            WorkerStage::TerminateProcess,
            WorkerStage::Exit,
        ]
    );
    assert!(errors.is_empty());
}

#[test]
fn a_worker_that_fails_to_start_reports_the_failure_once() {
    for failing in 0..3 {
        let mut outcomes = [Ok(()); 6];
        outcomes[failing] = Err("broken");
        let (entered, errors) = stages(&outcomes);
        assert_eq!(errors, ["broken"]);
        assert_eq!(entered[failing + 1], WorkerStage::ReportFailure);
        assert!(!entered.contains(&WorkerStage::ReportReady));
        assert!(!entered.contains(&WorkerStage::TerminateProcess));
        assert_eq!(entered.last(), Some(&WorkerStage::Exit));
    }
}

#[test]
fn failures_after_startup_do_not_matter() {
    let outcomes = [Ok(()), Ok(()), Ok(()), Err("a"), Err("b"), Err("c"), Err("d")];
    let (entered, errors) = stages(&outcomes);
    assert!(errors.is_empty());
    assert_eq!(entered[5], WorkerStage::TerminateProcess);
    assert_eq!(entered[7], WorkerStage::Exit);
}

#[test]
fn the_spawner_goes_by_the_report() {
    match finish_spawn::<u8, u32, &str>(Some(Ok(())), 3, 4) {
        SpawnOutcome::Running(worker) => {
            assert_eq!((worker.shutdown_sender, worker.thread), (Some(3), Some(4)));
        }
        SpawnOutcome::JoinAndFail(..) => panic!("the worker is ready"),
    }
    assert!(matches!(
        finish_spawn(Some(Err("broken")), 3, 4),
        SpawnOutcome::JoinAndFail(4, SpawnError::Startup("broken"))
    ));
    assert!(matches!(
        finish_spawn::<u8, u32, &str>(None, 3, 4),
        SpawnOutcome::JoinAndFail(4, SpawnError::Silent)
    ));
    assert_eq!(
        silent_exit_message(),
        "highlighter service exited before reporting startup status"
    );
}

#[test]
fn serving_ends_on_shutdown_and_end_of_pipe() {
    let flow = |event: ServerEvent<&'static str>| run_server_until_shutdown(event);
    assert!(matches!(flow(ServerEvent::Shutdown), ServerFlow::Break));
    assert!(matches!(flow(ServerEvent::EndOfPipe), ServerFlow::Break));
    assert!(matches!(flow(ServerEvent::Request), ServerFlow::Continue));
    assert!(matches!(flow(ServerEvent::Failed("bad")), ServerFlow::LogAndContinue("bad")));
}

type Settings = Config<&'static str, Vec<String>, u8, u16, &'static str>;

fn settings() -> Settings {
    Config {
        mutable_dictionary: vec!["harper".to_string()],
        dialect: "american",
        ignored_lints: 1,
        lint_config: 2,
        integrations: vec!["com.apple.Notes"],
        debounce_ms: 300,
        auto_update: false,
        last_update_check: Some(9),
    }
}

#[test]
fn settings_read_back_and_are_independent() {
    let mut config = settings();
    config.set_debounce_ms(50);
    config.set_debounce_ms(75);
    config.set_auto_update(true);
    config.set_last_update_check(None);
    config.set_dialect("british");
    config.set_lint_config(8);
    config.replace_dictionary(Vec::new());
    assert_eq!(config.ignored_lints, 1);
    assert_eq!(*config.get_integrations(), ["com.apple.Notes"]);
    config.replace_ignored_lints(6);
    config.replace_integrations(vec!["com.apple.Notes", "com.apple.mail"]);
    assert_eq!(config.get_debounce_ms(), 75);
    assert!(config.get_auto_update());
    assert_eq!(config.get_last_update_check(), None);
    assert_eq!(*config.get_dialect(), "british");
    assert_eq!(*config.get_lint_config(), 8);
    assert!(config.mutable_dictionary.is_empty());
    assert_eq!(config.ignored_lints, 6);
    assert_eq!(*config.get_integrations(), ["com.apple.Notes", "com.apple.mail"]);
}

#[test]
fn a_change_stays_whatever_saving_comes_to() {
    for saved in [Ok(()), Err("disk full".to_string())] {
        let mut config = settings();
        assert_eq!(config.change_setting(Setting::LintConfig(8), saved.clone()), saved);
        assert_eq!(config.lint_config, 8);
        assert_eq!((config.dialect, config.ignored_lints), ("american", 1));

        let words = vec!["weir".to_string()];
        let change = SettingsEvent::Change(Setting::Dictionary(words));
        assert!(matches!(config.handle_settings_event(change), SettingsAction::Save));
        assert_eq!(config.mutable_dictionary, ["weir"]);
        match config.handle_settings_event(SettingsEvent::Saved(saved.clone())) {
            SettingsAction::Answer(answer) => assert_eq!(answer, saved),
            SettingsAction::Save => panic!("the settings are saved once"),
        }
        assert_eq!(config.mutable_dictionary, ["weir"]);
        assert_eq!((config.lint_config, config.debounce_ms), (8, 300));
    }
}

#[test]
fn each_setting_can_be_set() {
    let mut config = settings();
    config.set(Setting::Dialect("british"));
    config.set(Setting::IgnoredLints(4));
    config.set(Setting::Integrations(Vec::new()));
    config.set(Setting::DebounceMs(5));
    config.set(Setting::AutoUpdate(true));
    config.set(Setting::LastUpdateCheck(None));
    assert_eq!((config.dialect, config.ignored_lints, config.debounce_ms), ("british", 4, 5));
    assert_eq!((config.integrations.len(), config.last_update_check), (0, None));
    assert!(config.auto_update);
    assert_eq!(config.mutable_dictionary, ["harper"]);
    assert_eq!(config.lint_config, 2);
}

#[test]
fn a_new_server_serves_the_settings_of_the_service() {
    let shared = Arc::new("config");
    let mut service = Service::new(shared.clone());
    let ServiceNext::Spawn(ordered) = service.start(false).next else {
        panic!("no worker is owned");
    };
    assert!(Arc::ptr_eq(&ordered, &shared));
    let mut thread = WorkerThread::new(ordered);
    assert!(matches!(thread.advance::<String>(Ok(())), WorkerAction::SpawnProcess));
    match thread.advance::<String>(Ok(())) {
        WorkerAction::CreateServer(served) => assert!(Arc::ptr_eq(&served, &shared)),
        _ => panic!("the process was spawned"),
    }
}

#[test]
fn startup_falls_back_to_defaults() {
    assert_eq!(startup_config::<u8, &str>(Ok(1), 2), (1, None));
    assert_eq!(startup_config(Err("unreadable"), 2), (2, Some("unreadable")));
}

type Fetch = ConfigFetch<&'static str, Vec<String>, u8, u16, &'static str>;

fn reply_to(request: FetchRequest) -> FetchReply<&'static str, Vec<String>, u8, u16, &'static str> {
    let config = settings();
    match request {
        FetchRequest::Dialect => FetchReply::Dialect(config.dialect),
        FetchRequest::Dictionary => FetchReply::Dictionary(config.mutable_dictionary),
        FetchRequest::IgnoredLints => FetchReply::IgnoredLints(config.ignored_lints),
        FetchRequest::LintConfig => FetchReply::LintConfig(config.lint_config),
        FetchRequest::Integrations => FetchReply::Integrations(config.integrations),
        FetchRequest::DebounceMs => FetchReply::DebounceMs(config.debounce_ms),
    }
}

#[test]
fn fetching_asks_for_six_things_in_order() {
    let mut fetch = Fetch::new();
    let mut asked = Vec::new();
    while let Some(request) = fetch.pending_request() {
        asked.push(request);
        fetch = fetch.fetch_highlighter_config::<String>(Ok(reply_to(request))).ok().unwrap();
    }
    assert_eq!(
        asked,
        [
            FetchRequest::Dialect,
            FetchRequest::Dictionary,
            FetchRequest::IgnoredLints,
            FetchRequest::LintConfig,
            FetchRequest::Integrations,
            FetchRequest::DebounceMs,
        ]
    );
    match fetch {
        ConfigFetch::Complete(config) => {
            assert_eq!(config.dialect, "american");
            assert_eq!(config.mutable_dictionary, ["harper"]);
            assert_eq!((config.ignored_lints, config.lint_config), (1, 2));
            assert_eq!(config.integrations, ["com.apple.Notes"]);
            assert_eq!(config.debounce_ms, 300);
            assert!(config.auto_update);
            assert_eq!(config.last_update_check, None);
        }
        _ => panic!("nothing is pending"),
    }
}

#[test]
fn the_first_failure_ends_the_fetch() {
    let fetch = Fetch::new();
    let fetch = fetch.fetch_highlighter_config(Ok::<_, &str>(reply_to(FetchRequest::Dialect)));
    let fetch = fetch.ok().unwrap();
    assert_eq!(fetch.fetch_highlighter_config(Err("closed")).err(), Some("closed"));
}

#[test]
fn a_reply_to_another_request_is_passed_over() {
    let fetch = Fetch::new();
    let fetch = fetch.fetch_highlighter_config(Ok::<_, &str>(reply_to(FetchRequest::DebounceMs)));
    assert_eq!(fetch.ok().unwrap().pending_request(), Some(FetchRequest::Dialect));
}

#[test]
fn sessions_follow_the_settings() {
    let mut session = HighlighterSession::new(settings(), 2);
    assert_eq!(session.debounce_ms, 300);
    assert_eq!(session.integrations, ["com.apple.Notes"]);
    let mut fresh = settings();
    fresh.set_debounce_ms(10);
    fresh.set_dialect("british");
    assert_eq!(session.refresh_config::<String>(Ok((fresh, 3))), Ok(()));
    assert_eq!((session.debounce_ms, session.dialect), (10, "british"));
    assert_eq!(session.refresh_config(Err("closed")), Err("closed"));
    assert_eq!((session.debounce_ms, session.dialect), (10, "british"));
    assert_eq!(session.lint_config, 3);
    session.apply_highlighter_config(settings(), 4);
    assert_eq!(session.lint_config, 4);
    assert_eq!((session.debounce_ms, session.dialect), (300, "american"));
}

#[test]
fn sessions_ignore_learn_and_disable() {
    let mut session = HighlighterSession::new(settings(), 2);
    session.ignore_lint(5);
    assert_eq!(session.disable_rule::<String>(Ok(6)), Ok(()));
    assert_eq!(session.disable_rule(Err("closed")), Err("closed"));
    assert_eq!((session.ignored_lints, session.lint_config), (5, 6));
    let words = vec!["harper".to_string(), "weir".to_string()];
    let config = session.add_to_dictionary(words, 0);
    assert_eq!(session.user_dictionary, ["harper", "weir"]);
    assert_eq!(config.mutable_dictionary, ["harper", "weir"]);
    assert_eq!((config.dialect, config.lint_config), ("american", 6));
    assert_eq!(config.ignored_lints, 0);
    assert!(config.integrations.is_empty());
    assert_eq!(config.debounce_ms, 300);
    assert!(config.auto_update);
    assert_eq!(config.last_update_check, None);
    session.use_linter(7);
    assert_eq!((session.ignored_lints, session.lint_config), (5, 7));
}

#[test]
fn texts_are_linted_unless_the_lints_are_good() {
    assert!(matches!(lint_text(LintTextEvent::Cached(3)), LintTextAction::Return(3)));
    assert!(matches!(lint_text(LintTextEvent::<u8>::Ready), LintTextAction::Lint));
    assert!(matches!(lint_text(LintTextEvent::Linted(4)), LintTextAction::RemoveIgnored(4)));
    assert!(matches!(lint_text(LintTextEvent::Filtered(5)), LintTextAction::StoreAndReturn(5)));
}

#[test]
fn rules_are_registered_and_enabled() {
    let rules = vec![
        WeirRule { name: "First".to_string(), linter: Ok::<u8, u16>(1) },
        WeirRule { name: "Second".to_string(), linter: Err(2) },
    ];
    let group = lint_group(rules);
    assert_eq!(group.len(), 2);
    assert_eq!(group[0].name, "First");
    assert!(matches!(group[0].linter, RegisteredLinter::Sentence(1)));
    assert_eq!(group[1].name, "Second");
    assert!(matches!(group[1].linter, RegisteredLinter::Chunk(2)));
    assert!(group.iter().all(|entry| entry.enabled == Some(true)));
}
