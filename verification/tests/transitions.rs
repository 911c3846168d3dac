use smaug_publish::machine::Action;
use smaug_publish::machine::Error;
use smaug_publish::machine::Event;
use smaug_publish::machine::Pending;
use smaug_publish::machine::Publish;
use smaug_publish::machine::RunCtx;
use smaug_publish::machine::State;
use smaug_publish::machine::Step;
use smaug_publish::path::AbsPath;

fn path(segs: &[&str]) -> AbsPath {
    let mut v: Vec<String> = Vec::new();
    for s in segs {
        v.push(s.to_string());
    }
    AbsPath::new(v)
}

fn publish() -> Publish {
    Publish { root: path(&["home", "game"]), pass_through: Vec::new(), quiet: false }
}

fn ctx() -> RunCtx {
    RunCtx {
        project_name: "Asteroids".to_string(),
        install_dir: path(&["tc"]),
        publish_bin: "dragonruby-publish".to_string(),
        stage: path(&["tc", "game"]),
    }
}

#[test]
fn start_requests_the_configuration_load() {
    let (st, action) = publish().start();
    assert!(matches!(st, State::AwaitConfig));
    match action {
        Action::LoadConfig { path } => {
            assert_eq!(
                path.segs,
                vec!["home".to_string(), "game".to_string(), "Smaug.toml".to_string()]
            );
        },
        _ => panic!("expected the configuration load"),
    }
}

#[test]
fn config_failure_reports_the_attempted_path() {
    let p = publish();
    match p.step(State::AwaitConfig, Event::ConfigFailed) {
        Some(Step::Done(Err(Error::ConfigError { path }))) => {
            assert_eq!(
                path.segs,
                vec!["home".to_string(), "game".to_string(), "Smaug.toml".to_string()]
            );
        },
        _ => panic!("expected the configuration error"),
    }
}

#[test]
fn config_success_requests_the_metadata_write() {
    let p = publish();
    let ev = Event::ConfigLoaded {
        project_name: "Asteroids".to_string(),
        toolchain_version: "4.8".to_string(),
    };
    match p.step(State::AwaitConfig, ev) {
        Some(Step::Do(State::AwaitMetadata { project_name, toolchain_version }, action)) => {
            assert_eq!(project_name, "Asteroids");
            assert_eq!(toolchain_version, "4.8");
            match action {
                Action::WriteMetadata { path } => {
                    assert_eq!(
                        path.segs,
                        vec![
                            "home".to_string(),
                            "game".to_string(),
                            "metadata".to_string(),
                            "game_metadata.txt".to_string()
                        ]
                    );
                },
                _ => panic!("expected the metadata write"),
            }
        },
        _ => panic!("expected the metadata state"),
    }
}

#[test]
fn metadata_failure_is_a_metadata_error() {
    let p = publish();
    let st = State::AwaitMetadata {
        project_name: "Asteroids".to_string(),
        toolchain_version: "4.8".to_string(),
    };
    match p.step(st, Event::MetadataFailed) {
        Some(Step::Done(Err(Error::MetadataError { path }))) => {
            assert_eq!(path.segs.last().unwrap(), "game_metadata.txt");
        },
        _ => panic!("expected the metadata error"),
    }
}

#[test]
fn missing_toolchain_ends_the_run_at_once() {
    let p = publish();
    let st = State::AwaitToolchain {
        project_name: "Asteroids".to_string(),
        toolchain_version: "9.9".to_string(),
    };
    match p.step(st, Event::ToolchainMissing) {
        Some(Step::Done(Err(Error::ConfiguredDragonRubyNotFound))) => {},
        _ => panic!("expected the missing-toolchain error"),
    }
}

#[test]
fn found_toolchain_stages_into_its_install_dir() {
    let p = publish();
    let st = State::AwaitToolchain {
        project_name: "Asteroids".to_string(),
        toolchain_version: "4.8".to_string(),
    };
    let ev = Event::ToolchainFound {
        install_dir: path(&["tc"]),
        publish_bin: "dragonruby-publish".to_string(),
    };
    match p.step(st, ev) {
        Some(Step::Do(State::AwaitStageMirror { ctx }, Action::MirrorDir { src, dst })) => {
            assert_eq!(src.segs, vec!["home".to_string(), "game".to_string()]);
            assert_eq!(dst.segs, vec!["tc".to_string(), "game".to_string()]);
            assert_eq!(ctx.stage.segs, vec!["tc".to_string(), "game".to_string()]);
        },
        _ => panic!("expected the staging mirror"),
    }
}

#[test]
fn staging_failure_still_tears_down_then_reports() {
    let p = publish();
    match p.step(State::AwaitStageMirror { ctx: ctx() }, Event::IoFailed) {
        Some(Step::Do(st2, Action::ClearPath { path })) => {
            assert_eq!(path.segs, vec!["tc".to_string(), "game".to_string()]);
            match p.step(st2, Event::IoOk) {
                Some(Step::Done(Err(Error::StagingFailed))) => {},
                _ => panic!("expected the staging failure"),
            }
        },
        _ => panic!("expected the teardown request"),
    }
}

#[test]
fn spawn_failure_still_tears_down_then_reports() {
    let p = publish();
    match p.step(State::AwaitExit { ctx: ctx() }, Event::SpawnFailed) {
        Some(Step::Do(st2, Action::ClearPath { path })) => {
            assert_eq!(path.segs, vec!["tc".to_string(), "game".to_string()]);
            match p.step(st2, Event::IoOk) {
                Some(Step::Done(Err(Error::InvokeFailed))) => {},
                _ => panic!("expected the invocation failure"),
            }
        },
        _ => panic!("expected the teardown request"),
    }
}

#[test]
fn reconciliation_failure_still_tears_down_then_reports() {
    let p = publish();
    let st = State::AwaitBuildsMirror { ctx: ctx(), exit_ok: true };
    match p.step(st, Event::IoFailed) {
        Some(Step::Do(st2, Action::ClearPath { .. })) => {
            match p.step(st2, Event::IoOk) {
                Some(Step::Done(Err(Error::ReconciliationFailed))) => {},
                _ => panic!("expected the reconciliation failure"),
            }
        },
        _ => panic!("expected the teardown request"),
    }
}

#[test]
fn failed_exit_reports_a_publish_error_with_the_project_name() {
    let p = publish();
    let st = State::AwaitTeardown { ctx: ctx(), exit_ok: false, pending: Pending::Nothing };
    match p.step(st, Event::IoOk) {
        Some(Step::Done(Err(Error::PublishError { project_name }))) => {
            assert_eq!(project_name, "Asteroids");
        },
        _ => panic!("expected the publish error"),
    }
}

#[test]
fn successful_exit_reports_the_project_name() {
    let p = publish();
    let st = State::AwaitTeardown { ctx: ctx(), exit_ok: true, pending: Pending::Nothing };
    match p.step(st, Event::IoOk) {
        Some(Step::Done(Ok(result))) => {
            assert_eq!(result.project_name, "Asteroids");
        },
        _ => panic!("expected success"),
    }
}

#[test]
fn failed_teardown_alone_is_a_cleanup_failure() {
    let p = publish();
    let st = State::AwaitTeardown { ctx: ctx(), exit_ok: true, pending: Pending::Nothing };
    match p.step(st, Event::IoFailed) {
        Some(Step::Done(Err(Error::CleanupFailed))) => {},
        _ => panic!("expected the cleanup failure"),
    }
}

#[test]
fn earlier_failure_outranks_a_failed_teardown() {
    let p = publish();
    let st = State::AwaitTeardown { ctx: ctx(), exit_ok: false, pending: Pending::Staging };
    match p.step(st, Event::IoFailed) {
        Some(Step::Done(Err(Error::StagingFailed))) => {},
        _ => panic!("expected the staging failure to win"),
    }
}

#[test]
fn invocation_carries_the_whole_surface() {
    let p = Publish {
        root: path(&["home", "game"]),
        pass_through: vec!["--only-package".to_string()],
        quiet: true,
    };
    let st = State::AwaitLocalExceptionsClear { ctx: ctx() };
    match p.step(st, Event::IoOk) {
        Some(Step::Do(State::AwaitExit { .. }, Action::Invoke {
            bin,
            workdir,
            staged_name,
            pass_through,
            quiet,
        })) => {
            assert_eq!(bin.segs, vec!["tc".to_string(), "dragonruby-publish".to_string()]);
            assert_eq!(workdir.segs, vec!["tc".to_string()]);
            assert_eq!(staged_name, "game");
            assert_eq!(pass_through, vec!["--only-package".to_string()]);
            assert!(quiet);
        },
        _ => panic!("expected the invocation"),
    }
}

#[test]
fn an_event_that_answers_nothing_is_refused() {
    let p = publish();
    assert!(p.step(State::AwaitConfig, Event::IoOk).is_none());
    assert!(p.step(State::AwaitExit { ctx: ctx() }, Event::IoOk).is_none());
}
