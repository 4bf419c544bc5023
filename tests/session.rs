use evr::backends::compile_args;
use evr::backends::session::{Action, Event, Phase, RunSession};
use evr::backends::{get_binary_by_filename, Backend, ClangBackend, ClangCBackend, EngineContext, PythonBackend, RunError};
use evr::rusage::RssUnit;
use evr::wait::{RunOutcome, WaitError};
use nix::libc;

fn ctx() -> EngineContext {
    EngineContext { scratch_dir: "/tmp/evr-tmp".to_string(), rss_unit: RssUnit::Kilobytes }
}

fn usage() -> libc::rusage {
    let t = libc::timeval { tv_sec: 0, tv_usec: 1200 };
    libc::rusage {
        ru_utime: t,
        ru_stime: t,
        ru_maxrss: 1500,
        ru_ixrss: 0,
        ru_idrss: 0,
        ru_isrss: 0,
        ru_minflt: 0,
        ru_majflt: 0,
        ru_nswap: 0,
        ru_inblock: 0,
        ru_oublock: 0,
        ru_msgsnd: 0,
        ru_msgrcv: 0,
        ru_nsignals: 0,
        ru_nvcsw: 0,
        ru_nivcsw: 0,
    }
}

fn clang() -> ClangBackend {
    ClangBackend {
        template: None,
        args: vec!["-O2".to_string(), "-lm".to_string()],
        cc: "clang++".to_string(),
        timeout: 200_000,
    }
}

fn start_compiled(settings: &ClangBackend) -> (RunSession, Action) {
    Backend::Clang(settings).run(&ctx(), "prog.cpp")
}

fn stat(source: Option<i128>, artifact: Option<i128>) -> Event {
    Event::Stat { source_mtime: source, artifact_mtime: artifact }
}

#[test]
fn compile_arguments_name_the_language_and_put_extra_flags_last() {
    let args = compile_args("c++", "a.cpp", "/tmp/x/1f", &vec!["-O2".to_string()]);
    assert_eq!(args, vec!["-x", "c++", "a.cpp", "-o", "/tmp/x/1f", "-O2"]);
}

#[test]
fn compiled_run_first_reads_both_times() {
    let (session, first) = start_compiled(&clang());
    let artifact = get_binary_by_filename(&ctx(), "prog.cpp");
    assert_eq!(session.phase, Phase::Checking);
    match first {
        Action::Stat { source, artifact: a } => {
            assert_eq!(source, "prog.cpp");
            assert_eq!(a, artifact);
        }
        other => panic!("unexpected {:?}", other),
    }
}

#[test]
fn fresh_artifact_is_run_without_building() {
    let (mut session, _) = start_compiled(&clang());
    let artifact = get_binary_by_filename(&ctx(), "prog.cpp");
    match session.step(stat(Some(100), Some(100))) {
        Action::Spawn { program, args } => {
            assert_eq!(program, artifact);
            assert!(args.is_empty());
        }
        other => panic!("unexpected {:?}", other),
    }
}

#[test]
fn second_run_on_unchanged_source_does_not_build_again() {
    let settings = clang();
    let (mut first, _) = start_compiled(&settings);
    assert!(matches!(first.step(stat(Some(100), None)), Action::Compile { .. }));
    assert!(matches!(first.step(Event::CompileExited { code: Some(0) }), Action::Spawn { .. }));
    // the build wrote the artifact after the source's last change
    let (mut second, _) = start_compiled(&settings);
    assert!(matches!(second.step(stat(Some(100), Some(150))), Action::Spawn { .. }));
}

#[test]
fn newer_source_triggers_a_build() {
    let (mut session, _) = start_compiled(&clang());
    let artifact = get_binary_by_filename(&ctx(), "prog.cpp");
    match session.step(stat(Some(200), Some(150))) {
        Action::Compile { program, args } => {
            assert_eq!(program, "clang++");
            let expected = vec!["-x", "c++", "prog.cpp", "-o", artifact.as_str(), "-O2", "-lm"];
            assert_eq!(args, expected);
        }
        other => panic!("unexpected {:?}", other),
    }
    assert_eq!(session.phase, Phase::Compiling);
}

#[test]
fn c_backend_compiles_as_c() {
    let settings = ClangCBackend { template: None, args: vec![], cc: "clang".to_string(), timeout: 1 };
    let (mut session, _) = Backend::ClangC(&settings).run(&ctx(), "m.c");
    match session.step(stat(None, None)) {
        Action::Compile { program, args } => {
            assert_eq!(program, "clang");
            assert_eq!(args[0..3].to_vec(), vec!["-x", "c", "m.c"]);
        }
        other => panic!("unexpected {:?}", other),
    }
}

#[test]
fn failed_build_discards_the_artifact_and_fails() {
    let (mut session, _) = start_compiled(&clang());
    session.step(stat(Some(2), Some(1)));
    let artifact = get_binary_by_filename(&ctx(), "prog.cpp");
    match session.step(Event::CompileExited { code: Some(1) }) {
        Action::Discard { artifact: a } => assert_eq!(a, artifact),
        other => panic!("unexpected {:?}", other),
    }
    match session.step(Event::Discarded) {
        Action::Finish(Err(RunError::CompileFailed(Some(1)))) => {}
        other => panic!("unexpected {:?}", other),
    }
    assert_eq!(session.phase, Phase::Finished);
}

#[test]
fn toolchain_ended_by_signal_is_a_failed_build() {
    let (mut session, _) = start_compiled(&clang());
    session.step(stat(None, Some(1)));
    assert!(matches!(session.step(Event::CompileExited { code: None }), Action::Discard { .. }));
    assert!(matches!(session.step(Event::Discarded), Action::Finish(Err(RunError::CompileFailed(None)))));
}

#[test]
fn toolchain_that_cannot_start_is_an_io_error() {
    let (mut session, _) = start_compiled(&clang());
    session.step(stat(None, None));
    let err = std::io::Error::new(std::io::ErrorKind::NotFound, "no toolchain");
    match session.step(Event::CompileFailed(err)) {
        Action::Finish(Err(e @ RunError::IoError(_))) => assert!(e.message().starts_with("I/O error: ")),
        other => panic!("unexpected {:?}", other),
    }
}

#[test]
fn interpreted_run_spawns_the_interpreter_on_the_source() {
    let python = PythonBackend { template: None, version: Some("3".to_string()), timeout: 7 };
    let (session, first) = Backend::Python(&python).run(&ctx(), "s.py");
    assert_eq!(session.phase, Phase::Spawning);
    match first {
        Action::Spawn { program, args } => {
            assert_eq!(program, "python3");
            assert_eq!(args, vec!["s.py"]);
        }
        other => panic!("unexpected {:?}", other),
    }
}

fn running(timeout: u64, pid: i32) -> RunSession {
    let python = PythonBackend { template: None, version: None, timeout };
    let (mut session, _) = Backend::Python(&python).run(&ctx(), "s.py");
    match session.step(Event::Spawned { pid }) {
        Action::Supervise { pid: p, timeout: t } => {
            assert_eq!(p, pid);
            assert_eq!(t, timeout);
        }
        other => panic!("unexpected {:?}", other),
    }
    session
}

#[test]
fn reaped_child_is_classified() {
    let mut session = running(1_000_000, 77);
    let ev = Event::Reaped { pid: 77, status: 0, usage: usage(), wall_time: 5000 };
    match session.step(ev) {
        Action::Finish(Ok(RunOutcome::Success(status))) => {
            assert_eq!(status.wall_time, 5000);
            assert_eq!(status.usage.ru_utime, 1200);
            assert_eq!(status.usage.get_rss_bytes(), 1_500_000);
        }
        other => panic!("unexpected {:?}", other),
    }
}

#[test]
fn nonzero_exit_is_reported_as_exit_code() {
    let mut session = running(1_000_000, 78);
    let ev = Event::Reaped { pid: 78, status: 7 << 8, usage: usage(), wall_time: 5 };
    assert!(matches!(session.step(ev), Action::Finish(Ok(RunOutcome::ExitCode { code: 7, pid: 78 }))));
}

#[test]
fn deadline_kills_and_reports_timeout() {
    let mut session = running(200_000, 79);
    match session.step(Event::DeadlinePassed { elapsed: 200_150 }) {
        Action::KillAndReap { pid } => assert_eq!(pid, 79),
        other => panic!("unexpected {:?}", other),
    }
    // the killed child's reap reports SIGKILL; the run still ends as timed out
    let ev = Event::Reaped { pid: 79, status: 9, usage: usage(), wall_time: 200_400 };
    assert!(matches!(session.step(ev), Action::Finish(Ok(RunOutcome::TimedOut { elapsed: 200_150 }))));
}

#[test]
fn child_exiting_at_the_deadline_still_times_out() {
    let mut session = running(200_000, 80);
    session.step(Event::DeadlinePassed { elapsed: 200_000 });
    let ev = Event::Reaped { pid: 80, status: 0, usage: usage(), wall_time: 200_001 };
    assert!(matches!(session.step(ev), Action::Finish(Ok(RunOutcome::TimedOut { elapsed: 200_000 }))));
}

#[test]
fn failed_wait_is_a_supervision_error() {
    let mut session = running(10, 81);
    let ev = Event::WaitFailed(nix::Error::Sys(nix::errno::Errno::ECHILD));
    assert!(matches!(session.step(ev), Action::Finish(Err(RunError::WaitError(WaitError::OsError(_))))));
}

#[test]
fn reaping_another_process_fails_loudly() {
    let mut session = running(10, 82);
    let ev = Event::Reaped { pid: 83, status: 0, usage: usage(), wall_time: 1 };
    assert!(matches!(session.step(ev), Action::Finish(Err(RunError::UnexpectedEvent))));
}

#[test]
fn spawn_failure_is_an_io_error() {
    let python = PythonBackend::default();
    let (mut session, _) = Backend::Python(&python).run(&ctx(), "s.py");
    let err = std::io::Error::new(std::io::ErrorKind::NotFound, "missing");
    assert!(matches!(session.step(Event::SpawnFailed(err)), Action::Finish(Err(RunError::IoError(_)))));
}

#[test]
fn events_after_the_end_are_unexpected() {
    let mut session = running(10, 84);
    session.step(Event::WaitFailed(nix::Error::Sys(nix::errno::Errno::EINTR)));
    assert!(matches!(session.step(Event::Discarded), Action::Finish(Err(RunError::UnexpectedEvent))));
    assert_eq!(session.phase, Phase::Finished);
}

#[test]
fn run_error_messages() {
    assert_eq!(
        RunError::CompileFailed(Some(2)).message(),
        "could not compile: the toolchain exited with code 2"
    );
    assert_eq!(RunError::CompileFailed(None).message(), "could not compile: a signal ended the toolchain");
    assert_eq!(
        RunError::WaitError(WaitError::NotExited).message(),
        "Wait error: process stopped or resumed, but not exited"
    );
    assert_eq!(RunError::UnexpectedEvent.message(), "supervision received an event out of order");
}
