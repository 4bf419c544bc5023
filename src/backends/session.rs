//! One run of a backend as a state machine: the engine decides, the driver acts.
//!
//! The driver performs each `Action` (reading file times, running the toolchain,
//! spawning and waiting for the child, killing it) and reports what happened as an
//! `Event`; `RunSession::step` decides the next action. A run ends with exactly one
//! `Action::Finish`.

use crate::backends::cache::stale;
use crate::backends::run_error::RunError;
use crate::rusage::RssUnit;
use crate::wait::{classify, classify_spec, RunOutcome, WaitError};
use vstd::prelude::*;

verus! {

/// The views of a sequence of strings.
pub open spec fn strings_view(v: Seq<String>) -> Seq<Seq<char>> {
    v.map_values(|s: String| s@)
}

/// Copies a sequence of strings.
pub fn clone_strings(v: &Vec<String>) -> (r: Vec<String>)
    ensures
        r@ == v@,
{
    let mut r: Vec<String> = Vec::new();
    let n = v.len();
    for i in 0..n
        invariant
            n == v@.len(),
            r@ == v@.subrange(0, i as int),
    {
        r.push(v[i].clone());
        assert(r@ =~= v@.subrange(0, i + 1));
    }
    assert(r@ =~= v@);
    r
}

/// How a compiled backend brings the artifact up to date before running it.
#[derive(Debug)]
pub struct BuildStep {
    pub source: String,
    pub artifact: String,
    /// The toolchain executable.
    pub program: String,
    /// The toolchain's arguments.
    pub args: Vec<String>,
}

pub struct BuildView {
    pub source: Seq<char>,
    pub artifact: Seq<char>,
    pub program: Seq<char>,
    pub args: Seq<Seq<char>>,
}

impl View for BuildStep {
    type V = BuildView;

    open spec fn view(&self) -> BuildView {
        BuildView {
            source: self.source@,
            artifact: self.artifact@,
            program: self.program@,
            args: strings_view(self.args@),
        }
    }
}

/// Everything a run needs to know: what to build, what to run and for how long.
#[derive(Debug)]
pub struct RunPlan {
    pub build: Option<BuildStep>,
    /// The executable to run.
    pub program: String,
    pub args: Vec<String>,
    /// How long the program may run, in microseconds.
    pub timeout: u64,
    pub rss_unit: RssUnit,
}

pub struct PlanView {
    pub build: Option<BuildView>,
    pub program: Seq<char>,
    pub args: Seq<Seq<char>>,
    pub timeout: u64,
    pub rss_unit: RssUnit,
}

impl View for RunPlan {
    type V = PlanView;

    open spec fn view(&self) -> PlanView {
        PlanView {
            build: match self.build {
                Some(b) => Some(b@),
                None => None,
            },
            program: self.program@,
            args: strings_view(self.args@),
            timeout: self.timeout,
            rss_unit: self.rss_unit,
        }
    }
}

/// Where a run stands, and so which events it expects.
#[derive(Clone, Copy, Debug, PartialEq, Eq, Structural)]
pub enum Phase {
    /// Expects the modification times of source and artifact.
    Checking,
    /// Expects the toolchain's result.
    Compiling,
    /// Expects the removal of what a failed build left; `code` is the toolchain's exit code.
    Discarding { code: Option<i32> },
    /// Expects the result of spawning the program.
    Spawning,
    /// Expects the child's reap, a failed wait, or the deadline.
    Waiting { pid: i32 },
    /// The deadline passed after `elapsed` microseconds; expects the killed child's reap.
    Reaping { pid: i32, elapsed: u64 },
    /// The run has ended.
    Finished,
}

/// What the driver reports.
#[derive(Debug)]
pub enum Event {
    /// Modification times in nanoseconds since the epoch; `None` where unreadable.
    Stat { source_mtime: Option<i128>, artifact_mtime: Option<i128> },
    /// The toolchain ended: its exit code, or `None` when a signal ended it.
    CompileExited { code: Option<i32> },
    /// The toolchain could not be started.
    CompileFailed(std::io::Error),
    /// The artifact is gone.
    Discarded,
    /// The program started as process `pid`.
    Spawned { pid: i32 },
    /// The program could not be started.
    SpawnFailed(std::io::Error),
    /// A wait reaped process `pid` with this raw status and usage record,
    /// `wall_time` microseconds after the start.
    Reaped { pid: i32, status: i32, usage: nix::libc::rusage, wall_time: u64 },
    /// Waiting for the child failed.
    WaitFailed(nix::Error),
    /// The deadline passed, `elapsed` microseconds after the start, before a reap.
    DeadlinePassed { elapsed: u64 },
}

/// What the driver is asked to do next.
#[derive(Debug)]
pub enum Action {
    /// Read the modification times of both files.
    Stat { source: String, artifact: String },
    /// Run the toolchain to completion, without a deadline.
    Compile { program: String, args: Vec<String> },
    /// Remove the artifact, whatever a failed build left of it.
    Discard { artifact: String },
    /// Start the program, its arguments given as a vector, never through a shell.
    Spawn { program: String, args: Vec<String> },
    /// Start one waiter that reaps `pid` and reports its usage, and wait for it for at
    /// most `timeout` microseconds.
    Supervise { pid: i32, timeout: u64 },
    /// Kill `pid`, then wait for the waiter's own reap of it.
    KillAndReap { pid: i32 },
    /// The run is over.
    Finish(Result<RunOutcome, RunError>),
}

pub enum ActionView {
    Stat { source: Seq<char>, artifact: Seq<char> },
    Compile { program: Seq<char>, args: Seq<Seq<char>> },
    Discard { artifact: Seq<char> },
    Spawn { program: Seq<char>, args: Seq<Seq<char>> },
    Supervise { pid: i32, timeout: u64 },
    KillAndReap { pid: i32 },
    Finish(Result<RunOutcome, RunError>),
}

impl View for Action {
    type V = ActionView;

    open spec fn view(&self) -> ActionView {
        match self {
            Action::Stat { source, artifact } => ActionView::Stat {
                source: source@,
                artifact: artifact@,
            },
            Action::Compile { program, args } => ActionView::Compile {
                program: program@,
                args: strings_view(args@),
            },
            Action::Discard { artifact } => ActionView::Discard { artifact: artifact@ },
            Action::Spawn { program, args } => ActionView::Spawn {
                program: program@,
                args: strings_view(args@),
            },
            Action::Supervise { pid, timeout } => ActionView::Supervise {
                pid: *pid,
                timeout: *timeout,
            },
            Action::KillAndReap { pid } => ActionView::KillAndReap { pid: *pid },
            Action::Finish(r) => ActionView::Finish(*r),
        }
    }
}

/// The end of a run that received an event it did not expect.
pub open spec fn unexpected() -> (Phase, ActionView) {
    (Phase::Finished, ActionView::Finish(Err(RunError::UnexpectedEvent)))
}

/// Starting the program of a plan.
pub open spec fn spawn_view(p: PlanView) -> ActionView {
    ActionView::Spawn { program: p.program, args: p.args }
}

/// A supervision failure as a failure of the run.
pub open spec fn run_result(r: Result<RunOutcome, WaitError>) -> Result<RunOutcome, RunError> {
    match r {
        Ok(o) => Ok(o),
        Err(e) => Err(RunError::WaitError(e)),
    }
}

/// The first phase and action of a run of the plan `p`.
pub open spec fn start(p: PlanView) -> (Phase, ActionView) {
    match p.build {
        Some(b) => (Phase::Checking, ActionView::Stat { source: b.source, artifact: b.artifact }),
        None => (Phase::Spawning, spawn_view(p)),
    }
}

/// The phase and action that follow the event `ev` in the phase `phase` of a run of `p`.
pub open spec fn next(p: PlanView, phase: Phase, ev: Event) -> (Phase, ActionView) {
    match phase {
        Phase::Checking => match ev {
            Event::Stat { source_mtime, artifact_mtime } => match p.build {
                Some(b) => if stale(source_mtime, artifact_mtime) {
                    (Phase::Compiling, ActionView::Compile { program: b.program, args: b.args })
                } else {
                    (Phase::Spawning, spawn_view(p))
                },
                None => unexpected(),
            },
            _ => unexpected(),
        },
        Phase::Compiling => match ev {
            Event::CompileExited { code } => match p.build {
                Some(b) => if code == Some(0i32) {
                    (Phase::Spawning, spawn_view(p))
                } else {
                    (Phase::Discarding { code }, ActionView::Discard { artifact: b.artifact })
                },
                None => unexpected(),
            },
            Event::CompileFailed(e) => (Phase::Finished, ActionView::Finish(Err(RunError::IoError(e)))),
            _ => unexpected(),
        },
        Phase::Discarding { code } => match ev {
            Event::Discarded => (
                Phase::Finished,
                ActionView::Finish(Err(RunError::CompileFailed(code))),
            ),
            _ => unexpected(),
        },
        Phase::Spawning => match ev {
            Event::Spawned { pid } => (
                Phase::Waiting { pid },
                ActionView::Supervise { pid, timeout: p.timeout },
            ),
            Event::SpawnFailed(e) => (Phase::Finished, ActionView::Finish(Err(RunError::IoError(e)))),
            _ => unexpected(),
        },
        Phase::Waiting { pid } => match ev {
            Event::Reaped { pid: reaped, status, usage, wall_time } => if reaped == pid {
                (
                    Phase::Finished,
                    ActionView::Finish(
                        run_result(classify_spec(pid, status, usage, p.rss_unit, wall_time)),
                    ),
                )
            } else {
                unexpected()
            },
            Event::WaitFailed(e) => (
                Phase::Finished,
                ActionView::Finish(Err(RunError::WaitError(WaitError::OsError(e)))),
            ),
            Event::DeadlinePassed { elapsed } => (
                Phase::Reaping { pid, elapsed },
                ActionView::KillAndReap { pid },
            ),
            _ => unexpected(),
        },
        Phase::Reaping { pid, elapsed } => match ev {
            Event::Reaped { pid: reaped, .. } => if reaped == pid {
                (Phase::Finished, ActionView::Finish(Ok(RunOutcome::TimedOut { elapsed })))
            } else {
                unexpected()
            },
            Event::WaitFailed(_) => (
                Phase::Finished,
                ActionView::Finish(Ok(RunOutcome::TimedOut { elapsed })),
            ),
            _ => unexpected(),
        },
        Phase::Finished => unexpected(),
    }
}

/// A run in progress.
#[derive(Debug)]
pub struct RunSession {
    pub plan: RunPlan,
    pub phase: Phase,
}

fn spawn_action(plan: &RunPlan) -> (a: Action)
    ensures
        a@ == spawn_view(plan@),
{
    Action::Spawn { program: plan.program.clone(), args: clone_strings(&plan.args) }
}

impl RunSession {
    /// Begins a run of `plan`: it returns the session and the first action.
    pub fn new(plan: RunPlan) -> (r: (RunSession, Action))
        ensures
            r.0.plan == plan,
            (r.0.phase, r.1@) == start(plan@),
    {
        let first = match &plan.build {
            Some(b) => Action::Stat { source: b.source.clone(), artifact: b.artifact.clone() },
            None => spawn_action(&plan),
        };
        let phase = match &plan.build {
            Some(_) => Phase::Checking,
            None => Phase::Spawning,
        };
        (RunSession { plan, phase }, first)
    }

    fn unexpected_event(&mut self) -> (a: Action)
        ensures
            final(self).plan == old(self).plan,
            (final(self).phase, a@) == unexpected(),
    {
        self.phase = Phase::Finished;
        Action::Finish(Err(RunError::UnexpectedEvent))
    }

    /// Takes in what the driver reports and decides the next action.
    pub fn step(&mut self, ev: Event) -> (a: Action)
        ensures
            final(self).plan == old(self).plan,
            (final(self).phase, a@) == next(old(self).plan@, old(self).phase, ev),
    {
        match self.phase {
            Phase::Checking => match ev {
                Event::Stat { source_mtime, artifact_mtime } => match &self.plan.build {
                    Some(b) => if crate::backends::cache::needs_rebuild(source_mtime, artifact_mtime) {
                        let a = Action::Compile { program: b.program.clone(), args: clone_strings(&b.args) };
                        self.phase = Phase::Compiling;
                        a
                    } else {
                        let a = spawn_action(&self.plan);
                        self.phase = Phase::Spawning;
                        a
                    },
                    None => self.unexpected_event(),
                },
                _ => self.unexpected_event(),
            },
            Phase::Compiling => match ev {
                Event::CompileExited { code } => match &self.plan.build {
                    Some(b) => if code == Some(0i32) {
                        let a = spawn_action(&self.plan);
                        self.phase = Phase::Spawning;
                        a
                    } else {
                        let a = Action::Discard { artifact: b.artifact.clone() };
                        self.phase = Phase::Discarding { code };
                        a
                    },
                    None => self.unexpected_event(),
                },
                Event::CompileFailed(e) => {
                    self.phase = Phase::Finished;
                    Action::Finish(Err(RunError::IoError(e)))
                },
                _ => self.unexpected_event(),
            },
            Phase::Discarding { code } => match ev {
                Event::Discarded => {
                    self.phase = Phase::Finished;
                    Action::Finish(Err(RunError::CompileFailed(code)))
                },
                _ => self.unexpected_event(),
            },
            Phase::Spawning => match ev {
                Event::Spawned { pid } => {
                    self.phase = Phase::Waiting { pid };
                    Action::Supervise { pid, timeout: self.plan.timeout }
                },
                Event::SpawnFailed(e) => {
                    self.phase = Phase::Finished;
                    Action::Finish(Err(RunError::IoError(e)))
                },
                _ => self.unexpected_event(),
            },
            Phase::Waiting { pid } => match ev {
                Event::Reaped { pid: reaped, status, usage, wall_time } => if reaped == pid {
                    let r = match classify(pid, status, &usage, self.plan.rss_unit, wall_time) {
                        Ok(o) => Ok(o),
                        Err(e) => Err(RunError::WaitError(e)),
                    };
                    self.phase = Phase::Finished;
                    Action::Finish(r)
                } else {
                    self.unexpected_event()
                },
                Event::WaitFailed(e) => {
                    self.phase = Phase::Finished;
                    Action::Finish(Err(RunError::WaitError(WaitError::OsError(e))))
                },
                Event::DeadlinePassed { elapsed } => {
                    self.phase = Phase::Reaping { pid, elapsed };
                    Action::KillAndReap { pid }
                },
                _ => self.unexpected_event(),
            },
            Phase::Reaping { pid, elapsed } => match ev {
                Event::Reaped { pid: reaped, .. } => if reaped == pid {
                    self.phase = Phase::Finished;
                    Action::Finish(Ok(RunOutcome::TimedOut { elapsed }))
                } else {
                    self.unexpected_event()
                },
                Event::WaitFailed(_) => {
                    self.phase = Phase::Finished;
                    Action::Finish(Ok(RunOutcome::TimedOut { elapsed }))
                },
                _ => self.unexpected_event(),
            },
            Phase::Finished => self.unexpected_event(),
        }
    }
}

/// A run builds at most once: no event brings a run back to checking its artifact,
/// and the toolchain is asked for only from there, when the artifact is stale.
pub proof fn lemma_build_at_most_once(p: PlanView, phase: Phase, ev: Event)
    ensures
        next(p, phase, ev).0 != Phase::Checking,
        next(p, phase, ev).1 is Compile ==> {
            &&& phase == Phase::Checking
            &&& ev matches Event::Stat { source_mtime, artifact_mtime }
            &&& stale(source_mtime, artifact_mtime)
        },
{
}

/// A compiled run whose cached artifact is no older than its source runs the artifact
/// without invoking the toolchain. After a run that built, the artifact is newer than
/// the unchanged source, so a second run on it does not build again.
pub proof fn lemma_fresh_artifact_is_reused(p: PlanView, source_mtime: i128, artifact_mtime: i128)
    requires
        p.build is Some,
        artifact_mtime >= source_mtime,
    ensures
        start(p).0 == Phase::Checking,
        next(
            p,
            Phase::Checking,
            Event::Stat { source_mtime: Some(source_mtime), artifact_mtime: Some(artifact_mtime) },
        ) == (Phase::Spawning, spawn_view(p)),
{
}

/// A compiled run whose source is strictly newer than its artifact, or whose artifact
/// or source has no readable modification time, invokes the toolchain again.
pub proof fn lemma_stale_artifact_is_rebuilt(
    p: PlanView,
    source_mtime: Option<i128>,
    artifact_mtime: Option<i128>,
)
    requires
        p.build is Some,
        source_mtime is None || artifact_mtime is None
            || source_mtime->0 > artifact_mtime->0,
    ensures
        next(p, Phase::Checking, Event::Stat { source_mtime, artifact_mtime }) == (
            Phase::Compiling,
            ActionView::Compile { program: p.build->0.program, args: p.build->0.args },
        ),
{
}

/// Once the deadline passes, the child is killed and reaped, and the run ends as
/// timed out with the time measured at the deadline: whatever the reap of the child
/// reports, even a normal exit, the run never ends in success or an exit code.
pub proof fn lemma_deadline_ends_in_timeout(p: PlanView, pid: i32, elapsed: u64, ev: Event)
    ensures
        next(p, Phase::Waiting { pid }, Event::DeadlinePassed { elapsed }) == (
            Phase::Reaping { pid, elapsed },
            ActionView::KillAndReap { pid },
        ),
        next(p, Phase::Reaping { pid, elapsed }, ev) == (
            Phase::Finished,
            ActionView::Finish(Ok(RunOutcome::TimedOut { elapsed })),
        ) || next(p, Phase::Reaping { pid, elapsed }, ev) == unexpected(),
        (ev matches Event::Reaped { pid: reaped, .. } && reaped == pid) || ev is WaitFailed
            ==> next(p, Phase::Reaping { pid, elapsed }, ev) == (
            Phase::Finished,
            ActionView::Finish(Ok(RunOutcome::TimedOut { elapsed })),
        ),
{
}

} // verus!
