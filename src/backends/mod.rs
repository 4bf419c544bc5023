//! Backends: one per supported language, each turning a source file into a run plan.

pub mod cache;
pub mod clang;
pub mod clang_c;
pub mod python;
pub mod run_error;
pub mod session;

pub use cache::{get_binary_by_filename, EngineContext};
pub use clang::ClangBackend;
pub use clang_c::ClangCBackend;
pub use python::PythonBackend;
pub use run_error::RunError;

use crate::rusage::RssUnit;
use cache::cache_path_spec;
use session::{clone_strings, strings_view, Action, BuildStep, BuildView, PlanView, RunPlan, RunSession};
use vstd::prelude::*;

verus! {

/// The toolchain arguments that build `source`, written in `lang`, into `artifact`:
/// the language is named explicitly and the configured arguments come last.
pub open spec fn compile_args_spec(
    lang: Seq<char>,
    source: Seq<char>,
    artifact: Seq<char>,
    extra: Seq<Seq<char>>,
) -> Seq<Seq<char>> {
    seq!["-x"@, lang, source, "-o"@, artifact] + extra
}

/// Builds the toolchain's argument vector: `-x <lang> <source> -o <artifact> <extra...>`.
pub fn compile_args(lang: &str, source: &str, artifact: &str, extra: &Vec<String>) -> (r: Vec<String>)
    ensures
        strings_view(r@) == compile_args_spec(lang@, source@, artifact@, strings_view(extra@)),
{
    let mut r: Vec<String> = Vec::new();
    r.push(String::from_str("-x"));
    r.push(String::from_str(lang));
    r.push(String::from_str(source));
    r.push(String::from_str("-o"));
    r.push(String::from_str(artifact));
    let mut rest = clone_strings(extra);
    r.append(&mut rest);
    assert(strings_view(r@) =~= compile_args_spec(lang@, source@, artifact@, strings_view(extra@)));
    r
}

/// The plan of a compiled backend: build the cached artifact if stale, then run it
/// without arguments.
pub open spec fn compiled_plan_spec(
    scratch_dir: Seq<char>,
    rss_unit: RssUnit,
    source: Seq<char>,
    cc: Seq<char>,
    lang: Seq<char>,
    extra: Seq<Seq<char>>,
    timeout: u64,
) -> PlanView {
    let artifact = cache_path_spec(scratch_dir, source);
    PlanView {
        build: Some(
            BuildView {
                source,
                artifact,
                program: cc,
                args: compile_args_spec(lang, source, artifact, extra),
            },
        ),
        program: artifact,
        args: Seq::empty(),
        timeout,
        rss_unit,
    }
}

fn compiled_plan(
    ctx: &EngineContext,
    source: &str,
    cc: &String,
    lang: &str,
    extra: &Vec<String>,
    timeout: u64,
) -> (r: RunPlan)
    ensures
        r@ == compiled_plan_spec(
            ctx.scratch_dir@,
            ctx.rss_unit,
            source@,
            cc@,
            lang@,
            strings_view(extra@),
            timeout,
        ),
{
    let artifact = get_binary_by_filename(ctx, source);
    let args = compile_args(lang, source, artifact.as_str(), extra);
    let build = BuildStep {
        source: String::from_str(source),
        artifact: artifact.clone(),
        program: cc.clone(),
        args,
    };
    let r = RunPlan { build: Some(build), program: artifact, args: Vec::new(), timeout, rss_unit: ctx.rss_unit };
    assert(r@.args =~= Seq::<Seq<char>>::empty());
    r
}

/// The plan of the interpreted backend: run the interpreter on the source directly.
pub open spec fn interpreted_plan_spec(
    rss_unit: RssUnit,
    source: Seq<char>,
    interpreter: Seq<char>,
    timeout: u64,
) -> PlanView {
    PlanView { build: None, program: interpreter, args: seq![source], timeout, rss_unit }
}

/// The view of an optional text.
pub open spec fn opt_text(t: Option<&str>) -> Option<Seq<char>> {
    match t {
        Some(s) => Some(s@),
        None => None,
    }
}

/// The view of an optional string.
pub open spec fn opt_string(t: Option<String>) -> Option<Seq<char>> {
    match t {
        Some(s) => Some(s@),
        None => None,
    }
}

fn template_of(t: &Option<String>) -> (r: Option<&str>)
    ensures
        opt_text(r) == opt_string(*t),
{
    match t {
        Some(s) => Some(s.as_str()),
        None => None,
    }
}

/// The backend chosen for a source file, over the settings of its language.
#[derive(Debug)]
pub enum Backend<'a> {
    Python(&'a PythonBackend),
    Clang(&'a ClangBackend),
    ClangC(&'a ClangCBackend),
}

impl<'a> Backend<'a> {
    /// The scaffold text of this backend's settings.
    pub open spec fn template_spec(&self) -> Option<Seq<char>> {
        match *self {
            Backend::Python(s) => opt_string(s.template),
            Backend::Clang(s) => opt_string(s.template),
            Backend::ClangC(s) => opt_string(s.template),
        }
    }

    /// The plan of a run of `source` under this backend.
    pub open spec fn plan_spec(&self, ctx: &EngineContext, source: Seq<char>) -> PlanView {
        match *self {
            Backend::Python(s) => interpreted_plan_spec(
                ctx.rss_unit,
                source,
                s.interpreter_spec(),
                s.timeout,
            ),
            Backend::Clang(s) => compiled_plan_spec(
                ctx.scratch_dir@,
                ctx.rss_unit,
                source,
                s.cc@,
                "c++"@,
                strings_view(s.args@),
                s.timeout,
            ),
            Backend::ClangC(s) => compiled_plan_spec(
                ctx.scratch_dir@,
                ctx.rss_unit,
                source,
                s.cc@,
                "c"@,
                strings_view(s.args@),
                s.timeout,
            ),
        }
    }

    /// The text a new source file of this kind starts with, if any is configured.
    pub fn get_template(&self) -> (r: Option<&'a str>)
        ensures
            opt_text(r) == self.template_spec(),
    {
        match *self {
            Backend::Python(s) => template_of(&s.template),
            Backend::Clang(s) => template_of(&s.template),
            Backend::ClangC(s) => template_of(&s.template),
        }
    }

    /// What a run of `source` under this backend builds, runs, and for how long.
    pub fn plan(&self, ctx: &EngineContext, source: &str) -> (r: RunPlan)
        ensures
            r@ == self.plan_spec(ctx, source@),
    {
        match *self {
            Backend::Python(s) => {
                let mut args: Vec<String> = Vec::new();
                args.push(String::from_str(source));
                let r = RunPlan {
                    build: None,
                    program: s.get_interpreter(),
                    args,
                    timeout: s.timeout,
                    rss_unit: ctx.rss_unit,
                };
                assert(r@.args =~= seq![source@]);
                r
            },
            Backend::Clang(s) => compiled_plan(
                ctx,
                source,
                &s.cc,
                ClangBackend::language(),
                &s.args,
                s.timeout,
            ),
            Backend::ClangC(s) => compiled_plan(
                ctx,
                source,
                &s.cc,
                ClangCBackend::language(),
                &s.args,
                s.timeout,
            ),
        }
    }

    /// Starts a run of `source`: the session that decides it, and the first action.
    pub fn run(&self, ctx: &EngineContext, source: &str) -> (r: (RunSession, Action))
        ensures
            r.0.plan@ == self.plan_spec(ctx, source@),
            (r.0.phase, r.1@) == session::start(self.plan_spec(ctx, source@)),
    {
        RunSession::new(self.plan(ctx, source))
    }
}

} // verus!
