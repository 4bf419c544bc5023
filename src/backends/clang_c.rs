//! Settings of the C backend, compiled with a clang-like toolchain.

use vstd::prelude::*;

verus! {

/// Settings of the C backend.
#[derive(Debug)]
pub struct ClangCBackend {
    /// Text that a new source file of this kind starts with.
    pub template: Option<String>,
    /// Extra toolchain arguments, passed last so that they override the defaults.
    pub args: Vec<String>,
    /// The toolchain executable.
    pub cc: String,
    /// How long the program may run, in microseconds.
    pub timeout: u64,
}

/// The toolchain that the C backend uses when none is configured.
pub fn default_cc() -> (r: String)
    ensures
        r@ == "clang"@,
{
    String::from_str("clang")
}

/// The run-time limit when none is configured: one second, in microseconds.
pub fn default_timeout() -> (r: u64)
    ensures
        r == 1_000_000,
{
    1_000_000
}

impl Default for ClangCBackend {
    fn default() -> (r: ClangCBackend)
        ensures
            r.template is None,
            r.args@.len() == 0,
            r.cc@ == "clang"@,
            r.timeout == 1_000_000,
    {
        ClangCBackend { template: None, args: Vec::new(), cc: default_cc(), timeout: default_timeout() }
    }
}

impl ClangCBackend {
    /// The language name that the toolchain is told the source is written in.
    pub fn language() -> (r: &'static str)
        ensures
            r@ == "c"@,
    {
        "c"
    }
}

} // verus!
