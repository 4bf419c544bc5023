//! Settings of the interpreted backend.

use vstd::prelude::*;

verus! {

/// Settings of the Python backend.
#[derive(Debug)]
pub struct PythonBackend {
    /// Text that a new source file of this kind starts with.
    pub template: Option<String>,
    /// The interpreter version appended to `python`, such as `3`.
    pub version: Option<String>,
    /// How long the program may run, in microseconds.
    pub timeout: u64,
}

/// The run-time limit when none is configured: one second, in microseconds.
pub fn default_timeout() -> (r: u64)
    ensures
        r == 1_000_000,
{
    1_000_000
}

impl Default for PythonBackend {
    fn default() -> (r: PythonBackend)
        ensures
            r.template is None,
            r.version is None,
            r.timeout == 1_000_000,
    {
        PythonBackend { template: None, version: None, timeout: default_timeout() }
    }
}

impl PythonBackend {
    /// The interpreter executable: `python` followed by the configured version.
    pub open spec fn interpreter_spec(&self) -> Seq<char> {
        match self.version {
            Some(v) => "python"@ + v@,
            None => "python"@,
        }
    }

    /// Names the interpreter executable, `python` followed by the configured version.
    pub fn get_interpreter(&self) -> (r: String)
        ensures
            r@ == self.interpreter_spec(),
    {
        let mut r = String::from_str("python");
        match &self.version {
            Some(v) => r.append(v.as_str()),
            None => {},
        }
        r
    }
}

} // verus!
