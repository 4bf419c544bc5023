//! The loaded configuration: one settings record per language, and dispatch by extension.

use crate::backends::{Backend, ClangBackend, ClangCBackend, PythonBackend};
use vstd::prelude::*;

verus! {

/// The extension of a path, as `Path::extension` reads it.
pub uninterp spec fn path_extension(p: Seq<char>) -> Option<Seq<char>>;

/// Relies on `Path::extension`: the part of the file name after its last `.`, or
/// `None` for a name without one or with only a leading one. The extension of a path
/// given as `&str` is valid UTF-8, so the lossless conversion keeps every character.
#[verifier::external_body]
fn extension_of(p: &str) -> (r: Option<String>)
    ensures
        crate::backends::opt_string(r) == path_extension(p@),
{
    match std::path::Path::new(p).extension() {
        Some(e) => Some(e.to_string_lossy().into_owned()),
        None => None,
    }
}

/// The configuration that the engine's caller loaded.
#[derive(Debug)]
pub struct Conf {
    /// Where the configuration was read from.
    pub path: Option<String>,
    pub python: PythonBackend,
    pub clang: ClangBackend,
    pub clang_c: ClangCBackend,
}

/// Which language an extension selects.
#[derive(Clone, Copy, Debug, PartialEq, Eq, Structural)]
pub enum BackendKind {
    Python,
    Clang,
    ClangC,
}

/// The language of a file extension: `py`; `cc`, `cpp` or `cxx`; `c`; or none.
pub open spec fn kind_of_extension(ext: Seq<char>) -> Option<BackendKind> {
    if ext == "py"@ {
        Some(BackendKind::Python)
    } else if ext == "cc"@ || ext == "cpp"@ || ext == "cxx"@ {
        Some(BackendKind::Clang)
    } else if ext == "c"@ {
        Some(BackendKind::ClangC)
    } else {
        None
    }
}

/// The language of a path, by its extension.
pub open spec fn kind_of_path(p: Seq<char>) -> Option<BackendKind> {
    match path_extension(p) {
        Some(ext) => kind_of_extension(ext),
        None => None,
    }
}

fn same_text(a: &str, b: &str) -> (r: bool)
    ensures
        r == (a@ == b@),
{
    String::from_str(a) == String::from_str(b)
}

/// Selects the language of a file extension.
pub fn kind_for_extension(ext: &str) -> (r: Option<BackendKind>)
    ensures
        r == kind_of_extension(ext@),
{
    if same_text(ext, "py") {
        Some(BackendKind::Python)
    } else if same_text(ext, "cc") || same_text(ext, "cpp") || same_text(ext, "cxx") {
        Some(BackendKind::Clang)
    } else if same_text(ext, "c") {
        Some(BackendKind::ClangC)
    } else {
        None
    }
}

/// Selects the language of a source file by its extension.
pub fn kind_for_path(fname: &str) -> (r: Option<BackendKind>)
    ensures
        r == kind_of_path(fname@),
{
    match extension_of(fname) {
        Some(ext) => kind_for_extension(ext.as_str()),
        None => None,
    }
}

impl Conf {
    /// The backend of a language, over this configuration's settings for it.
    pub open spec fn backend_spec(&self, kind: Option<BackendKind>) -> Option<Backend<'_>> {
        match kind {
            Some(BackendKind::Python) => Some(Backend::Python(&self.python)),
            Some(BackendKind::Clang) => Some(Backend::Clang(&self.clang)),
            Some(BackendKind::ClangC) => Some(Backend::ClangC(&self.clang_c)),
            None => None,
        }
    }

    /// The scaffold text for a file of a language: its configured template, or empty.
    pub open spec fn template_text(&self, kind: Option<BackendKind>) -> Seq<char> {
        match self.backend_spec(kind) {
            Some(b) => match b.template_spec() {
                Some(t) => t,
                None => Seq::empty(),
            },
            None => Seq::empty(),
        }
    }

    /// The backend of a language.
    pub fn backend_of(&self, kind: Option<BackendKind>) -> (r: Option<Backend<'_>>)
        ensures
            r == self.backend_spec(kind),
    {
        match kind {
            Some(BackendKind::Python) => Some(Backend::Python(&self.python)),
            Some(BackendKind::Clang) => Some(Backend::Clang(&self.clang)),
            Some(BackendKind::ClangC) => Some(Backend::ClangC(&self.clang_c)),
            None => None,
        }
    }

    /// The backend for a source file, chosen by its extension; `None` for an extension
    /// that no backend handles.
    pub fn get_backend(&self, fname: &str) -> (r: Option<Backend<'_>>)
        ensures
            r == self.backend_spec(kind_of_path(fname@)),
    {
        let kind = kind_for_path(fname);
        self.backend_of(kind)
    }

    /// The scaffold text of a language's template, empty where there is none.
    pub fn template_for(&self, kind: Option<BackendKind>) -> (r: &str)
        ensures
            r@ == self.template_text(kind),
    {
        let t = match self.backend_of(kind) {
            Some(b) => b.get_template(),
            None => None,
        };
        match t {
            Some(s) => s,
            None => {
                proof {
                    reveal_strlit("");
                }
                ""
            },
        }
    }

    /// The scaffold text for a new source file, chosen by its extension: the configured
    /// template of its language, or empty.
    pub fn get_template(&self, fname: &str) -> (r: &str)
        ensures
            r@ == self.template_text(kind_of_path(fname@)),
    {
        let kind = kind_for_path(fname);
        self.template_for(kind)
    }
}

/// A file whose extension is none of `py`, `cc`, `cpp`, `cxx` and `c`, or that has no
/// extension, gets no backend.
pub proof fn lemma_unknown_extension_has_no_backend(conf: &Conf, fname: Seq<char>)
    requires
        path_extension(fname) matches Some(ext) ==> {
            &&& ext != "py"@
            &&& ext != "cc"@
            &&& ext != "cpp"@
            &&& ext != "cxx"@
            &&& ext != "c"@
        },
    ensures
        kind_of_path(fname) is None,
        conf.backend_spec(kind_of_path(fname)) is None,
{
}

} // verus!
