use evr::backends::{Backend, ClangBackend, ClangCBackend, PythonBackend};
use evr::conf::{kind_for_extension, kind_for_path, BackendKind, Conf};

fn conf() -> Conf {
    let mut python = PythonBackend::default();
    python.template = Some("print('hi')\n".to_string());
    let mut clang = ClangBackend::default();
    clang.template = Some("int main() {}\n".to_string());
    Conf { path: None, python, clang, clang_c: ClangCBackend::default() }
}

#[test]
fn extensions_select_backends() {
    assert_eq!(kind_for_extension("py"), Some(BackendKind::Python));
    assert_eq!(kind_for_extension("cc"), Some(BackendKind::Clang));
    assert_eq!(kind_for_extension("cpp"), Some(BackendKind::Clang));
    assert_eq!(kind_for_extension("cxx"), Some(BackendKind::Clang));
    assert_eq!(kind_for_extension("c"), Some(BackendKind::ClangC));
}

#[test]
fn unknown_extension_has_no_backend() {
    assert_eq!(kind_for_extension("rs"), None);
    assert_eq!(kind_for_extension(""), None);
    assert_eq!(kind_for_extension("PY"), None);
    assert!(conf().get_backend("main.rs").is_none());
    assert!(conf().get_backend("Makefile").is_none());
}

#[test]
fn paths_select_backends_by_extension() {
    assert_eq!(kind_for_path("dir/a.py"), Some(BackendKind::Python));
    assert_eq!(kind_for_path("a.tar.c"), Some(BackendKind::ClangC));
    assert_eq!(kind_for_path(".py"), None);
    assert_eq!(kind_for_path("noext"), None);
    let c = conf();
    assert!(matches!(c.get_backend("x.cpp"), Some(Backend::Clang(_))));
    assert!(matches!(c.get_backend("x.c"), Some(Backend::ClangC(_))));
    assert!(matches!(c.get_backend("x.py"), Some(Backend::Python(_))));
}

#[test]
fn templates_come_from_the_backend_or_are_empty() {
    let c = conf();
    assert_eq!(c.get_template("new.py"), "print('hi')\n");
    assert_eq!(c.get_template("new.cxx"), "int main() {}\n");
    assert_eq!(c.get_template("new.c"), "");
    assert_eq!(c.get_template("new.txt"), "");
}

#[test]
fn defaults() {
    let clang = ClangBackend::default();
    assert_eq!(clang.cc, "clang++");
    assert_eq!(clang.timeout, 1_000_000);
    assert!(clang.args.is_empty() && clang.template.is_none());
    let clang_c = ClangCBackend::default();
    assert_eq!(clang_c.cc, "clang");
    assert_eq!(clang_c.timeout, 1_000_000);
    let python = PythonBackend::default();
    assert_eq!(python.get_interpreter(), "python");
    assert_eq!(python.timeout, 1_000_000);
}

#[test]
fn interpreter_name_carries_the_version() {
    let python = PythonBackend { template: None, version: Some("3".to_string()), timeout: 5 };
    assert_eq!(python.get_interpreter(), "python3");
}
