//! The formatting and matching leaves: locations, qualified names, decimal
//! rendering and substring matching.

use kolo::event::{DottedName, QualSource};
use kolo::path::display_path;
use kolo::qualname::resolve_qualname;
use kolo::text::{contains_substr, ends_with_str, starts_with_str, str_eq, u32_dec};

fn qual_all_none() -> QualSource {
    QualSource {
        co_qualname: None,
        module: None,
        caller_local: None,
        self_attr: None,
        cls_attr: None,
        local_override: None,
        global_attr: None,
    }
}

#[test]
fn path_is_made_relative_to_the_working_directory() {
    assert_eq!(display_path("/proj/app.py", "/proj", 10), "app.py:10");
    assert_eq!(display_path("/proj/pkg/app.py", "/proj/", 3), "pkg/app.py:3");
}

#[test]
fn path_outside_the_working_directory_stays_absolute() {
    assert_eq!(display_path("/other/app.py", "/proj", 10), "/other/app.py:10");
    assert_eq!(display_path("/projapp/x.py", "/proj", 2), "/projapp/x.py:2");
    assert_eq!(display_path("/proj/app.py", "", 1), "/proj/app.py:1");
}

#[test]
fn decimal_rendering_is_exact() {
    assert_eq!(u32_dec(0), "0");
    assert_eq!(u32_dec(7), "7");
    assert_eq!(u32_dec(405), "405");
    assert_eq!(u32_dec(4294967295), "4294967295");
}

#[test]
fn qualname_prefers_the_compiler_provided_name() {
    let mut q = qual_all_none();
    q.co_qualname = Some(String::from("Handler.get"));
    q.module = Some(String::from("myapp.views"));
    q.caller_local = Some(DottedName {
        module: String::from("other"),
        qualname: String::from("wrong"),
    });
    assert_eq!(resolve_qualname("get", &q), "myapp.views.Handler.get");
}

#[test]
fn qualname_of_a_module_init_frame() {
    let mut q = qual_all_none();
    q.module = Some(String::from("myapp.models"));
    assert_eq!(resolve_qualname("<module>", &q), "myapp.models.<module>");
}

#[test]
fn qualname_falls_back_through_the_chain() {
    let mut q = qual_all_none();
    q.self_attr = Some(DottedName {
        module: String::from("myapp"),
        qualname: String::from("Thing.run"),
    });
    assert_eq!(resolve_qualname("run", &q), "myapp.Thing.run");

    let mut q2 = qual_all_none();
    q2.global_attr = Some(DottedName {
        module: String::from("myapp"),
        qualname: String::from("top"),
    });
    assert_eq!(resolve_qualname("top", &q2), "myapp.top");
}

#[test]
fn qualname_degrades_to_unknown() {
    assert_eq!(resolve_qualname("anything", &qual_all_none()), "unknown");
}

#[test]
fn qualname_override_needs_the_module() {
    let mut q = qual_all_none();
    q.local_override = Some(String::from("Meta.build"));
    // No module name: the override step fails and the chain runs on.
    assert_eq!(resolve_qualname("build", &q), "unknown");
    q.module = Some(String::from("myapp"));
    assert_eq!(resolve_qualname("build", &q), "myapp.Meta.build");
}

#[test]
fn substring_matching_is_exact() {
    assert!(contains_substr("/a/site-packages/b.py", "/site-packages/"));
    assert!(!contains_substr("/a/site-package/b.py", "/site-packages/"));
    assert!(contains_substr("abc", ""));
    assert!(!contains_substr("ab", "abc"));
    assert!(starts_with_str("<attrs generated init>", "<attrs generated"));
    assert!(!starts_with_str("x<attrs generated", "<attrs generated"));
    assert!(ends_with_str("/venv/attr/_make.py", "attr/_make.py"));
    assert!(!ends_with_str("attr/_make.pyc", "attr/_make.py"));
    assert!(str_eq("<module>", "<module>"));
    assert!(!str_eq("<module>", "<module> "));
}
