use tealr::embed_compiler::{
    after_find, first_line, primed_vm_source, require_script, spawn_failure_message, FindStep,
    SpawnFailure,
};
use tealr::NamePart;

#[test]
fn primed_vm_wraps_the_compiler() {
    assert_eq!(
        primed_vm_source("return {}"),
        "local tl = (function()\nreturn {}\nend)()\ntl.loader()\n"
    );
}

#[test]
fn require_script_loads_the_file_after_priming() {
    assert_eq!(require_script("PRIME", "main"), "PRIME\n return require('main')");
}

#[test]
fn find_step_follows_success_and_tree() {
    assert_eq!(after_find(true, true), FindStep::TakeFirstLine);
    assert_eq!(after_find(true, false), FindStep::TakeFirstLine);
    assert_eq!(after_find(false, false), FindStep::RetryLocal);
    assert_eq!(after_find(false, true), FindStep::GiveUp);
}

#[test]
fn spawn_failure_messages() {
    assert_eq!(
        spawn_failure_message(SpawnFailure::NotFound),
        "Could not compile teal. Command `tl` not found."
    );
    assert_eq!(
        spawn_failure_message(SpawnFailure::PermissionDenied),
        "Permission denied when running the teal compiler."
    );
    assert_eq!(
        spawn_failure_message(SpawnFailure::Other),
        "Error while running teal. Is it available as `tl` in the path?"
    );
}

#[test]
fn first_line_stops_at_line_feed() {
    assert_eq!(first_line("/usr/share/tl.tl\nmore\n"), Some(String::from("/usr/share/tl.tl")));
    assert_eq!(first_line("a\r\nb"), Some(String::from("a")));
    assert_eq!(first_line("only"), Some(String::from("only")));
    assert_eq!(first_line("only\r"), Some(String::from("only\r")));
    assert_eq!(first_line("\nrest"), Some(String::new()));
    assert_eq!(first_line("\r\nrest"), Some(String::new()));
    assert_eq!(first_line("h\u{e9}llo\nw"), Some(String::from("h\u{e9}llo")));
    assert_eq!(first_line(""), None);
}

#[test]
fn first_line_agrees_with_std_lines() {
    for s in ["a\nb", "a\r\nb", "abc", "\n", "\r\n", "a\rb\nc", "x\r", ""] {
        assert_eq!(first_line(s), s.lines().next().map(String::from));
    }
}

#[test]
fn well_formed_parts_hold_text() {
    assert!(NamePart::symbol("<").is_well_formed());
    assert!(NamePart::named_type("Foo").is_well_formed());
    assert!(!NamePart::symbol("").is_well_formed());
    assert!(!NamePart::named_type("").is_well_formed());
}
