use std::sync::atomic::{AtomicBool, Ordering};
use std::sync::Arc;

use employees::{Error, Settings, Shutdown};

fn flag_set(shutdown: &Shutdown) -> bool {
    let flag: &Arc<AtomicBool> = shutdown.as_ref();
    flag.load(Ordering::SeqCst)
}

#[test]
fn context_error_keeps_its_reason() {
    let e = Error::context("bad context");
    assert!(matches!(&e, Error::Context(r) if r == "bad context"));
    assert_eq!(e.message(), "Invalid context bad context");
}

#[test]
fn other_error_keeps_its_description() {
    let e = Error::other("no more cores");
    assert!(matches!(&e, Error::Other(d) if d == "no more cores"));
    assert_eq!(e.message(), "Failed launch worker: no more cores");
}

#[test]
fn thread_error_message_names_the_os_error() {
    let io = std::io::Error::new(std::io::ErrorKind::OutOfMemory, "no room for a stack");
    let e = Error::thread(io);
    assert!(matches!(&e, Error::Thread(inner) if inner.kind() == std::io::ErrorKind::OutOfMemory));
    assert_eq!(e.message(), "Failed to run worker thread: no room for a stack");
}

#[test]
fn error_debug_names_the_variant() {
    let e = Error::context("bad context");
    assert_eq!(format!("{e:?}"), "Context(\"bad context\")");
}

#[test]
fn default_settings_set_nothing() {
    let (name, stack) = Settings::new().into_parts();
    assert_eq!(name, None);
    assert_eq!(stack, None);
    let (name, stack) = Settings::default().into_parts();
    assert_eq!(name, None);
    assert_eq!(stack, None);
}

#[test]
fn settings_builder_sets_name_and_stack_size() {
    let settings = Settings::new().name("worker").stack_size(1 << 20);
    assert!(settings.has_valid_name());
    let (name, stack) = settings.into_parts();
    assert_eq!(name.as_deref(), Some("worker"));
    assert_eq!(stack, Some(1 << 20));
}

#[test]
fn later_settings_override_earlier_ones() {
    let settings = Settings::new().stack_size(4096).name("alice").name("bob").stack_size(8192);
    let (name, stack) = settings.into_parts();
    assert_eq!(name.as_deref(), Some("bob"));
    assert_eq!(stack, Some(8192));
}

#[test]
fn names_with_null_bytes_are_invalid() {
    assert!(!Settings::new().name("wor\0ker").has_valid_name());
    assert!(!Settings::new().name("\0").has_valid_name());
    assert!(Settings::new().name("").has_valid_name());
    assert!(Settings::new().has_valid_name());
}

#[test]
fn new_shutdown_is_running() {
    let shutdown = Shutdown::new();
    assert!(shutdown.is_running());
    assert!(!flag_set(&shutdown));
}

#[test]
fn stopped_shutdown_is_not_running() {
    let shutdown = Shutdown::new();
    shutdown.stop();
    assert!(!shutdown.is_running());
    shutdown.stop();
    assert!(!shutdown.is_running());
    assert!(flag_set(&shutdown));
}

#[test]
fn clones_share_the_stop_flag() {
    let shutdown = Shutdown::new();
    let clone = shutdown.clone();
    assert!(clone.is_running());
    clone.stop();
    assert!(!shutdown.is_running());
}

#[test]
fn default_shutdown_is_running() {
    let shutdown = Shutdown::default();
    assert!(shutdown.is_running());
    assert!(!flag_set(&shutdown));
}
