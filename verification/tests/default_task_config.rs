use std::future::Future;
use std::pin::Pin;

use boson_coordinator::default_task_config::{bootstrap_task_names, default_task_config_names};
use boson_core::ExecutionContext;
use boson_runtime::{TaskDescriptor, TaskRegistry};

fn noop_task(
    _context: Box<dyn ExecutionContext>,
    _params: serde_json::Value,
) -> Pin<Box<dyn Future<Output = boson_core::Result<()>> + Send + 'static>> {
    Box::pin(async { Ok(()) })
}

fn registry_of(names: &[&'static str]) -> TaskRegistry {
    let mut registry = TaskRegistry::new();
    for name in names {
        let descriptor: &'static TaskDescriptor = Box::leak(Box::new(TaskDescriptor::new(name, noop_task)));
        registry.register(descriptor);
    }
    registry
}

fn strings(names: &[&str]) -> Vec<String> {
    names.iter().map(|s| s.to_string()).collect()
}

#[test]
fn bootstrap_without_skip_selects_every_task() {
    let names = strings(&["alpha", "beta", "gamma"]);
    assert_eq!(bootstrap_task_names(&names, &Vec::new()), names);
}

#[test]
fn bootstrap_skips_listed_tasks_in_order() {
    let names = strings(&["alpha", "beta", "gamma", "delta"]);
    let skip = strings(&["gamma", "alpha", "unknown"]);
    assert_eq!(bootstrap_task_names(&names, &skip), strings(&["beta", "delta"]));
}

#[test]
fn bootstrap_skip_is_exact_match() {
    let names = strings(&["test_echo", "test_echo2"]);
    let skip = strings(&["test_echo", "TEST_ECHO2"]);
    assert_eq!(bootstrap_task_names(&names, &skip), strings(&["test_echo2"]));
}

#[test]
fn bootstrap_of_empty_registry() {
    assert!(bootstrap_task_names(&Vec::new(), &strings(&["a"])).is_empty());
}

#[test]
fn registry_names_are_sorted_and_skip_applies() {
    let registry = registry_of(&["zeta", "alpha", "mid", "beta"]);
    let names = default_task_config_names(&registry, &strings(&["mid"]));
    assert_eq!(names, strings(&["alpha", "beta", "zeta"]));
}

#[test]
fn registry_names_without_skip() {
    let registry = registry_of(&["test_echo", "example_echo"]);
    let names = default_task_config_names(&registry, &Vec::new());
    assert_eq!(names, strings(&["example_echo", "test_echo"]));
}

#[test]
fn registry_duplicate_registration_is_listed_once() {
    let registry = registry_of(&["dup", "dup", "b"]);
    let names = default_task_config_names(&registry, &Vec::new());
    assert_eq!(names, strings(&["b", "dup"]));
}

#[test]
fn empty_registry_bootstraps_nothing() {
    let registry = TaskRegistry::new();
    assert!(default_task_config_names(&registry, &Vec::new()).is_empty());
}
