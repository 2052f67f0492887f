use std::sync::Arc;

use boson_coordinator::axum_api::{BosonState, BosonStateError, NEST_PATH};
use boson_coordinator::CoordinatorAdapter;

#[test]
fn nest_path_value() {
    assert_eq!(NEST_PATH, "/api/boson");
}

#[test]
fn boson_state_new_rejects_non_adapter_backend() {
    match BosonState::<u32, &'static str>::new(None, None) {
        Ok(_) => panic!("expected non-adapter backend to be rejected"),
        Err(err) => {
            assert_eq!(err, BosonStateError::NotAdapterBacked);
            assert!(err.message().contains("CoordinatorAdapter-backed runtime"));
        }
    }
}

#[test]
fn boson_state_from_adapter_runtime() {
    let adapter = CoordinatorAdapter::new(Arc::new(7u32));
    let state = BosonState::<u32, &'static str>::new(adapter.as_boson_runtime(), None)
        .expect("adapter-backed runtime");
    assert_eq!(*state.boson, 7);
    assert!(state.admin_auth.is_none());
    assert!(state.require_admin_auth);
}

#[test]
fn from_runtime_is_fail_closed_without_open_lab() {
    let state = BosonState::<u32, &'static str>::from_runtime(Arc::new(1), None);
    assert!(state.require_admin_auth);
    assert!(state.admin_auth.is_none());
}

#[test]
fn from_runtime_open_lab_allows_unauthenticated() {
    let state = BosonState::<u32, &'static str>::from_runtime(Arc::new(1), Some("1"));
    assert!(!state.require_admin_auth);
}

#[test]
fn builder_default_fail_closed_build_succeeds() {
    let state = BosonState::<u32, &'static str>::builder(Arc::new(3), None)
        .build()
        .expect("default builder succeeds; auth enforced at request time");
    assert!(state.require_admin_auth);
    assert!(state.admin_auth.is_none());
    assert_eq!(*state.boson, 3);
}

#[test]
fn builder_installed_verifier_forces_require() {
    let state = BosonState::<u32, &'static str>::builder(Arc::new(3), Some("yes"))
        .admin_auth("lab-secret")
        .require_admin_auth(false)
        .build()
        .expect("token auth");
    assert!(state.require_admin_auth);
    assert_eq!(state.admin_auth, Some("lab-secret"));
}

#[test]
fn builder_explicit_open_lab_without_verifier() {
    let state = BosonState::<u32, &'static str>::builder(Arc::new(3), None)
        .require_admin_auth(false)
        .build()
        .expect("open lab");
    assert!(!state.require_admin_auth);
}

#[test]
fn builder_require_with_verifier() {
    let state = BosonState::<u32, &'static str>::builder(Arc::new(3), Some("1"))
        .admin_auth("allow-all")
        .require_admin_auth(true)
        .build()
        .expect("require_admin with verifier");
    assert!(state.require_admin_auth);
    assert_eq!(state.admin_auth, Some("allow-all"));
}

#[test]
fn builder_open_lab_default_without_verifier() {
    let state = BosonState::<u32, &'static str>::builder(Arc::new(3), Some(" true "))
        .build()
        .expect("open lab default");
    assert!(!state.require_admin_auth);
}
