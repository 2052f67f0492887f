//! Axum API compatibility for product hosts: the state that coordinator mounts are built with.
//!
//! Coordinator mounts are **fail closed by default**: unauthenticated requests are rejected
//! unless the host opts into open lab mode ([`OPEN_LAB_MODE_ENV`]) or calls
//! [`BosonStateBuilder::require_admin_auth`] with `false`. Installing a verifier through
//! [`BosonStateBuilder::admin_auth`] always turns require-admin on.
//!
//! The state is generic over the runtime `T` (held behind an `Arc`) and the admin verifier
//! handle `A`; hosts instantiate it with the Boson runtime and their verifier.

pub mod auth;

pub use auth::{
    open_lab_flag, parse_open_lab_mode, require_admin_auth_default, require_admin_by_default, OPEN_LAB_MODE_ENV,
};

use std::sync::Arc;
use vstd::prelude::*;

verus! {

/// Error type of the upstream state builder; the coordinator builder never returns it.
#[verifier::external_type_specification]
#[verifier::external_body]
pub struct ExBosonAxumError(boson_axum::BosonAxumError);

/// Nest path for the Boson HTTP API.
pub const NEST_PATH: &'static str = "/api/boson";

/// Shared state for Boson API handlers: the runtime, the optional admin verifier, and whether
/// requests without a verifier are rejected.
pub struct BosonState<T, A> {
    /// Boson runtime for admin and enqueue operations.
    pub boson: Arc<T>,
    /// Optional host verifier for admin routes.
    pub admin_auth: Option<A>,
    /// When true, requests are rejected if `admin_auth` is `None`.
    pub require_admin_auth: bool,
}

/// Why a state could not be created.
#[derive(Debug, Clone, Copy, PartialEq, Eq)]
pub enum BosonStateError {
    /// The coordinator backend does not wrap an in-process runtime (e.g. a remote backend).
    NotAdapterBacked,
}

impl BosonStateError {
    /// Operator-safe message of the error.
    pub fn message(&self) -> (message: &'static str)
        ensures
            message@ == "BosonState requires CoordinatorAdapter-backed runtime"@,
    {
        match self {
            BosonStateError::NotAdapterBacked => "BosonState requires CoordinatorAdapter-backed runtime",
        }
    }
}

/// The state a coordinator mount starts from: no verifier, require-admin from the default.
pub open spec fn is_coordinator_default<T, A>(
    state: BosonState<T, A>,
    boson: Arc<T>,
    open_lab_value: Option<&str>,
) -> bool {
    &&& state.boson == boson
    &&& state.admin_auth is None
    &&& state.require_admin_auth == require_admin_by_default(open_lab_value)
}

fn coordinator_axum_state<T, A>(boson: Arc<T>, open_lab_value: Option<&str>) -> (state: BosonState<T, A>)
    ensures
        is_coordinator_default(state, boson, open_lab_value),
        !state.require_admin_auth <==> (open_lab_value is Some && open_lab_flag(open_lab_value->0@)),
{
    BosonState {
        boson,
        admin_auth: None,
        require_admin_auth: require_admin_auth_default(open_lab_value),
    }
}

impl<T, A> BosonState<T, A> {
    /// Create from the runtime that a coordinator backend exposes (`None` when the backend is
    /// not adapter-backed); admin routes require auth by default.
    pub fn new(runtime: Option<Arc<T>>, open_lab_value: Option<&str>) -> (state: Result<Self, BosonStateError>)
        ensures
            runtime is None ==> state == Err::<Self, BosonStateError>(BosonStateError::NotAdapterBacked),
            runtime is Some ==> state is Ok && is_coordinator_default(state->Ok_0, runtime->0, open_lab_value),
            state is Ok ==> (!state->Ok_0.require_admin_auth <==> (open_lab_value is Some
                && open_lab_flag(open_lab_value->0@))),
    {
        match runtime {
            Some(boson) => Ok(coordinator_axum_state(boson, open_lab_value)),
            None => Err(BosonStateError::NotAdapterBacked),
        }
    }

    /// Create directly from the runtime (fail-closed require-admin by default).
    pub fn from_runtime(boson: Arc<T>, open_lab_value: Option<&str>) -> (state: Self)
        ensures
            is_coordinator_default(state, boson, open_lab_value),
            !state.require_admin_auth <==> (open_lab_value is Some && open_lab_flag(open_lab_value->0@)),
    {
        coordinator_axum_state(boson, open_lab_value)
    }

    /// Builder that installs an admin verifier and fail-closed require-admin.
    pub fn builder(boson: Arc<T>, open_lab_value: Option<&str>) -> (builder: BosonStateBuilder<T, A>)
        ensures
            builder.runtime() == boson,
            builder.installed_admin_auth() is None,
            builder.requested_admin_auth() == require_admin_by_default(open_lab_value),
            !builder.requested_admin_auth() <==> (open_lab_value is Some && open_lab_flag(
                open_lab_value->0@,
            )),
    {
        BosonStateBuilder {
            boson,
            admin_auth: None,
            require_admin_auth: require_admin_auth_default(open_lab_value),
        }
    }
}

/// Build a [`BosonState`] with admin auth (coordinator fail-closed defaults).
pub struct BosonStateBuilder<T, A> {
    boson: Arc<T>,
    admin_auth: Option<A>,
    require_admin_auth: bool,
}

/// The require-admin flag of a built state: on when requested or when a verifier is installed.
pub open spec fn built_require_admin_auth(requested: bool, verifier_installed: bool) -> bool {
    requested || verifier_installed
}

impl<T, A> BosonStateBuilder<T, A> {
    /// The runtime the state will hold.
    pub closed spec fn runtime(&self) -> Arc<T> {
        self.boson
    }

    /// The verifier installed so far.
    pub closed spec fn installed_admin_auth(&self) -> Option<A> {
        self.admin_auth
    }

    /// The require-admin flag requested so far.
    pub closed spec fn requested_admin_auth(&self) -> bool {
        self.require_admin_auth
    }

    /// Install a host admin verifier.
    pub fn admin_auth(self, auth: A) -> (builder: Self)
        ensures
            builder.runtime() == self.runtime(),
            builder.installed_admin_auth() == Some(auth),
            builder.requested_admin_auth() == self.requested_admin_auth(),
    {
        let mut builder = self;
        builder.admin_auth = Some(auth);
        builder
    }

    /// Force require-admin-auth. Default is **`true`** (fail closed); pass `false` only for
    /// explicit open-lab mounts.
    pub fn require_admin_auth(self, require: bool) -> (builder: Self)
        ensures
            builder.runtime() == self.runtime(),
            builder.installed_admin_auth() == self.installed_admin_auth(),
            builder.requested_admin_auth() == require,
    {
        let mut builder = self;
        builder.require_admin_auth = require;
        builder
    }

    /// Build state.
    ///
    /// When a verifier is installed, `require_admin_auth` is forced on. When require is on and
    /// no verifier is installed, construction succeeds and requests are rejected at request time.
    pub fn build(self) -> (state: Result<BosonState<T, A>, boson_axum::BosonAxumError>)
        ensures
            state is Ok,
            state->Ok_0.boson == self.runtime(),
            state->Ok_0.admin_auth == self.installed_admin_auth(),
            state->Ok_0.require_admin_auth == built_require_admin_auth(
                self.requested_admin_auth(),
                self.installed_admin_auth() is Some,
            ),
            state->Ok_0.require_admin_auth == (self.requested_admin_auth() || self.installed_admin_auth() is Some),
    {
        let require_admin_auth = self.require_admin_auth || self.admin_auth.is_some();
        Ok(BosonState { boson: self.boson, admin_auth: self.admin_auth, require_admin_auth })
    }
}

/// Installing a verifier always yields a state that requires admin auth.
pub proof fn lemma_verifier_forces_require_admin(requested: bool)
    ensures
        built_require_admin_auth(requested, true),
{
}

/// A state built without a verifier requires admin auth exactly when it was requested; the
/// default request is the fail-closed default.
pub proof fn lemma_default_builder_is_fail_closed(open_lab_value: Option<&str>)
    ensures
        built_require_admin_auth(require_admin_by_default(open_lab_value), false)
            == require_admin_by_default(open_lab_value),
        open_lab_value is None ==> built_require_admin_auth(
            require_admin_by_default(open_lab_value),
            false,
        ),
{
}

/// A coordinator mount (from `new` or `from_runtime`) starts without a verifier, holds the given
/// runtime, and leaves require-admin off exactly when the open-lab value is present and reads
/// as truthy: any other value (`0`, `off`, ...) or no value keeps the mount fail closed.
pub proof fn lemma_coordinator_mount_is_fail_closed<T, A>(
    state: BosonState<T, A>,
    boson: Arc<T>,
    open_lab_value: Option<&str>,
)
    requires
        is_coordinator_default(state, boson, open_lab_value),
    ensures
        state.boson == boson,
        state.admin_auth is None,
        !state.require_admin_auth <==> (open_lab_value is Some && open_lab_flag(open_lab_value->0@)),
{
}

} // verus!
