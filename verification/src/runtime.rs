//! The federation runtime: the configuration snapshot and outbound delivery
//! settings captured once, on first use, and shared read-only for the
//! process lifetime. The outbound network client itself lives with the
//! embedding application; every parameter the delivery scheduler decides
//! with is here.

use vstd::prelude::*;
use once_cell::sync::OnceCell;
use crate::policy::{FederationConfig, PolicyError, basic_decision, check_apub_id_valid};
use crate::urls::ApubUrl;

verus! {

/// The fixed outbound request timeout, in seconds.
pub const DEFAULT_REQUEST_TIMEOUT_SECS: u64 = 10;

/// The outbound-delivery settings the runtime is constructed with.
#[derive(Debug)]
pub struct InstanceSettings {
    /// How often a failed outbound HTTP fetch is retried.
    pub http_fetch_retry_limit: i32,
    /// How many outbound delivery workers run.
    pub worker_count: u64,
    /// Forces strictly sequential, synchronous delivery, for deterministic
    /// tests; read from the environment by the embedding application.
    pub testing_send_sync: bool,
    /// The fixed outbound request timeout, in seconds.
    pub request_timeout_secs: u64,
}

/// The federation runtime: the policy configuration snapshot and the
/// delivery settings, captured at creation and never mutated afterwards —
/// re-reading configuration requires a process restart.
#[derive(Debug)]
pub struct FederationRuntime {
    /// The delivery settings.
    pub settings: InstanceSettings,
    /// The policy configuration snapshot, holding among the rest the local
    /// hostname.
    pub config: FederationConfig,
}

impl FederationRuntime {
    /// Captures the configuration snapshot and the delivery settings.
    pub fn new(config: FederationConfig, settings: InstanceSettings) -> (r: FederationRuntime)
        ensures
            r.config == config,
            r.settings == settings,
    {
        FederationRuntime { settings, config }
    }

    /// The domain-check callback wired into every outbound fetch and
    /// delivery: the basic policy decision over this runtime's
    /// configuration snapshot.
    pub fn verify_url(&self, url: &ApubUrl) -> (r: Result<(), PolicyError>)
        ensures
            r == basic_decision(url@, self.config),
    {
        check_apub_id_valid(url, &self.config)
    }
}

/// Runtime construction is deterministic: a runtime is nothing besides the
/// captured configuration and settings, so which of two concurrent
/// first-use constructions ends up stored is unobservable.
pub proof fn lemma_runtime_construction_deterministic(r1: FederationRuntime, r2: FederationRuntime)
    requires
        r1.config == r2.config,
        r1.settings == r2.settings,
    ensures
        r1 == r2,
{
}

#[verifier::external_type_specification]
#[verifier::external_body]
#[verifier::reject_recursive_types(T)]
pub struct ExOnceCell<T>(OnceCell<T>);

/// The process-wide runtime cell. The embedding application holds exactly
/// one; the runtime inside is created on first use and lives for the
/// process lifetime.
pub struct RuntimeCell {
    cell: OnceCell<FederationRuntime>,
}

impl RuntimeCell {
    /// Relies on `once_cell::sync::OnceCell::new`: an empty cell.
    #[verifier::external_body]
    pub fn new() -> RuntimeCell {
        RuntimeCell { cell: OnceCell::new() }
    }

    /// Returns the process-wide runtime, constructing it from the given
    /// configuration and settings on first use. Relies on
    /// `once_cell::sync::OnceCell::get_or_init`: every call returns a
    /// reference to the one stored value; the closure runs at most once, on
    /// first use, and concurrent first calls still initialize exactly once —
    /// every later call returns the first-stored runtime, whatever its own
    /// arguments say. Construction cannot fail once the configuration has
    /// validated at boot.
    #[verifier::external_body]
    pub fn get_or_init(
        &self,
        config: FederationConfig,
        settings: InstanceSettings,
    ) -> &FederationRuntime {
        self.cell.get_or_init(|| FederationRuntime::new(config, settings))
    }
}

} // verus!
