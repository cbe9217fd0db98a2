//! Service host decisions: how the startup configuration resolves into the
//! worker count, body-size cap, method-set gate, and optional store
//! parameters; and the shared exit registry through which shutdown is
//! coordinated. The threads, listener, and one-shot startup handshake live
//! with the host program, which carries out what is decided here.

use vstd::prelude::*;

use crate::meta_storage::MetaStorageConfig;
use crate::request_processor::{JsonRpcConfig, MAX_REQUEST_BODY_SIZE};

verus! {

/// The resolved startup settings of the service host.
#[derive(Clone, Debug)]
pub struct ServiceSettings {
    /// Worker thread count, at least one.
    pub rpc_threads: usize,
    /// Scheduling-priority adjustment each worker applies.
    pub rpc_niceness_adj: i8,
    /// Whether the full method set is exposed.
    pub full_api: bool,
    /// The accepted request body cap, in bytes.
    pub max_request_body_size: usize,
    /// Store connection parameters, when storage is configured. The store is
    /// established read-only.
    pub storage_config: Option<MetaStorageConfig>,
}

/// Resolve the startup configuration: the worker count is raised to at
/// least one, the body cap defaults when unset, and present backend
/// parameters carry over into read-only store parameters.
pub fn service_settings(config: &JsonRpcConfig) -> (r: ServiceSettings)
    ensures
        r.rpc_threads == if config.rpc_threads == 0 {
            1usize
        } else {
            config.rpc_threads
        },
        r.rpc_niceness_adj == config.rpc_niceness_adj,
        r.full_api == config.full_api,
        r.max_request_body_size == match config.max_request_body_size {
            Some(n) => n,
            None => MAX_REQUEST_BODY_SIZE,
        },
        config.rpc_mysql_config is None ==> r.storage_config is None,
        config.rpc_mysql_config matches Some(m) ==> (r.storage_config matches Some(s) && {
            &&& s.read_only
            &&& s.timeout == m.timeout
            &&& s.host@ == m.host@
            &&& s.port == m.port
            &&& s.username@ == m.username@
            &&& s.password@ == m.password@
            &&& s.db_name@ == m.db_name@
        }),
{
    let rpc_threads: usize = if config.rpc_threads == 0 {
        1
    } else {
        config.rpc_threads
    };
    let max_request_body_size: usize = match config.max_request_body_size {
        Some(n) => n,
        None => MAX_REQUEST_BODY_SIZE,
    };
    let storage_config: Option<MetaStorageConfig> = match &config.rpc_mysql_config {
        Some(m) => Some(
            MetaStorageConfig {
                read_only: true,
                timeout: m.timeout,
                host: m.host.clone(),
                port: m.port,
                username: m.username.clone(),
                password: m.password.clone(),
                db_name: m.db_name.clone(),
            },
        ),
        None => None,
    };
    ServiceSettings {
        rpc_threads,
        rpc_niceness_adj: config.rpc_niceness_adj,
        full_api: config.full_api,
        max_request_body_size,
        storage_config,
    }
}

/// The shared shutdown coordinator: release actions are registered while the
/// service runs and all invoked exactly once when the registry fires.
///
/// The actions themselves are owned by the host program; this registry
/// decides, for each registration and each firing, how many actions the
/// caller must invoke, so that every registered action runs exactly once
/// even when registration races the firing.
#[derive(Clone, Copy, Debug, PartialEq, Eq, Structural)]
pub struct ExitRegistry {
    /// Whether the registry has fired.
    pub exited: bool,
    /// How many registered actions have not yet been released.
    pub pending: usize,
}

impl ExitRegistry {
    pub fn new() -> (r: Self)
        ensures
            !r.exited,
            r.pending == 0,
    {
        ExitRegistry { exited: false, pending: 0 }
    }

    /// Register one release action. When the registry has already fired the
    /// caller must run the action at once; otherwise it is held pending.
    pub fn register_exit(&mut self) -> (run_now: bool)
        requires
            old(self).pending < usize::MAX,
        ensures
            final(self).exited == old(self).exited,
            run_now == old(self).exited,
            old(self).exited ==> final(self).pending == old(self).pending,
            !old(self).exited ==> final(self).pending == old(self).pending + 1,
    {
        if self.exited {
            true
        } else {
            self.pending = self.pending + 1;
            false
        }
    }

    /// Fire the registry: the caller must invoke every pending action. A
    /// second firing finds none pending, so firing is idempotent.
    pub fn exit(&mut self) -> (to_run: usize)
        ensures
            final(self).exited,
            final(self).pending == 0,
            to_run == old(self).pending,
    {
        self.exited = true;
        let to_run = self.pending;
        self.pending = 0;
        to_run
    }
}

impl Default for ExitRegistry {
    fn default() -> (r: Self)
        ensures
            !r.exited,
            r.pending == 0,
    {
        ExitRegistry::new()
    }
}

} // verus!
