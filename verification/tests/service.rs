use block_meta_rpc::commitment::{CommitmentConfig, CommitmentLevel, RpcContextConfig};
use block_meta_rpc::custom_error::{
    MinContextSlotNotReachedErrorData, RpcCustomError, RpcError, JSON_RPC_MYSQL_ERROR,
    JSON_RPC_SERVER_ERROR_MIN_CONTEXT_SLOT_NOT_REACHED,
};
use block_meta_rpc::middleware::{process_rest, RouteAction, RpcRequestMiddleware};
use block_meta_rpc::mysql::MySQLConfig;
use block_meta_rpc::request_processor::JsonRpcConfig;
use block_meta_rpc::rpc::{blocks_request_params, method_table, RpcBlocksConfigWrapper, RpcMethod};
use block_meta_rpc::rpc_server::{rpc_url_of, RpcServerConfig};
use block_meta_rpc::rpc_service::{service_settings, ExitRegistry};

#[test]
fn commitment_levels_gate_at_confirmed() {
    assert!(!CommitmentConfig::processed().is_at_least_confirmed());
    assert!(CommitmentConfig::confirmed().is_at_least_confirmed());
    assert!(CommitmentConfig::finalized().is_at_least_confirmed());
    // The default commitment is the strongest level, so bare requests pass.
    assert_eq!(CommitmentConfig::default().commitment, CommitmentLevel::Finalized);
}

#[test]
fn custom_error_codes_and_payloads() {
    let err = RpcError::from_custom(RpcCustomError::MinContextSlotNotReached { context_slot: 5 });
    assert_eq!(err.code, JSON_RPC_SERVER_ERROR_MIN_CONTEXT_SLOT_NOT_REACHED);
    assert_eq!(err.code, -32016);
    assert_eq!(err.message, "Minimum context slot has not been reached");
    assert_eq!(err.data, Some(MinContextSlotNotReachedErrorData { context_slot: 5 }));

    let err = RpcError::from_custom(RpcCustomError::MySQLError {
        message: String::from("connection refused"),
    });
    assert_eq!(err.code, JSON_RPC_MYSQL_ERROR);
    assert_eq!(err.code, -32017);
    assert_eq!(err.message, "connection refused");
    assert!(err.data.is_none());

    let err = RpcError::from_custom(RpcCustomError::LongTermStorageSlotSkipped { slot: 3 });
    assert_eq!(err.code, -32009);
    assert_eq!(err.message, "Slot 3 was skipped, or missing in long-term storage");
}

#[test]
fn middleware_routes_health_and_forwards_the_rest() {
    let middleware = RpcRequestMiddleware::new(String::from("log"));
    assert_eq!(middleware.health_check(), "ok");
    assert_eq!(process_rest("/anything"), None);
    match middleware.route_request("/health") {
        RouteAction::Respond(body) => assert_eq!(body, "ok"),
        RouteAction::Forward => panic!("health must be answered directly"),
    }
    assert_eq!(middleware.route_request("/"), RouteAction::Forward);
    assert_eq!(middleware.route_request("/healthz"), RouteAction::Forward);
}

#[test]
fn method_table_gates_the_full_set() {
    let minimal = method_table(false);
    let names: Vec<&str> = minimal.iter().map(|m| m.name()).collect();
    assert_eq!(names, vec!["getHealth", "getSlot", "getBlockHeight", "getVersion"]);
    let full = method_table(true);
    let names: Vec<&str> = full.iter().map(|m| m.name()).collect();
    assert_eq!(
        names,
        vec![
            "getHealth",
            "getSlot",
            "getBlockHeight",
            "getVersion",
            "getBlockTime",
            "getBlocks",
            "getBlocksWithLimit",
            "getFirstAvailableBlock",
        ]
    );
    assert!(!RpcMethod::GetBlocks.is_available(false));
    assert!(RpcMethod::GetHealth.is_available(false));
}

#[test]
fn blocks_request_params_normalize_the_overloaded_parameter() {
    let ctx = RpcContextConfig {
        commitment: Some(CommitmentConfig::confirmed()),
        min_context_slot: None,
    };
    assert_eq!(blocks_request_params(None, None), (None, None));
    assert_eq!(blocks_request_params(None, Some(ctx)), (None, Some(ctx)));
    assert_eq!(
        blocks_request_params(Some(RpcBlocksConfigWrapper::EndSlotOnly(Some(9))), None),
        (Some(9), None)
    );
    assert_eq!(
        blocks_request_params(Some(RpcBlocksConfigWrapper::ConfigOnly(Some(ctx))), None),
        (None, Some(ctx))
    );
    // An explicit context outranks one carried in the wrapper.
    let other = RpcContextConfig {
        commitment: Some(CommitmentConfig::finalized()),
        min_context_slot: Some(1),
    };
    assert_eq!(
        blocks_request_params(Some(RpcBlocksConfigWrapper::ConfigOnly(Some(ctx))), Some(other)),
        (None, Some(other))
    );
}

#[test]
fn service_settings_resolve_the_startup_configuration() {
    let mut config = JsonRpcConfig::default_for_storage_rpc();
    config.rpc_threads = 0;
    let settings = service_settings(&config);
    assert_eq!(settings.rpc_threads, 1);
    assert_eq!(settings.max_request_body_size, 50 * 1024);
    assert!(settings.full_api);
    assert!(settings.storage_config.is_none());

    config.rpc_threads = 8;
    config.max_request_body_size = Some(1024);
    config.rpc_mysql_config = Some(MySQLConfig {
        host: String::from("db.example"),
        port: 3307,
        username: String::from("reader"),
        password: String::from("SECRET-REDACTED"),
        db_name: String::from("ledger"),
        timeout: Some(5),
    });
    let settings = service_settings(&config);
    assert_eq!(settings.rpc_threads, 8);
    assert_eq!(settings.max_request_body_size, 1024);
    let storage = settings.storage_config.unwrap();
    assert!(storage.read_only);
    assert_eq!(storage.host, "db.example");
    assert_eq!(storage.port, 3307);
    assert_eq!(storage.timeout, Some(5));
}

#[test]
fn exit_registry_fires_every_action_exactly_once() {
    let mut registry = ExitRegistry::new();
    assert!(!registry.register_exit());
    assert!(!registry.register_exit());
    assert_eq!(registry.pending, 2);
    assert_eq!(registry.exit(), 2);
    // Firing again finds nothing pending: firing is idempotent.
    assert_eq!(registry.exit(), 0);
    // A registration after the firing must run its action at once.
    assert!(registry.register_exit());
    assert_eq!(registry.pending, 0);
}

#[test]
fn server_config_defaults_and_url() {
    let config = RpcServerConfig::default();
    assert_eq!(config.rpc_port, 8899);
    assert_eq!(config.bind_ip_addr, "0.0.0.0");
    assert!(config.rpc_config.full_api);
    assert_eq!(rpc_url_of("0.0.0.0:8899"), "http://0.0.0.0:8899");
}
