use block_meta_rpc::commitment::{CommitmentConfig, RpcContextConfig};
use block_meta_rpc::custom_error::{
    JSON_RPC_INVALID_PARAMS, JSON_RPC_SERVER_ERROR_LONG_TERM_STORAGE_SLOT_SKIPPED,
};
use block_meta_rpc::meta_storage::MetaStorage;
use block_meta_rpc::mysql::ClientError;
use block_meta_rpc::request_processor::{
    BlockHeightFetch, GetBlockHeightStep, GetBlockTimeStep, GetBlocksStep, GetBlocksWithLimitStep,
    GetSlotStep, JsonRpcConfig, JsonRpcRequestProcessor, MAX_GET_CONFIRMED_BLOCKS_RANGE,
};

fn confirmed_context() -> Option<RpcContextConfig> {
    Some(RpcContextConfig {
        commitment: Some(CommitmentConfig::confirmed()),
        min_context_slot: None,
    })
}

fn processed_context() -> Option<RpcContextConfig> {
    Some(RpcContextConfig {
        commitment: Some(CommitmentConfig::processed()),
        min_context_slot: None,
    })
}

fn processor_with_storage() -> JsonRpcRequestProcessor {
    JsonRpcRequestProcessor::new(
        JsonRpcConfig::default_for_storage_rpc(),
        Some(MetaStorage::new(true, None)),
    )
}

fn processor_without_storage() -> JsonRpcRequestProcessor {
    JsonRpcRequestProcessor::new(JsonRpcConfig::default_for_storage_rpc(), None)
}

/// The slots a table scan answers: ascending keys at or after `start`,
/// capped at `limit` rows.
fn scan(table: &[u64], start: u64, limit: usize) -> Vec<u64> {
    table
        .iter()
        .copied()
        .filter(|slot| *slot >= start)
        .take(limit)
        .collect()
}

#[test]
fn get_blocks_inverted_range_returns_empty_without_query() {
    let processor = processor_with_storage();
    let step = processor.get_blocks(10, Some(5), confirmed_context()).unwrap();
    assert_eq!(step, GetBlocksStep::Done(vec![]));
}

#[test]
fn get_blocks_rejects_range_over_maximum() {
    let processor = processor_with_storage();
    let end = MAX_GET_CONFIRMED_BLOCKS_RANGE + 1;
    let err = processor.get_blocks(0, Some(end), confirmed_context()).unwrap_err();
    assert_eq!(err.code, JSON_RPC_INVALID_PARAMS);
    assert_eq!(err.message, "Slot range too large; max 500000");
    assert!(err.data.is_none());
}

#[test]
fn get_blocks_accepts_range_at_exactly_the_maximum() {
    let processor = processor_with_storage();
    let end = MAX_GET_CONFIRMED_BLOCKS_RANGE;
    let step = processor.get_blocks(0, Some(end), confirmed_context()).unwrap();
    match step {
        GetBlocksStep::Fetch { query, end_slot } => {
            assert_eq!(end_slot, end);
            assert_eq!(
                query,
                "SELECT id FROM sol_mainnet_block WHERE id >= '0' LIMIT 500001"
            );
        }
        other => panic!("expected a fetch step, got {:?}", other),
    }
}

#[test]
fn get_blocks_without_end_slot_covers_the_widest_range() {
    let processor = processor_with_storage();
    let step = processor.get_blocks(5, None, confirmed_context()).unwrap();
    match step {
        GetBlocksStep::Fetch { query, end_slot } => {
            assert_eq!(end_slot, 5 + MAX_GET_CONFIRMED_BLOCKS_RANGE);
            assert_eq!(
                query,
                "SELECT id FROM sol_mainnet_block WHERE id >= '5' LIMIT 500001"
            );
        }
        other => panic!("expected a fetch step, got {:?}", other),
    }
}

#[test]
fn get_blocks_with_limit_rejects_limit_over_maximum() {
    let processor = processor_with_storage();
    let limit = (MAX_GET_CONFIRMED_BLOCKS_RANGE + 1) as usize;
    let err = processor
        .get_blocks_with_limit(0, limit, Some(CommitmentConfig::confirmed()))
        .unwrap_err();
    assert_eq!(err.code, JSON_RPC_INVALID_PARAMS);
    assert_eq!(err.message, "Limit too large; max 500000");
}

#[test]
fn get_blocks_with_limit_accepts_limit_at_exactly_the_maximum() {
    let processor = processor_with_storage();
    let limit = MAX_GET_CONFIRMED_BLOCKS_RANGE as usize;
    let step = processor
        .get_blocks_with_limit(7, limit, Some(CommitmentConfig::confirmed()))
        .unwrap();
    assert!(matches!(step, GetBlocksWithLimitStep::Fetch { .. }));
}

#[test]
fn get_block_time_genesis_is_fixed_regardless_of_storage() {
    let with_storage = processor_with_storage();
    let without_storage = processor_without_storage();
    assert_eq!(with_storage.get_block_time(0), GetBlockTimeStep::Done(Some(0)));
    assert_eq!(without_storage.get_block_time(0), GetBlockTimeStep::Done(Some(0)));
}

#[test]
fn absent_storage_methods_default_without_error() {
    let processor = processor_without_storage();
    assert_eq!(processor.get_first_available_block(), GetSlotStep::Done(0));
    assert_eq!(
        processor.get_slot(RpcContextConfig::default()),
        GetSlotStep::Done(0)
    );
    assert_eq!(
        processor.get_block_height(RpcContextConfig::default()),
        GetBlockHeightStep::Done(0)
    );
    assert_eq!(processor.get_block_time(5), GetBlockTimeStep::Done(None));
    let blocks = processor.get_blocks(1, Some(3), confirmed_context()).unwrap();
    assert_eq!(blocks, GetBlocksStep::Done(vec![]));
    let limited = processor
        .get_blocks_with_limit(1, 3, Some(CommitmentConfig::confirmed()))
        .unwrap();
    assert_eq!(limited, GetBlocksWithLimitStep::Done(vec![]));
}

#[test]
fn block_time_missing_row_reports_slot_skipped_not_backend_error() {
    let processor = processor_with_storage();
    assert!(matches!(
        processor.get_block_time(7),
        GetBlockTimeStep::Fetch { .. }
    ));
    let err = processor
        .get_block_time_response(7, Err(ClientError::RowNotFound))
        .unwrap_err();
    assert_eq!(err.code, JSON_RPC_SERVER_ERROR_LONG_TERM_STORAGE_SLOT_SKIPPED);
    assert_eq!(
        err.message,
        "Slot 7 was skipped, or missing in long-term storage"
    );
    // A backend execution failure masks to an unknown time instead.
    let masked = processor
        .get_block_time_response(7, Err(ClientError::MySQL(String::from("boom"))))
        .unwrap();
    assert_eq!(masked, None);
}

#[test]
fn block_time_valid_row_round_trips_seconds() {
    let processor = processor_with_storage();
    let answered = processor
        .get_block_time_response(7, Ok((1_431_648_000, 250_000_000)))
        .unwrap();
    assert_eq!(answered, Some(1_431_648_000));
}

#[test]
fn block_time_out_of_range_row_reports_slot_skipped() {
    // A stored time outside the representable range cannot normalize, and
    // the slot is reported missing; the wrapper must not echo it back.
    let processor = processor_with_storage();
    let err = processor
        .get_block_time_response(9, Ok((i64::MIN, 0)))
        .unwrap_err();
    assert_eq!(err.code, JSON_RPC_SERVER_ERROR_LONG_TERM_STORAGE_SLOT_SKIPPED);
    assert_eq!(
        err.message,
        "Slot 9 was skipped, or missing in long-term storage"
    );
}

#[test]
fn confirmed_blocks_scenario() {
    let table = [100u64, 101, 105, 110];
    let processor = processor_with_storage();
    let storage = processor.metadata_storage.as_ref().unwrap();

    // The store-level range lookup: three rows from slot 100.
    let query = storage.get_confirmed_blocks_query(100, 3).unwrap();
    assert_eq!(
        query,
        "SELECT id FROM sol_mainnet_block WHERE id >= '100' LIMIT 3"
    );
    let fetched = scan(&table, 100, 3);
    let blocks = MetaStorage::get_confirmed_blocks_result(Ok(fetched)).unwrap();
    assert_eq!(blocks, vec![100, 101, 105]);

    // The range request 100..=105 asks one row beyond the width and trims.
    let step = processor.get_blocks(100, Some(105), confirmed_context()).unwrap();
    let (query, end_slot) = match step {
        GetBlocksStep::Fetch { query, end_slot } => (query, end_slot),
        other => panic!("expected a fetch step, got {:?}", other),
    };
    assert_eq!(end_slot, 105);
    assert_eq!(
        query,
        "SELECT id FROM sol_mainnet_block WHERE id >= '100' LIMIT 6"
    );
    let answered = processor
        .get_blocks_response(end_slot, Ok(scan(&table, 100, 6)))
        .unwrap();
    assert_eq!(answered, vec![100, 101, 105]);

    // A gap range answers empty.
    let step = processor.get_blocks(102, Some(104), confirmed_context()).unwrap();
    let (query, end_slot) = match step {
        GetBlocksStep::Fetch { query, end_slot } => (query, end_slot),
        other => panic!("expected a fetch step, got {:?}", other),
    };
    assert_eq!(end_slot, 104);
    let answered = processor
        .get_blocks_response(end_slot, Ok(scan(&table, 102, 3)))
        .unwrap();
    assert_eq!(answered, Vec::<u64>::new());
}

#[test]
fn commitment_below_confirmed_rejected_regardless_of_range() {
    let processor = processor_with_storage();
    for (start, end) in [(0u64, Some(10u64)), (10, Some(5)), (0, Some(u64::MAX))] {
        let err = processor.get_blocks(start, end, processed_context()).unwrap_err();
        assert_eq!(err.code, JSON_RPC_INVALID_PARAMS);
        assert_eq!(
            err.message,
            "Method does not support commitment below `confirmed`"
        );
    }
    let err = processor
        .get_blocks_with_limit(0, 1, Some(CommitmentConfig::processed()))
        .unwrap_err();
    assert_eq!(err.code, JSON_RPC_INVALID_PARAMS);
}

#[test]
fn backend_failure_surfaces_for_ranges_but_defaults_for_limits() {
    // The asymmetry is deliberate: the range request surfaces a failed
    // query, the limited request masks it to an empty list.
    let processor = processor_with_storage();
    let err = processor
        .get_blocks_response(10, Err(ClientError::Timeout))
        .unwrap_err();
    assert_eq!(err.code, JSON_RPC_INVALID_PARAMS);
    assert_eq!(
        err.message,
        "MySQL query failed (maybe timeout due to too large range?)"
    );
    let masked = processor
        .get_blocks_with_limit_response(Err(ClientError::Timeout))
        .unwrap();
    assert_eq!(masked, Vec::<u64>::new());
}

#[test]
fn boundary_slots_round_trip() {
    // A snapshot holding slots 42..=999: the boundary queries read back
    // exactly the inserted boundary values.
    let table = [42u64, 100, 999];
    let processor = processor_with_storage();
    assert!(matches!(
        processor.get_first_available_block(),
        GetSlotStep::Fetch { .. }
    ));
    let first = processor.get_first_available_block_response(Ok(table.first().copied()));
    assert_eq!(first, 42);
    let latest = processor
        .get_slot_response(Ok(table.last().copied()))
        .unwrap();
    assert_eq!(latest, 999);
}

#[test]
fn slot_and_first_block_mask_every_failure_to_zero() {
    let processor = processor_with_storage();
    assert_eq!(
        processor.get_first_available_block_response(Err(ClientError::Timeout)),
        0
    );
    assert_eq!(processor.get_first_available_block_response(Ok(None)), 0);
    assert_eq!(
        processor.get_slot_response(Err(ClientError::RowNotFound)).unwrap(),
        0
    );
    assert_eq!(processor.get_slot_response(Ok(None)).unwrap(), 0);
}

#[test]
fn block_height_resolves_in_two_steps() {
    let processor = processor_with_storage();
    let step = processor.get_block_height(RpcContextConfig::default());
    match step {
        GetBlockHeightStep::Fetch { query } => {
            assert_eq!(query, "SELECT MAX(`id`) AS last_key FROM `solana_blocks`");
        }
        other => panic!("expected a fetch step, got {:?}", other),
    }
    let next = processor
        .get_block_height_latest_response(Ok(Some(360)))
        .unwrap();
    let (query, latest_id) = match next {
        BlockHeightFetch::Fetch { query, latest_id } => (query, latest_id),
        other => panic!("expected a fetch step, got {:?}", other),
    };
    assert_eq!(latest_id, 360);
    assert_eq!(
        query,
        "SELECT `block_height` FROM `solana_blocks` WHERE `id` = '360' LIMIT 1"
    );
    let height = processor
        .get_block_height_value_response(360, Ok(2048))
        .unwrap();
    assert_eq!(height, 2048);
}

#[test]
fn block_height_empty_table_reports_zero_slot_skipped() {
    let processor = processor_with_storage();
    let err = processor
        .get_block_height_latest_response(Ok(None))
        .unwrap_err();
    assert_eq!(err.code, JSON_RPC_SERVER_ERROR_LONG_TERM_STORAGE_SLOT_SKIPPED);
    assert_eq!(
        err.message,
        "Slot 0 was skipped, or missing in long-term storage"
    );
}

#[test]
fn block_height_failures_mask_to_zero_but_missing_row_reports_identifier() {
    let processor = processor_with_storage();
    let masked = processor
        .get_block_height_latest_response(Err(ClientError::Timeout))
        .unwrap();
    assert_eq!(masked, BlockHeightFetch::Done(0));
    let masked = processor
        .get_block_height_value_response(360, Err(ClientError::Timeout))
        .unwrap();
    assert_eq!(masked, 0);
    let err = processor
        .get_block_height_value_response(360, Err(ClientError::RowNotFound))
        .unwrap_err();
    assert_eq!(err.code, JSON_RPC_SERVER_ERROR_LONG_TERM_STORAGE_SLOT_SKIPPED);
    assert_eq!(
        err.message,
        "Slot 360 was skipped, or missing in long-term storage"
    );
}
