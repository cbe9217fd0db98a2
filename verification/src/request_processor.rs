//! Request processor: validates RPC parameters, applies commitment-level
//! policy, translates each call into a bounded query against the optional
//! metadata store, and decides — per method — whether a backend failure
//! reaches the caller or is masked by a documented default.
//!
//! Methods that need the store return a `Fetch` step holding the exact query
//! to run; the matching `_response` method is then given the executor's
//! reply. A processor without a store answers every method with its default.

use vstd::prelude::*;

use crate::commitment::{
    at_least_confirmed, effective_commitment, effective_commitment_only, CommitmentConfig,
    RpcContextConfig,
};
use crate::custom_error::{
    slot_skipped_text, RpcCustomError, RpcError, JSON_RPC_INVALID_PARAMS,
    JSON_RPC_SERVER_ERROR_LONG_TERM_STORAGE_SLOT_SKIPPED,
};
use crate::meta_storage::{MetaStorage, StorageError};
use crate::mysql::{
    first_key_query_text, last_key_query_text, row_keys_query_text, single_value_query_text,
    ClientError, MySQLConfig,
};
use crate::text::dec_of;

verus! {

/// The largest accepted request body: 50 KiB.
pub const MAX_REQUEST_BODY_SIZE: usize = 50 * 1024;

/// The protocol's cap on the width of a confirmed-blocks range query.
pub const MAX_GET_CONFIRMED_BLOCKS_RANGE: u64 = 500_000;

/// Whether a block exists, as answered to existence checks.
#[derive(Clone, Copy, Debug, PartialEq, Eq, Structural)]
pub struct RpcBlockCheck {
    pub exists: bool,
}

/// Service configuration fixed at startup.
#[derive(Clone, Debug, PartialEq, Eq)]
pub struct JsonRpcConfig {
    /// Backend connection parameters; absent when storage is not configured.
    pub rpc_mysql_config: Option<MySQLConfig>,
    pub rpc_threads: usize,
    pub rpc_niceness_adj: i8,
    /// Whether the full method set is exposed beside the minimal one.
    pub full_api: bool,
    pub obsolete_v1_7_api: bool,
    pub max_request_body_size: Option<usize>,
}

impl Default for JsonRpcConfig {
    fn default() -> (r: Self)
        ensures
            r.rpc_mysql_config is None,
            r.rpc_threads == 0,
            r.rpc_niceness_adj == 0,
            !r.full_api,
            !r.obsolete_v1_7_api,
            r.max_request_body_size is None,
    {
        JsonRpcConfig {
            rpc_mysql_config: None,
            rpc_threads: 0,
            rpc_niceness_adj: 0,
            full_api: false,
            obsolete_v1_7_api: false,
            max_request_body_size: None,
        }
    }
}

impl JsonRpcConfig {
    /// The defaults for a storage RPC node: the full method set enabled.
    pub fn default_for_storage_rpc() -> (r: Self)
        ensures
            r.rpc_mysql_config is None,
            r.rpc_threads == 0,
            r.rpc_niceness_adj == 0,
            r.full_api,
            !r.obsolete_v1_7_api,
            r.max_request_body_size is None,
    {
        let mut r = Self::default();
        r.full_api = true;
        r
    }
}

/// The message rejecting a commitment below confirmed.
pub open spec fn commitment_too_weak_text() -> Seq<char> {
    "Method does not support commitment below `confirmed`"@
}

/// The message rejecting an over-wide slot range.
pub open spec fn slot_range_too_large_text() -> Seq<char> {
    "Slot range too large; max "@ + dec_of(MAX_GET_CONFIRMED_BLOCKS_RANGE as nat)
}

/// The message rejecting an over-large row limit.
pub open spec fn limit_too_large_text() -> Seq<char> {
    "Limit too large; max "@ + dec_of(MAX_GET_CONFIRMED_BLOCKS_RANGE as nat)
}

/// The message reporting a failed range query.
pub open spec fn query_failed_text() -> Seq<char> {
    "MySQL query failed (maybe timeout due to too large range?)"@
}

/// Whether an error is the invalid-params rejection with the given message.
pub open spec fn is_invalid_params(e: RpcError, message: Seq<char>) -> bool {
    &&& e.code == JSON_RPC_INVALID_PARAMS
    &&& e.message@ == message
    &&& e.data is None
}

/// Whether an error reports the given slot skipped or missing in long-term
/// storage.
pub open spec fn is_slot_skipped(e: RpcError, slot: u64) -> bool {
    &&& e.code == JSON_RPC_SERVER_ERROR_LONG_TERM_STORAGE_SLOT_SKIPPED
    &&& e.message@ == slot_skipped_text(slot)
    &&& e.data is None
}

/// Reject a commitment weaker than confirmed.
pub fn check_is_at_least_confirmed(commitment: CommitmentConfig) -> (r: Result<(), RpcError>)
    ensures
        r is Ok <==> at_least_confirmed(commitment),
        r matches Err(e) ==> is_invalid_params(e, commitment_too_weak_text()),
{
    if !commitment.is_at_least_confirmed() {
        return Err(RpcError::invalid_params(String::from_str(
            "Method does not support commitment below `confirmed`",
        )));
    }
    Ok(())
}

/// The inclusive upper bound a blocks request is answered to: the end slot
/// it names, or — when it names none — the widest range the backend accepts.
pub open spec fn effective_end_slot(start_slot: u64, end_slot: Option<u64>) -> u64 {
    match end_slot {
        Some(e) => e,
        None => if start_slot + MAX_GET_CONFIRMED_BLOCKS_RANGE > u64::MAX {
            u64::MAX
        } else {
            (start_slot + MAX_GET_CONFIRMED_BLOCKS_RANGE) as u64
        },
    }
}

/// The continuation of a blocks-range request: either its answer, or the
/// query to run and the bound to filter the reply with.
#[derive(Clone, Debug, PartialEq, Eq)]
pub enum GetBlocksStep {
    Done(Vec<u64>),
    Fetch { query: String, end_slot: u64 },
}

/// The continuation of a limited blocks request.
#[derive(Clone, Debug, PartialEq, Eq)]
pub enum GetBlocksWithLimitStep {
    Done(Vec<u64>),
    Fetch { query: String },
}

/// The continuation of a block-time request.
#[derive(Clone, Debug, PartialEq, Eq)]
pub enum GetBlockTimeStep {
    Done(Option<i64>),
    Fetch { query: String },
}

/// The continuation of a block-height request.
#[derive(Clone, Debug, PartialEq, Eq)]
pub enum GetBlockHeightStep {
    Done(u64),
    Fetch { query: String },
}

/// The second step of a block-height request: resolved, or one more query
/// for the height of the named latest block.
#[derive(Clone, Debug, PartialEq, Eq)]
pub enum BlockHeightFetch {
    Done(u64),
    Fetch { query: String, latest_id: u64 },
}

/// The continuation of a slot request.
#[derive(Clone, Debug, PartialEq, Eq)]
pub enum GetSlotStep {
    Done(u64),
    Fetch { query: String },
}

/// The request processor: the service configuration and the optional
/// metadata store.
#[derive(Clone, Debug)]
pub struct JsonRpcRequestProcessor {
    pub config: JsonRpcConfig,
    pub metadata_storage: Option<MetaStorage>,
}

/// Whether a processor has a metadata store behind it.
pub open spec fn has_storage(p: JsonRpcRequestProcessor) -> bool {
    p.metadata_storage is Some
}

impl JsonRpcRequestProcessor {
    /// The fixed timestamp answered for the genesis slot.
    fn genesis_creation_time(&self) -> (r: i64)
        ensures
            r == 0,
    {
        0
    }

    pub fn new(config: JsonRpcConfig, metadata_storage: Option<MetaStorage>) -> (r: Self)
        ensures
            r.config == config,
            r.metadata_storage == metadata_storage,
    {
        JsonRpcRequestProcessor { config, metadata_storage }
    }

    /// Translate a missing-block storage failure into the protocol's
    /// slot-skipped error; every other outcome passes.
    pub fn check_storage_result<T>(&self, result: &Result<T, StorageError>) -> (r: Result<
        (),
        RpcError,
    >)
        ensures
            result matches Err(StorageError::BlockNotFound(slot)) ==> (r matches Err(e)
                && is_slot_skipped(e, *slot)),
            !(result matches Err(StorageError::BlockNotFound(_))) ==> r is Ok,
    {
        if let Err(StorageError::BlockNotFound(slot)) = result {
            return Err(RpcError::from_custom(RpcCustomError::LongTermStorageSlotSkipped {
                slot: *slot,
            }));
        }
        Ok(())
    }

    /// Answer a blocks-range request up to the point of the storage query.
    ///
    /// A commitment below confirmed is rejected; an inverted range answers
    /// empty without touching storage; a range wider than the protocol cap is
    /// rejected, and at exactly the cap accepted; without a store the answer
    /// is empty. Otherwise the query asks for one row more than the range
    /// width, so the inclusive upper bound is covered.
    pub fn get_blocks(
        &self,
        start_slot: u64,
        end_slot: Option<u64>,
        config: Option<RpcContextConfig>,
    ) -> (r: Result<GetBlocksStep, RpcError>)
        ensures
            !at_least_confirmed(effective_commitment(config)) ==> (r matches Err(e)
                && is_invalid_params(e, commitment_too_weak_text())),
            at_least_confirmed(effective_commitment(config)) ==> {
                let end = effective_end_slot(start_slot, end_slot);
                &&& end < start_slot ==> (r matches Ok(s) && s matches GetBlocksStep::Done(v)
                    && v@ == Seq::<u64>::empty())
                &&& end >= start_slot && end - start_slot > MAX_GET_CONFIRMED_BLOCKS_RANGE ==> (
                r matches Err(e) && is_invalid_params(e, slot_range_too_large_text()))
                &&& end >= start_slot && end - start_slot <= MAX_GET_CONFIRMED_BLOCKS_RANGE
                    && !has_storage(*self) ==> (r matches Ok(s) && s matches GetBlocksStep::Done(v)
                    && v@ == Seq::<u64>::empty())
                &&& end >= start_slot && end - start_slot <= MAX_GET_CONFIRMED_BLOCKS_RANGE
                    && has_storage(*self) ==> (r matches Ok(s) && s matches GetBlocksStep::Fetch {
                    query,
                    end_slot: bound,
                } && bound == end && query@ == row_keys_query_text(
                    "sol_mainnet_block"@,
                    Some(dec_of(start_slot as nat)),
                    None,
                    end - start_slot + 1,
                ))
            },
    {
        let commitment = match config {
            Some(c) => match c.commitment {
                Some(cc) => cc,
                None => CommitmentConfig::default(),
            },
            None => CommitmentConfig::default(),
        };
        if let Err(e) = check_is_at_least_confirmed(commitment) {
            return Err(e);
        }
        let end = match end_slot {
            Some(e) => e,
            None => if start_slot > u64::MAX - MAX_GET_CONFIRMED_BLOCKS_RANGE {
                u64::MAX
            } else {
                start_slot + MAX_GET_CONFIRMED_BLOCKS_RANGE
            },
        };
        if end < start_slot {
            return Ok(GetBlocksStep::Done(Vec::new()));
        }
        if end - start_slot > MAX_GET_CONFIRMED_BLOCKS_RANGE {
            let mut message = String::from_str("Slot range too large; max ");
            message.append(crate::text::u64_to_dec_string(MAX_GET_CONFIRMED_BLOCKS_RANGE).as_str());
            return Err(RpcError::invalid_params(message));
        }
        match &self.metadata_storage {
            Some(metadata_storage) => {
                // One more row than the range width keeps the inclusive
                // upper bound in reach of the limit-based store interface.
                let limit = (end - start_slot) as usize + 1;
                let query = metadata_storage.get_confirmed_blocks_query(start_slot, limit);
                Ok(GetBlocksStep::Fetch { query: query.unwrap(), end_slot: end })
            },
            None => Ok(GetBlocksStep::Done(Vec::new())),
        }
    }

    /// Answer a blocks-range request given the store's reply: keep the
    /// fetched slots up to the inclusive bound, and report a failed query as
    /// an invalid-params error describing a possible timeout.
    pub fn get_blocks_response(&self, end_slot: u64, fetched: Result<Vec<u64>, ClientError>) -> (r:
        Result<Vec<u64>, RpcError>)
        ensures
            fetched matches Ok(v) ==> (r matches Ok(w) && w@ == v@.filter(
                |slot: u64| slot <= end_slot,
            )),
            fetched is Err ==> (r matches Err(e) && is_invalid_params(e, query_failed_text())),
    {
        match MetaStorage::get_confirmed_blocks_result(fetched) {
            Ok(blocks) => {
                let mut kept: Vec<u64> = Vec::new();
                let mut i: usize = 0;
                proof {
                    reveal(Seq::filter);
                    assert(blocks@.take(0).filter(|slot: u64| slot <= end_slot) =~= Seq::<
                        u64,
                    >::empty());
                }
                while i < blocks.len()
                    invariant
                        i <= blocks@.len(),
                        kept@ == blocks@.take(i as int).filter(|slot: u64| slot <= end_slot),
                    decreases blocks@.len() - i,
                {
                    let slot = blocks[i];
                    if slot <= end_slot {
                        kept.push(slot);
                    }
                    proof {
                        reveal(Seq::filter);
                        assert(blocks@.take(i + 1).drop_last() =~= blocks@.take(i as int));
                        assert(blocks@.take(i + 1).last() == blocks@[i as int]);
                    }
                    i = i + 1;
                }
                proof {
                    assert(blocks@.take(blocks@.len() as int) =~= blocks@);
                }
                Ok(kept)
            },
            Err(_) => Err(RpcError::invalid_params(String::from_str(
                "MySQL query failed (maybe timeout due to too large range?)",
            ))),
        }
    }

    /// Answer a limited blocks request up to the point of the storage query:
    /// the same commitment gate, a limit over the protocol cap rejected and
    /// at exactly the cap accepted, and an empty answer without a store or
    /// for a zero limit.
    pub fn get_blocks_with_limit(
        &self,
        start_slot: u64,
        limit: usize,
        commitment: Option<CommitmentConfig>,
    ) -> (r: Result<GetBlocksWithLimitStep, RpcError>)
        ensures
            !at_least_confirmed(effective_commitment_only(commitment)) ==> (r matches Err(e)
                && is_invalid_params(e, commitment_too_weak_text())),
            at_least_confirmed(effective_commitment_only(commitment)) ==> {
                &&& limit > MAX_GET_CONFIRMED_BLOCKS_RANGE ==> (r matches Err(e)
                    && is_invalid_params(e, limit_too_large_text()))
                &&& limit <= MAX_GET_CONFIRMED_BLOCKS_RANGE && !has_storage(*self) ==> (r matches
                Ok(s) && s matches GetBlocksWithLimitStep::Done(v) && v@ == Seq::<u64>::empty())
                &&& limit == 0 && has_storage(*self) ==> (r matches Ok(s) && s matches
                GetBlocksWithLimitStep::Done(v) && v@ == Seq::<u64>::empty())
                &&& 0 < limit <= MAX_GET_CONFIRMED_BLOCKS_RANGE && has_storage(*self) ==> (
                r matches Ok(s) && s matches GetBlocksWithLimitStep::Fetch { query } && query@
                    == row_keys_query_text(
                    "sol_mainnet_block"@,
                    Some(dec_of(start_slot as nat)),
                    None,
                    limit as int,
                ))
            },
    {
        let commitment = match commitment {
            Some(c) => c,
            None => CommitmentConfig::default(),
        };
        if let Err(e) = check_is_at_least_confirmed(commitment) {
            return Err(e);
        }
        if limit > MAX_GET_CONFIRMED_BLOCKS_RANGE as usize {
            let mut message = String::from_str("Limit too large; max ");
            message.append(crate::text::u64_to_dec_string(MAX_GET_CONFIRMED_BLOCKS_RANGE).as_str());
            return Err(RpcError::invalid_params(message));
        }
        match &self.metadata_storage {
            Some(metadata_storage) => {
                match metadata_storage.get_confirmed_blocks_query(start_slot, limit) {
                    Some(query) => Ok(GetBlocksWithLimitStep::Fetch { query }),
                    None => Ok(GetBlocksWithLimitStep::Done(Vec::new())),
                }
            },
            None => Ok(GetBlocksWithLimitStep::Done(Vec::new())),
        }
    }

    /// Answer a limited blocks request given the store's reply: the fetched
    /// slots, with a failed query defaulting to an empty list rather than an
    /// error — unlike the range request, which surfaces the failure.
    pub fn get_blocks_with_limit_response(&self, fetched: Result<Vec<u64>, ClientError>) -> (r:
        Result<Vec<u64>, RpcError>)
        ensures
            r is Ok,
            fetched matches Ok(v) ==> (r matches Ok(w) && w@ == v@),
            fetched is Err ==> (r matches Ok(w) && w@ == Seq::<u64>::empty()),
    {
        match MetaStorage::get_confirmed_blocks_result(fetched) {
            Ok(blocks) => Ok(blocks),
            Err(_) => Ok(Vec::new()),
        }
    }

    /// Answer a block-time request up to the point of the storage query.
    /// The genesis slot answers its fixed timestamp without touching
    /// storage; without a store the time is unknown, not an error.
    pub fn get_block_time(&self, slot: u64) -> (r: GetBlockTimeStep)
        ensures
            slot == 0 ==> (r matches GetBlockTimeStep::Done(t) && t == Some(0i64)),
            slot != 0 && !has_storage(*self) ==> (r matches GetBlockTimeStep::Done(t) && t
                is None),
            slot != 0 && has_storage(*self) ==> (r matches GetBlockTimeStep::Fetch { query }
                && query@ == single_value_query_text(
                "sol_mainnet_block"@,
                "block_time"@,
                "id"@,
                dec_of(slot as nat),
            )),
    {
        if slot == 0 {
            return GetBlockTimeStep::Done(Some(self.genesis_creation_time()));
        }
        match &self.metadata_storage {
            Some(metadata_storage) => GetBlockTimeStep::Fetch {
                query: metadata_storage.get_block_time_query(slot),
            },
            None => GetBlockTimeStep::Done(None),
        }
    }

    /// Answer a block-time request given the store's reply. A missing row is
    /// reported as the slot-skipped protocol error — not as a backend
    /// failure — while an execution failure masks to an unknown time.
    pub fn get_block_time_response(&self, slot: u64, fetched: Result<(i64, u32), ClientError>) -> (
        r: Result<Option<i64>, RpcError>)
        ensures
            fetched matches Err(e) ==> {
                &&& e == ClientError::RowNotFound ==> (r matches Err(err) && is_slot_skipped(
                    err,
                    slot,
                ))
                &&& e != ClientError::RowNotFound ==> r == Ok::<Option<i64>, RpcError>(None)
            },
            fetched matches Ok(t) ==> {
                &&& r matches Ok(v) ==> v == Some(t.0)
                &&& r matches Err(err) ==> is_slot_skipped(err, slot)
                &&& 0 <= t.0 <= 253_402_300_799 && t.1 < 1_000_000_000 ==> r is Ok
            },
    {
        let storage_result = MetaStorage::get_block_time_result(slot, fetched);
        if let Err(e) = self.check_storage_result(&storage_result) {
            return Err(e);
        }
        match storage_result {
            Ok((secs, _nanos)) => Ok(Some(secs)),
            Err(_) => Ok(None),
        }
    }

    /// Answer a block-height request up to the point of the storage query:
    /// without a store the height is zero.
    pub fn get_block_height(&self, _config: RpcContextConfig) -> (r: GetBlockHeightStep)
        ensures
            !has_storage(*self) ==> (r matches GetBlockHeightStep::Done(h) && h == 0),
            has_storage(*self) ==> (r matches GetBlockHeightStep::Fetch { query } && query@
                == last_key_query_text("solana_blocks"@, "id"@)),
    {
        match &self.metadata_storage {
            Some(metadata_storage) => GetBlockHeightStep::Fetch {
                query: metadata_storage.get_block_height_latest_query(),
            },
            None => GetBlockHeightStep::Done(0),
        }
    }

    /// Continue a block-height request given the latest-block reply: an
    /// empty table is the slot-skipped error for the zero identifier, an
    /// execution failure masks to height zero, and a named latest block asks
    /// one more query for its height.
    pub fn get_block_height_latest_response(&self, fetched: Result<Option<u64>, ClientError>) -> (
        r: Result<BlockHeightFetch, RpcError>)
        requires
            has_storage(*self),
        ensures
            fetched matches Ok(v) ==> {
                &&& v matches Some(id) ==> (r matches Ok(s) && s matches BlockHeightFetch::Fetch {
                    query,
                    latest_id,
                } && latest_id == id && query@ == single_value_query_text(
                    "solana_blocks"@,
                    "block_height"@,
                    "id"@,
                    dec_of(id as nat),
                ))
                &&& v is None ==> (r matches Err(e) && is_slot_skipped(e, 0))
            },
            fetched is Err ==> (r matches Ok(s) && s matches BlockHeightFetch::Done(h) && h == 0),
    {
        let storage_result = MetaStorage::get_block_height_latest_result(fetched);
        if let Err(e) = self.check_storage_result(&storage_result) {
            return Err(e);
        }
        match storage_result {
            Ok(latest_id) => {
                let metadata_storage = self.metadata_storage.as_ref().unwrap();
                Ok(BlockHeightFetch::Fetch {
                    query: metadata_storage.get_block_height_value_query(latest_id),
                    latest_id,
                })
            },
            Err(_) => Ok(BlockHeightFetch::Done(0)),
        }
    }

    /// Answer a block-height request given the height reply: a missing row
    /// reports the latest identifier as skipped, an execution failure masks
    /// to height zero.
    pub fn get_block_height_value_response(
        &self,
        latest_id: u64,
        fetched: Result<u64, ClientError>,
    ) -> (r: Result<u64, RpcError>)
        ensures
            fetched matches Ok(h) ==> r == Ok::<u64, RpcError>(h),
            fetched matches Err(e) ==> {
                &&& e == ClientError::RowNotFound ==> (r matches Err(err) && is_slot_skipped(
                    err,
                    latest_id,
                ))
                &&& e != ClientError::RowNotFound ==> r == Ok::<u64, RpcError>(0)
            },
    {
        let storage_result = MetaStorage::get_block_height_value_result(latest_id, fetched);
        if let Err(e) = self.check_storage_result(&storage_result) {
            return Err(e);
        }
        match storage_result {
            Ok(block_height) => Ok(block_height),
            Err(_) => Ok(0),
        }
    }

    /// Answer a first-available-block request up to the point of the storage
    /// query: without a store the zero slot, by design with no failure path.
    pub fn get_first_available_block(&self) -> (r: GetSlotStep)
        ensures
            !has_storage(*self) ==> (r matches GetSlotStep::Done(s) && s == 0),
            has_storage(*self) ==> (r matches GetSlotStep::Fetch { query } && query@
                == first_key_query_text("sol_mainnet_block"@, "id"@)),
    {
        match &self.metadata_storage {
            Some(metadata_storage) => GetSlotStep::Fetch {
                query: metadata_storage.get_first_available_block_query(),
            },
            None => GetSlotStep::Done(0),
        }
    }

    /// Answer a first-available-block request given the store's reply: the
    /// smallest stored slot, with an empty table and every failure
    /// defaulting to the zero slot.
    pub fn get_first_available_block_response(
        &self,
        fetched: Result<Option<u64>, ClientError>,
    ) -> (r: u64)
        ensures
            fetched matches Ok(v) ==> {
                &&& v matches Some(slot) ==> r == slot
                &&& v is None ==> r == 0
            },
            fetched is Err ==> r == 0,
    {
        match MetaStorage::get_first_available_block_result(fetched) {
            Ok(Some(slot)) => slot,
            Ok(None) => 0,
            Err(_) => 0,
        }
    }

    /// Answer a current-slot request up to the point of the storage query:
    /// without a store the zero slot, with no failure path.
    pub fn get_slot(&self, _config: RpcContextConfig) -> (r: GetSlotStep)
        ensures
            !has_storage(*self) ==> (r matches GetSlotStep::Done(s) && s == 0),
            has_storage(*self) ==> (r matches GetSlotStep::Fetch { query } && query@
                == last_key_query_text("sol_mainnet_block"@, "id"@)),
    {
        match &self.metadata_storage {
            Some(metadata_storage) => GetSlotStep::Fetch {
                query: metadata_storage.get_slot_query(),
            },
            None => GetSlotStep::Done(0),
        }
    }

    /// Answer a current-slot request given the store's reply: the largest
    /// stored slot, with an empty table and every failure defaulting to the
    /// zero slot.
    pub fn get_slot_response(&self, fetched: Result<Option<u64>, ClientError>) -> (r: Result<
        u64,
        RpcError,
    >)
        ensures
            r is Ok,
            fetched matches Ok(v) ==> {
                &&& v matches Some(slot) ==> r == Ok::<u64, RpcError>(slot)
                &&& v is None ==> r == Ok::<u64, RpcError>(0)
            },
            fetched is Err ==> r == Ok::<u64, RpcError>(0),
    {
        match MetaStorage::get_slot_result(fetched) {
            Ok(Some(slot)) => Ok(slot),
            Ok(None) => Ok(0),
            Err(_) => Ok(0),
        }
    }
}

} // verus!
