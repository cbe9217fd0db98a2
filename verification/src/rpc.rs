//! RPC surface: the externally callable method set — a minimal subset that
//! is always available and a full subset gated by configuration — and the
//! normalization of the blocks-range request's overloaded second parameter.

use vstd::prelude::*;

use crate::commitment::RpcContextConfig;

verus! {

/// The second parameter of a blocks-range request, which callers may fill
/// with either an end slot or a context configuration.
#[derive(Clone, Copy, Debug, PartialEq, Eq, Structural)]
pub enum RpcBlocksConfigWrapper {
    EndSlotOnly(Option<u64>),
    ConfigOnly(Option<RpcContextConfig>),
}

impl RpcBlocksConfigWrapper {
    /// Split the overloaded parameter into its two readings.
    pub fn unzip(&self) -> (r: (Option<u64>, Option<RpcContextConfig>))
        ensures
            (*self) matches RpcBlocksConfigWrapper::EndSlotOnly(e) ==> (r.0 == e && r.1 is None),
            (*self) matches RpcBlocksConfigWrapper::ConfigOnly(c) ==> (r.0 is None && r.1 == c),
    {
        match self {
            RpcBlocksConfigWrapper::EndSlotOnly(end_slot) => (*end_slot, None),
            RpcBlocksConfigWrapper::ConfigOnly(config) => (None, *config),
        }
    }
}

/// Normalize a blocks-range request's parameters: the end slot read from the
/// wrapper, and the explicit context taking precedence over one the wrapper
/// carries.
pub fn blocks_request_params(
    wrapper: Option<RpcBlocksConfigWrapper>,
    config: Option<RpcContextConfig>,
) -> (r: (Option<u64>, Option<RpcContextConfig>))
    ensures
        wrapper is None ==> r == (None::<u64>, config),
        wrapper matches Some(RpcBlocksConfigWrapper::EndSlotOnly(e)) ==> r == (e, config),
        wrapper matches Some(RpcBlocksConfigWrapper::ConfigOnly(c)) ==> r == (
            None::<u64>,
            if config is Some {
                config
            } else {
                c
            },
        ),
{
    let (end_slot, maybe_config) = match wrapper {
        Some(w) => w.unzip(),
        None => (None, None),
    };
    let config = if config.is_some() {
        config
    } else {
        maybe_config
    };
    (end_slot, config)
}

/// One externally callable method.
#[derive(Clone, Copy, Debug, PartialEq, Eq, Structural)]
pub enum RpcMethod {
    GetHealth,
    GetSlot,
    GetBlockHeight,
    GetVersion,
    GetBlockTime,
    GetBlocks,
    GetBlocksWithLimit,
    GetFirstAvailableBlock,
}

/// Whether a method belongs to the full set, which a configuration flag
/// gates; the rest form the always-available minimal set.
pub open spec fn in_full_set(m: RpcMethod) -> bool {
    match m {
        RpcMethod::GetBlockTime => true,
        RpcMethod::GetBlocks => true,
        RpcMethod::GetBlocksWithLimit => true,
        RpcMethod::GetFirstAvailableBlock => true,
        _ => false,
    }
}

impl RpcMethod {
    /// The method's name on the wire.
    pub fn name(&self) -> (r: &'static str)
        ensures
            *self == RpcMethod::GetHealth ==> r@ == "getHealth"@,
            *self == RpcMethod::GetSlot ==> r@ == "getSlot"@,
            *self == RpcMethod::GetBlockHeight ==> r@ == "getBlockHeight"@,
            *self == RpcMethod::GetVersion ==> r@ == "getVersion"@,
            *self == RpcMethod::GetBlockTime ==> r@ == "getBlockTime"@,
            *self == RpcMethod::GetBlocks ==> r@ == "getBlocks"@,
            *self == RpcMethod::GetBlocksWithLimit ==> r@ == "getBlocksWithLimit"@,
            *self == RpcMethod::GetFirstAvailableBlock ==> r@ == "getFirstAvailableBlock"@,
    {
        match self {
            RpcMethod::GetHealth => "getHealth",
            RpcMethod::GetSlot => "getSlot",
            RpcMethod::GetBlockHeight => "getBlockHeight",
            RpcMethod::GetVersion => "getVersion",
            RpcMethod::GetBlockTime => "getBlockTime",
            RpcMethod::GetBlocks => "getBlocks",
            RpcMethod::GetBlocksWithLimit => "getBlocksWithLimit",
            RpcMethod::GetFirstAvailableBlock => "getFirstAvailableBlock",
        }
    }

    /// Whether a configuration exposes this method.
    pub fn is_available(&self, full_api: bool) -> (r: bool)
        ensures
            r == (full_api || !in_full_set(*self)),
    {
        match self {
            RpcMethod::GetBlockTime => full_api,
            RpcMethod::GetBlocks => full_api,
            RpcMethod::GetBlocksWithLimit => full_api,
            RpcMethod::GetFirstAvailableBlock => full_api,
            _ => true,
        }
    }
}

/// The dispatch table built at startup: the minimal set always, the full
/// set when enabled.
pub fn method_table(full_api: bool) -> (r: Vec<RpcMethod>)
    ensures
        full_api ==> r@ == seq![
            RpcMethod::GetHealth,
            RpcMethod::GetSlot,
            RpcMethod::GetBlockHeight,
            RpcMethod::GetVersion,
            RpcMethod::GetBlockTime,
            RpcMethod::GetBlocks,
            RpcMethod::GetBlocksWithLimit,
            RpcMethod::GetFirstAvailableBlock,
        ],
        !full_api ==> r@ == seq![
            RpcMethod::GetHealth,
            RpcMethod::GetSlot,
            RpcMethod::GetBlockHeight,
            RpcMethod::GetVersion,
        ],
        forall|i: int| 0 <= i < r@.len() ==> (#[trigger] r@[i]).is_available_spec(full_api),
{
    let mut table: Vec<RpcMethod> = Vec::new();
    table.push(RpcMethod::GetHealth);
    table.push(RpcMethod::GetSlot);
    table.push(RpcMethod::GetBlockHeight);
    table.push(RpcMethod::GetVersion);
    if full_api {
        table.push(RpcMethod::GetBlockTime);
        table.push(RpcMethod::GetBlocks);
        table.push(RpcMethod::GetBlocksWithLimit);
        table.push(RpcMethod::GetFirstAvailableBlock);
    }
    proof {
        if full_api {
            assert(table@ =~= seq![
                RpcMethod::GetHealth,
                RpcMethod::GetSlot,
                RpcMethod::GetBlockHeight,
                RpcMethod::GetVersion,
                RpcMethod::GetBlockTime,
                RpcMethod::GetBlocks,
                RpcMethod::GetBlocksWithLimit,
                RpcMethod::GetFirstAvailableBlock,
            ]);
        } else {
            assert(table@ =~= seq![
                RpcMethod::GetHealth,
                RpcMethod::GetSlot,
                RpcMethod::GetBlockHeight,
                RpcMethod::GetVersion,
            ]);
        }
    }
    table
}

impl RpcMethod {
    /// Whether a configuration exposes this method, as a specification.
    pub open spec fn is_available_spec(self, full_api: bool) -> bool {
        full_api || !in_full_set(self)
    }
}

} // verus!
