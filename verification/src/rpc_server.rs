//! Server configuration: the builder's underlying settings — JSON-RPC
//! config, listen port, bind address — and the externally resolvable base
//! URL. The listening socket and the hosting thread live with the host
//! program.

use vstd::prelude::*;

use crate::request_processor::JsonRpcConfig;

verus! {

/// The default port the RPC service listens on.
pub const DEFAULT_RPC_PORT: u16 = 8899;

/// Configuration for the server.
#[derive(Clone, Debug)]
pub struct RpcServerConfig {
    pub rpc_config: JsonRpcConfig,
    pub rpc_port: u16,
    /// The address to bind, rendered as text; the unspecified address binds
    /// every interface.
    pub bind_ip_addr: String,
}

impl Default for RpcServerConfig {
    fn default() -> (r: Self)
        ensures
            r.rpc_config.full_api,
            r.rpc_config.rpc_mysql_config is None,
            r.rpc_port == DEFAULT_RPC_PORT,
            r.bind_ip_addr@ == "0.0.0.0"@,
    {
        RpcServerConfig {
            rpc_config: JsonRpcConfig::default_for_storage_rpc(),
            rpc_port: DEFAULT_RPC_PORT,
            bind_ip_addr: String::from_str("0.0.0.0"),
        }
    }
}

/// The externally resolvable base URL of a server bound to the given
/// address.
pub fn rpc_url_of(addr: &str) -> (r: String)
    ensures
        r@ == "http://"@ + addr@,
{
    let mut url = String::from_str("http://");
    url.append(addr);
    url
}

} // verus!
