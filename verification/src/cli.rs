//! Command-line defaults and validation: the default values the argument
//! parser presents, and the port validator, which accepts exactly the
//! strings that parse as a port number and reports the standard parser's
//! error kind otherwise.

use vstd::prelude::*;

use crate::request_processor::MAX_REQUEST_BODY_SIZE;
use crate::rpc_server::DEFAULT_RPC_PORT;
use crate::text::{
    dec_of, parse_failure, parse_u64_in_range, parses_to_u64, IntParseError,
};

verus! {

/// The debug rendering of a standard integer-parsing error.
pub open spec fn int_parse_error_debug_text(k: IntParseError) -> Seq<char> {
    match k {
        IntParseError::Empty => "ParseIntError { kind: Empty }"@,
        IntParseError::InvalidDigit => "ParseIntError { kind: InvalidDigit }"@,
        IntParseError::PosOverflow => "ParseIntError { kind: PosOverflow }"@,
    }
}

/// Accept exactly the strings that parse as a port number; a rejected
/// string reports the parser's error kind in its debug form.
pub fn port_validator(port: String) -> (r: Result<(), String>)
    ensures
        r is Ok <==> parses_to_u64(port@, u16::MAX as nat),
        r matches Err(m) ==> m@ == int_parse_error_debug_text(
            parse_failure(port@, u16::MAX as nat),
        ),
{
    match parse_u64_in_range(port.as_str(), u16::MAX as u64) {
        Ok(_) => Ok(()),
        Err(IntParseError::Empty) => Err(String::from_str("ParseIntError { kind: Empty }")),
        Err(IntParseError::InvalidDigit) => Err(String::from_str(
            "ParseIntError { kind: InvalidDigit }",
        )),
        Err(IntParseError::PosOverflow) => Err(String::from_str(
            "ParseIntError { kind: PosOverflow }",
        )),
    }
}

/// Relies on `num_cpus::get`: the documentation promises it always returns
/// at least 1.
#[verifier::external_body]
fn host_cpu_count() -> (r: usize)
    ensures
        1 <= r,
{
    num_cpus::get()
}

/// The default values the argument parser presents, each rendered as the
/// text an argument default must be.
#[derive(Clone, Debug)]
pub struct DefaultStorageRpcArgs {
    pub rpc_port: String,
    pub rpc_mysql_timeout: String,
    pub rpc_threads: String,
    pub rpc_niceness_adjustment: String,
    pub rpc_max_request_body_size: String,
    pub enable_rpc_mysql_meta_storage: bool,
}

impl DefaultStorageRpcArgs {
    /// The defaults: the standard port, a five-second storage timeout, one
    /// worker per host CPU, no priority adjustment, and the standard body
    /// cap.
    pub fn new() -> (r: Self)
        ensures
            r.rpc_port@ == dec_of(DEFAULT_RPC_PORT as nat),
            r.rpc_mysql_timeout@ == "5"@,
            exists|n: usize| 1 <= n && r.rpc_threads@ == dec_of(n as nat),
            r.rpc_niceness_adjustment@ == "0"@,
            r.rpc_max_request_body_size@ == dec_of(MAX_REQUEST_BODY_SIZE as nat),
            r.enable_rpc_mysql_meta_storage,
    {
        let cpus = host_cpu_count();
        let r = DefaultStorageRpcArgs {
            rpc_port: crate::text::u64_to_dec_string(DEFAULT_RPC_PORT as u64),
            rpc_mysql_timeout: String::from_str("5"),
            rpc_threads: crate::text::u64_to_dec_string(cpus as u64),
            rpc_niceness_adjustment: String::from_str("0"),
            rpc_max_request_body_size: crate::text::u64_to_dec_string(
                MAX_REQUEST_BODY_SIZE as u64,
            ),
            enable_rpc_mysql_meta_storage: true,
        };
        proof {
            assert(1 <= cpus && r.rpc_threads@ == dec_of(cpus as nat));
        }
        r
    }
}

impl Default for DefaultStorageRpcArgs {
    fn default() -> (r: Self)
        ensures
            r.rpc_port@ == dec_of(DEFAULT_RPC_PORT as nat),
            r.rpc_mysql_timeout@ == "5"@,
            exists|n: usize| 1 <= n && r.rpc_threads@ == dec_of(n as nat),
            r.rpc_niceness_adjustment@ == "0"@,
            r.rpc_max_request_body_size@ == dec_of(MAX_REQUEST_BODY_SIZE as nat),
            r.enable_rpc_mysql_meta_storage,
    {
        Self::new()
    }
}

} // verus!
