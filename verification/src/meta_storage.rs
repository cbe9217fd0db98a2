//! Metadata store: translates slot-domain concepts (first/last known slot,
//! confirmed-block ranges, block times, block heights) into storage-client
//! queries, and classifies every reply — distinguishing "no matching row"
//! from "execution failed" — under a typed error taxonomy.
//!
//! Each lookup is split into a query builder, whose result the executor runs,
//! and a result interpreter, which is given the executor's reply.

use vstd::prelude::*;

use crate::mysql::{
    client_error_text, first_key_query_text, last_key_query_text, row_keys_query_text,
    single_value_query_text, ClientError, MySQLConnection,
};
use crate::text::{
    dec_of, dec_val, parse_u64_in_range, parses_to_u64, u64_to_dec_string, unsigned_body,
};

verus! {

/// A failure of a metadata-store lookup.
#[derive(Clone, Debug, PartialEq, Eq)]
pub enum StorageError {
    /// The backend failed to execute the query; carries its description.
    StorageBackendError(String),
    /// An I/O failure, with its description.
    IoError(String),
    /// The stored transaction encoding is not supported.
    UnsupportedTransactionEncoding,
    /// The named slot has no row in long-term storage.
    BlockNotFound(u64),
    /// The requested signature has no row.
    SignatureNotFound,
    /// A worker task failed to join.
    TokioJoinError,
}

/// The text a storage failure displays as.
pub open spec fn storage_error_text(e: StorageError) -> Seq<char> {
    match e {
        StorageError::StorageBackendError(m) => "Storage Error: "@ + m@,
        StorageError::IoError(m) => "I/O Error: "@ + m@,
        StorageError::UnsupportedTransactionEncoding => "Transaction encoded is not supported"@,
        StorageError::BlockNotFound(s) => "Block not found: "@ + dec_of(s as nat),
        StorageError::SignatureNotFound => "Signature not found"@,
        StorageError::TokioJoinError => "tokio error"@,
    }
}

impl StorageError {
    /// Render this failure as its display text.
    pub fn message(&self) -> (r: String)
        ensures
            r@ == storage_error_text(*self),
    {
        match self {
            StorageError::StorageBackendError(m) => {
                let mut s = String::from_str("Storage Error: ");
                s.append(m.as_str());
                s
            },
            StorageError::IoError(m) => {
                let mut s = String::from_str("I/O Error: ");
                s.append(m.as_str());
                s
            },
            StorageError::UnsupportedTransactionEncoding => String::from_str(
                "Transaction encoded is not supported",
            ),
            StorageError::BlockNotFound(slot) => {
                let mut s = String::from_str("Block not found: ");
                s.append(u64_to_dec_string(*slot).as_str());
                s
            },
            StorageError::SignatureNotFound => String::from_str("Signature not found"),
            StorageError::TokioJoinError => String::from_str("tokio error"),
        }
    }

    /// Wrap a client failure as an opaque backend error, keeping its text.
    pub fn from_client(e: &ClientError) -> (r: Self)
        ensures
            r matches StorageError::StorageBackendError(m) && m@ == client_error_text(*e),
    {
        StorageError::StorageBackendError(e.message())
    }
}

/// A slot rendered as a storage key.
pub fn slot_to_key(slot: u64) -> (r: String)
    ensures
        r@ == dec_of(slot as nat),
{
    u64_to_dec_string(slot)
}

/// A storage key read back as a slot, when it is a well-formed slot number.
pub fn key_to_slot(key: &str) -> (r: Option<u64>)
    ensures
        r is Some <==> parses_to_u64(key@, u64::MAX as nat),
        r matches Some(slot) ==> slot as nat == dec_val(unsigned_body(key@)),
{
    match parse_u64_in_range(key, u64::MAX) {
        Ok(slot) => Some(slot),
        Err(_) => None,
    }
}

/// A slot survives the round trip through its storage-key rendering: the
/// key `slot_to_key` produces is exactly what `key_to_slot` accepts, and it
/// parses back to the same slot.
pub proof fn lemma_slot_key_round_trip(slot: u64)
    ensures
        parses_to_u64(dec_of(slot as nat), u64::MAX as nat),
        dec_val(unsigned_body(dec_of(slot as nat))) == slot as nat,
{
    crate::text::lemma_dec_of_round_trip(slot as nat);
    assert(unsigned_body(dec_of(slot as nat)) == dec_of(slot as nat));
}

/// Connection parameters for the metadata store.
#[derive(Clone, Debug, PartialEq, Eq)]
pub struct MetaStorageConfig {
    pub read_only: bool,
    /// Query timeout in seconds, when one is set.
    pub timeout: Option<u64>,
    pub host: String,
    pub port: u16,
    pub username: String,
    pub password: String,
    pub db_name: String,
}

impl Default for MetaStorageConfig {
    fn default() -> (r: Self)
        ensures
            r.read_only,
            r.timeout is None,
            r.host@ == crate::mysql::DEFAULT_HOST@,
            r.port == crate::mysql::DEFAULT_PORT,
            r.username@ == Seq::<char>::empty(),
            r.password@ == Seq::<char>::empty(),
            r.db_name@ == Seq::<char>::empty(),
    {
        MetaStorageConfig {
            read_only: true,
            timeout: None,
            host: String::from_str(crate::mysql::DEFAULT_HOST),
            port: crate::mysql::DEFAULT_PORT,
            username: String::new(),
            password: String::new(),
            db_name: String::new(),
        }
    }
}

/// The connection URL the store is built over.
pub open spec fn connection_url_text(
    username: Seq<char>,
    password: Seq<char>,
    host: Seq<char>,
    port: nat,
    db_name: Seq<char>,
) -> Seq<char> {
    "mysql://"@ + username + ":"@ + password + "@"@ + host + ":"@ + dec_of(port) + "/"@ + db_name
}

/// The metadata store: a storage-client handle plus the slot-domain queries.
#[derive(Clone, Debug)]
pub struct MetaStorage {
    pub connection: MySQLConnection,
}

/// Relies on `chrono::DateTime::<Utc>::from_timestamp` and
/// `chrono::DateTime::timestamp`: `from_timestamp(secs, nanos)` returns
/// `None` on an out-of-range number of seconds or an invalid nanosecond —
/// in particular it accepts every second from 1970 through year 9999 with
/// nanoseconds below one billion — and is documented to round-trip with
/// `timestamp`, which yields the seconds the value was built from.
#[verifier::external_body]
fn utc_seconds_of(secs: i64, nanos: u32) -> (r: Option<i64>)
    ensures
        r matches Some(s) ==> s == secs,
        0 <= secs <= 253_402_300_799 && nanos < 1_000_000_000 ==> r is Some,
{
    chrono::DateTime::<chrono::Utc>::from_timestamp(secs, nanos).map(|t| t.timestamp())
}

impl MetaStorage {
    /// A store over the default connection parameters.
    pub fn new(read_only: bool, timeout: Option<u64>) -> (r: Self)
        ensures
            r.connection.url@ == connection_url_text(
                Seq::<char>::empty(),
                Seq::<char>::empty(),
                crate::mysql::DEFAULT_HOST@,
                crate::mysql::DEFAULT_PORT as nat,
                Seq::<char>::empty(),
            ),
    {
        let mut config = MetaStorageConfig::default();
        config.read_only = read_only;
        config.timeout = timeout;
        Self::new_with_config(config)
    }

    /// A store over the given connection parameters.
    pub fn new_with_config(config: MetaStorageConfig) -> (r: Self)
        ensures
            r.connection.url@ == connection_url_text(
                config.username@,
                config.password@,
                config.host@,
                config.port as nat,
                config.db_name@,
            ),
    {
        let mut dsn = String::from_str("mysql://");
        dsn.append(config.username.as_str());
        dsn.append(":");
        dsn.append(config.password.as_str());
        dsn.append("@");
        dsn.append(config.host.as_str());
        dsn.append(":");
        dsn.append(u64_to_dec_string(config.port as u64).as_str());
        dsn.append("/");
        dsn.append(config.db_name.as_str());
        let connection = MySQLConnection::new(dsn.as_str(), config.read_only, config.timeout);
        proof {
            assert(connection.url@ =~= connection_url_text(
                config.username@,
                config.password@,
                config.host@,
                config.port as nat,
                config.db_name@,
            ));
        }
        MetaStorage { connection }
    }

    /// The query for the smallest slot that has a block.
    pub fn get_first_available_block_query(&self) -> (r: String)
        ensures
            r@ == first_key_query_text("sol_mainnet_block"@, "id"@),
    {
        self.connection.client().first_key_query("sol_mainnet_block", "id")
    }

    /// Interpret the reply to the first-available-block query: the smallest
    /// slot when one exists, absent on an empty table, and a backend error on
    /// an execution failure.
    pub fn get_first_available_block_result(fetched: Result<Option<u64>, ClientError>) -> (r:
        Result<Option<u64>, StorageError>)
        ensures
            fetched matches Ok(v) ==> r == Ok::<Option<u64>, StorageError>(v),
            fetched matches Err(e) ==> (r matches Err(StorageError::StorageBackendError(m))
                && m@ == client_error_text(e)),
    {
        match fetched {
            Ok(v) => Ok(v),
            Err(e) => Err(StorageError::from_client(&e)),
        }
    }

    /// The query for the largest slot that has a block.
    pub fn get_slot_query(&self) -> (r: String)
        ensures
            r@ == last_key_query_text("sol_mainnet_block"@, "id"@),
    {
        self.connection.client().last_key_query("sol_mainnet_block", "id")
    }

    /// Interpret the reply to the latest-slot query.
    pub fn get_slot_result(fetched: Result<Option<u64>, ClientError>) -> (r: Result<
        Option<u64>,
        StorageError,
    >)
        ensures
            fetched matches Ok(v) ==> r == Ok::<Option<u64>, StorageError>(v),
            fetched matches Err(e) ==> (r matches Err(StorageError::StorageBackendError(m))
                && m@ == client_error_text(e)),
    {
        match fetched {
            Ok(v) => Ok(v),
            Err(e) => Err(StorageError::from_client(&e)),
        }
    }

    /// The query for the next slots at or after `start_slot` that contain a
    /// block, capped at `limit`; nothing when the limit is zero, which asks
    /// for an empty result without a query.
    pub fn get_confirmed_blocks_query(&self, start_slot: u64, limit: usize) -> (r: Option<String>)
        requires
            limit as int <= i64::MAX as int,
        ensures
            r is None <==> limit == 0,
            r matches Some(q) ==> q@ == row_keys_query_text(
                "sol_mainnet_block"@,
                Some(dec_of(start_slot as nat)),
                None,
                limit as int,
            ),
    {
        let start_key = slot_to_key(start_slot);
        self.connection.client().row_keys_query(
            "sol_mainnet_block",
            Some(start_key.as_str()),
            None,
            limit as i64,
        )
    }

    /// Interpret the reply to a confirmed-blocks range query: the slots as
    /// fetched, or a backend error.
    pub fn get_confirmed_blocks_result(fetched: Result<Vec<u64>, ClientError>) -> (r: Result<
        Vec<u64>,
        StorageError,
    >)
        ensures
            fetched matches Ok(v) ==> r matches Ok(w) && w@ == v@,
            fetched matches Err(e) ==> (r matches Err(StorageError::StorageBackendError(m))
                && m@ == client_error_text(e)),
    {
        match fetched {
            Ok(v) => Ok(v),
            Err(e) => Err(StorageError::from_client(&e)),
        }
    }

    /// The query for a slot's block time.
    pub fn get_block_time_query(&self, slot: u64) -> (r: String)
        ensures
            r@ == single_value_query_text(
                "sol_mainnet_block"@,
                "block_time"@,
                "id"@,
                dec_of(slot as nat),
            ),
    {
        let key = slot_to_key(slot);
        self.connection.client().single_value_query(
            "sol_mainnet_block",
            "block_time",
            "id",
            key.as_str(),
        )
    }

    /// Interpret the reply to a block-time query. The reply carries the
    /// stored time as whole seconds since the epoch and nanoseconds within
    /// the second; a row that normalizes to a valid UTC timestamp is returned
    /// with its sub-second part preserved. A missing row — and a time outside
    /// the representable range — is a missing block, not a backend error.
    pub fn get_block_time_result(slot: u64, fetched: Result<(i64, u32), ClientError>) -> (r:
        Result<(i64, u32), StorageError>)
        ensures
            fetched matches Ok(t) ==> {
                &&& r is Ok ==> r == Ok::<(i64, u32), StorageError>(t)
                &&& r is Err ==> r == Err::<(i64, u32), StorageError>(
                    StorageError::BlockNotFound(slot),
                )
                &&& 0 <= t.0 <= 253_402_300_799 && t.1 < 1_000_000_000 ==> r is Ok
            },
            fetched matches Err(e) ==> {
                &&& e == ClientError::RowNotFound ==> r == Err::<(i64, u32), StorageError>(
                    StorageError::BlockNotFound(slot),
                )
                &&& e != ClientError::RowNotFound ==> (r matches Err(
                    StorageError::StorageBackendError(m),
                ) && m@ == client_error_text(e))
            },
    {
        match fetched {
            Ok((secs, nanos)) => match utc_seconds_of(secs, nanos) {
                Some(s) => Ok((s, nanos)),
                None => Err(StorageError::BlockNotFound(slot)),
            },
            Err(ClientError::RowNotFound) => Err(StorageError::BlockNotFound(slot)),
            Err(e) => Err(StorageError::from_client(&e)),
        }
    }

    /// The query for the identifier of the latest known block.
    pub fn get_block_height_latest_query(&self) -> (r: String)
        ensures
            r@ == last_key_query_text("solana_blocks"@, "id"@),
    {
        self.connection.client().last_key_query("solana_blocks", "id")
    }

    /// Interpret the reply to the latest-block-identifier query: the
    /// identifier when one exists; an empty table is a missing block — the
    /// zero identifier marks that no block exists at all.
    pub fn get_block_height_latest_result(fetched: Result<Option<u64>, ClientError>) -> (r: Result<
        u64,
        StorageError,
    >)
        ensures
            fetched matches Ok(v) ==> {
                &&& v matches Some(id) ==> r == Ok::<u64, StorageError>(id)
                &&& v is None ==> r == Err::<u64, StorageError>(StorageError::BlockNotFound(0))
            },
            fetched matches Err(e) ==> (r matches Err(StorageError::StorageBackendError(m))
                && m@ == client_error_text(e)),
    {
        match fetched {
            Ok(Some(id)) => Ok(id),
            Ok(None) => Err(StorageError::BlockNotFound(0)),
            Err(e) => Err(StorageError::from_client(&e)),
        }
    }

    /// The query for the height of the block with the given identifier.
    pub fn get_block_height_value_query(&self, latest_id: u64) -> (r: String)
        ensures
            r@ == single_value_query_text(
                "solana_blocks"@,
                "block_height"@,
                "id"@,
                dec_of(latest_id as nat),
            ),
    {
        let key = u64_to_dec_string(latest_id);
        self.connection.client().single_value_query(
            "solana_blocks",
            "block_height",
            "id",
            key.as_str(),
        )
    }

    /// Interpret the reply to the block-height query. A height lookup that
    /// misses reports the identifier it was asked about, to aid diagnosis.
    pub fn get_block_height_value_result(latest_id: u64, fetched: Result<u64, ClientError>) -> (r:
        Result<u64, StorageError>)
        ensures
            fetched matches Ok(h) ==> r == Ok::<u64, StorageError>(h),
            fetched matches Err(e) ==> {
                &&& e == ClientError::RowNotFound ==> r == Err::<u64, StorageError>(
                    StorageError::BlockNotFound(latest_id),
                )
                &&& e != ClientError::RowNotFound ==> (r matches Err(
                    StorageError::StorageBackendError(m),
                ) && m@ == client_error_text(e))
            },
    {
        match fetched {
            Ok(h) => Ok(h),
            Err(ClientError::RowNotFound) => Err(StorageError::BlockNotFound(latest_id)),
            Err(e) => Err(StorageError::from_client(&e)),
        }
    }
}

} // verus!
