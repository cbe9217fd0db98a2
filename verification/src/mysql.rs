//! Storage client: connection parameters and the construction of every point
//! and range query the service issues. Query execution (pooling, transport,
//! row decoding) is left to the surrounding program; this module fixes the
//! exact text of each query and the rule that a zero row limit issues none.

use vstd::prelude::*;

use crate::text::{dec_of_int, i64_to_dec_string};

verus! {

/// A failure reported by the query executor.
#[derive(Clone, Debug, PartialEq, Eq)]
pub enum ClientError {
    /// An I/O failure, with its description.
    Io(String),
    /// The query matched no row.
    RowNotFound,
    /// The query timed out.
    Timeout,
    /// A driver or protocol failure, with its description.
    MySQL(String),
}

/// The text a client failure displays as.
pub open spec fn client_error_text(e: ClientError) -> Seq<char> {
    match e {
        ClientError::Io(m) => "I/O: "@ + m@,
        ClientError::RowNotFound => "Row not found"@,
        ClientError::Timeout => "Timeout"@,
        ClientError::MySQL(_) => "MySQL"@,
    }
}

impl ClientError {
    /// Render this failure as its display text.
    pub fn message(&self) -> (r: String)
        ensures
            r@ == client_error_text(*self),
    {
        match self {
            ClientError::Io(m) => {
                let mut s = String::from_str("I/O: ");
                s.append(m.as_str());
                s
            },
            ClientError::RowNotFound => String::from_str("Row not found"),
            ClientError::Timeout => String::from_str("Timeout"),
            ClientError::MySQL(_) => String::from_str("MySQL"),
        }
    }
}

pub const DEFAULT_HOST: &'static str = "127.0.0.1";

pub const DEFAULT_PORT: u16 = 3306;

/// Connection parameters for the metadata database.
#[derive(Clone, Debug, PartialEq, Eq)]
pub struct MySQLConfig {
    pub host: String,
    pub port: u16,
    pub username: String,
    pub password: String,
    pub db_name: String,
    /// Query timeout in seconds, when one is set.
    pub timeout: Option<u64>,
}

impl Default for MySQLConfig {
    fn default() -> (r: Self)
        ensures
            r.host@ == DEFAULT_HOST@,
            r.port == DEFAULT_PORT,
            r.username@ == Seq::<char>::empty(),
            r.password@ == Seq::<char>::empty(),
            r.db_name@ == Seq::<char>::empty(),
            r.timeout is None,
    {
        MySQLConfig {
            host: String::from_str(DEFAULT_HOST),
            port: DEFAULT_PORT,
            username: String::new(),
            password: String::new(),
            db_name: String::new(),
            timeout: None,
        }
    }
}

/// A handle on the database, identified by its connection URL. The pool that
/// serves it is owned by the executor.
#[derive(Clone, Debug)]
pub struct MySQLConnection {
    pub url: String,
}

impl MySQLConnection {
    pub fn new(url: &str, _read_only: bool, _timeout: Option<u64>) -> (r: Self)
        ensures
            r.url@ == url@,
    {
        MySQLConnection { url: String::from_str(url) }
    }

    /// A client for issuing queries over this connection.
    pub fn client(&self) -> (r: MySQLClient)
        ensures
            r.url@ == self.url@,
    {
        MySQLClient { url: self.url.clone() }
    }
}

/// Builds the text of each supported query against one database.
#[derive(Clone, Debug)]
pub struct MySQLClient {
    pub url: String,
}

/// The text of a range query over a table's primary keys: ascending `id`
/// values from an optional inclusive start to an optional inclusive end,
/// capped at a row limit.
pub open spec fn row_keys_query_text(
    table: Seq<char>,
    start_at: Option<Seq<char>>,
    end_at: Option<Seq<char>>,
    rows_limit: int,
) -> Seq<char> {
    "SELECT id FROM "@ + table + (match start_at {
        Some(s) => " WHERE id >= '"@ + s + "'"@,
        None => Seq::<char>::empty(),
    }) + (match end_at {
        Some(e) => (if start_at is Some {
            " AND id <= '"@
        } else {
            " WHERE id <= '"@
        }) + e + "'"@,
        None => Seq::<char>::empty(),
    }) + " LIMIT "@ + dec_of_int(rows_limit)
}

/// The text of a minimum-value query over one column.
pub open spec fn first_key_query_text(table: Seq<char>, column: Seq<char>) -> Seq<char> {
    "SELECT MIN(`"@ + column + "`) AS first_key FROM `"@ + table + "`"@
}

/// The text of a maximum-value query over one column.
pub open spec fn last_key_query_text(table: Seq<char>, column: Seq<char>) -> Seq<char> {
    "SELECT MAX(`"@ + column + "`) AS last_key FROM `"@ + table + "`"@
}

/// The text of a whole-row point query.
pub open spec fn single_row_query_text(
    table: Seq<char>,
    column_to_search: Seq<char>,
    value_to_search: Seq<char>,
) -> Seq<char> {
    "SELECT * FROM "@ + table + " WHERE "@ + column_to_search + " = '"@ + value_to_search
        + "' LIMIT 1"@
}

/// The text of a single-column point query.
pub open spec fn single_value_query_text(
    table: Seq<char>,
    field_to_return: Seq<char>,
    key_field: Seq<char>,
    key_value: Seq<char>,
) -> Seq<char> {
    "SELECT `"@ + field_to_return + "` FROM `"@ + table + "` WHERE `"@ + key_field + "` = '"@
        + key_value + "' LIMIT 1"@
}

/// The view of an optional string slice.
pub open spec fn opt_str_view(o: Option<&str>) -> Option<Seq<char>> {
    match o {
        Some(s) => Some(s@),
        None => None,
    }
}

impl MySQLClient {
    /// The query for row keys in ascending order from a table, or nothing
    /// when the row limit is zero: a zero limit returns an empty result
    /// without issuing a query.
    pub fn row_keys_query(
        &self,
        table_name: &str,
        start_at: Option<&str>,
        end_at: Option<&str>,
        rows_limit: i64,
    ) -> (r: Option<String>)
        ensures
            r is None <==> rows_limit == 0,
            r matches Some(q) ==> q@ == row_keys_query_text(
                table_name@,
                opt_str_view(start_at),
                opt_str_view(end_at),
                rows_limit as int,
            ),
    {
        if rows_limit == 0 {
            return None;
        }
        let mut q = String::from_str("SELECT id FROM ");
        q.append(table_name);
        let start_present = start_at.is_some();
        if let Some(s) = start_at {
            q.append(" WHERE id >= '");
            q.append(s);
            q.append("'");
        }
        if let Some(e) = end_at {
            if start_present {
                q.append(" AND id <= '");
            } else {
                q.append(" WHERE id <= '");
            }
            q.append(e);
            q.append("'");
        }
        q.append(" LIMIT ");
        q.append(i64_to_dec_string(rows_limit).as_str());
        proof {
            assert(q@ =~= row_keys_query_text(
                table_name@,
                opt_str_view(start_at),
                opt_str_view(end_at),
                rows_limit as int,
            ));
        }
        Some(q)
    }

    /// The query for the smallest value in the given column of a table.
    pub fn first_key_query(&self, table_name: &str, column_name: &str) -> (r: String)
        ensures
            r@ == first_key_query_text(table_name@, column_name@),
    {
        let mut q = String::from_str("SELECT MIN(`");
        q.append(column_name);
        q.append("`) AS first_key FROM `");
        q.append(table_name);
        q.append("`");
        proof {
            assert(q@ =~= first_key_query_text(table_name@, column_name@));
        }
        q
    }

    /// The query for the largest value in the given column of a table.
    pub fn last_key_query(&self, table_name: &str, column_name: &str) -> (r: String)
        ensures
            r@ == last_key_query_text(table_name@, column_name@),
    {
        let mut q = String::from_str("SELECT MAX(`");
        q.append(column_name);
        q.append("`) AS last_key FROM `");
        q.append(table_name);
        q.append("`");
        proof {
            assert(q@ =~= last_key_query_text(table_name@, column_name@));
        }
        q
    }

    /// The query for a single row matched by one column's value.
    pub fn single_row_query(
        &self,
        table_name: &str,
        column_to_search: &str,
        value_to_search: &str,
    ) -> (r: String)
        ensures
            r@ == single_row_query_text(table_name@, column_to_search@, value_to_search@),
    {
        let mut q = String::from_str("SELECT * FROM ");
        q.append(table_name);
        q.append(" WHERE ");
        q.append(column_to_search);
        q.append(" = '");
        q.append(value_to_search);
        q.append("' LIMIT 1");
        proof {
            assert(q@ =~= single_row_query_text(table_name@, column_to_search@, value_to_search@));
        }
        q
    }

    /// The query for one column of the row whose key field holds the given
    /// value.
    pub fn single_value_query(
        &self,
        table_name: &str,
        field_to_return: &str,
        key_field: &str,
        key_value: &str,
    ) -> (r: String)
        ensures
            r@ == single_value_query_text(table_name@, field_to_return@, key_field@, key_value@),
    {
        let mut q = String::from_str("SELECT `");
        q.append(field_to_return);
        q.append("` FROM `");
        q.append(table_name);
        q.append("` WHERE `");
        q.append(key_field);
        q.append("` = '");
        q.append(key_value);
        q.append("' LIMIT 1");
        proof {
            assert(q@ =~= single_value_query_text(
                table_name@,
                field_to_return@,
                key_field@,
                key_value@,
            ));
        }
        q
    }
}

} // verus!
