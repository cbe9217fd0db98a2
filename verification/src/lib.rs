//! Read-only JSON-RPC facade answering block-metadata queries (slot ranges,
//! block times, block heights) against a relational metadata store.
//!
//! The crate holds the request-processing and storage-access layer: parameter
//! validation, commitment-level gating, translation of slot-domain requests
//! into bounded range/point queries, and the mapping of backend failures into
//! protocol-level error codes. Query execution itself (connection pooling,
//! row decoding) and the HTTP transport are left to the surrounding program;
//! this library builds every query and interprets every reply.

pub mod cli;
pub mod commitment;
pub mod config;
pub mod custom_error;
pub mod meta_storage;
pub mod middleware;
pub mod mysql;
pub mod request_processor;
pub mod rpc;
pub mod rpc_server;
pub mod rpc_service;
pub mod text;
