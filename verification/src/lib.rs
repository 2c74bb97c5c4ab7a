//! In-vehicle client of a software-over-the-air update service: package
//! managers, chunked package transfers, the JSON-RPC envelope used towards the
//! remote vehicle interaction (RVI) node and the command/event interpreters.

pub mod text;
pub mod error;
pub mod package;
pub mod package_manager;
pub mod number;
pub mod sort;
pub mod persistence;
pub mod jsonrpc;
pub mod rvi;
pub mod event;
pub mod svc;
pub mod parm;
pub mod interpreter;
pub mod http;
pub mod http_server;
pub mod http_client;
pub mod api;
