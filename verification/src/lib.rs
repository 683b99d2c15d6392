//! Verified core of a heartbeat subscription service: the server's
//! bookkeeping of clients, heartbeats and sessions, its request checks, and
//! the client's gate state machine.
pub mod client;
pub mod clock;
pub mod endpoints;
pub mod history;
pub mod ids;
pub mod json;
pub mod page;
pub mod password;
pub mod text;
pub mod order;
pub mod server;
pub mod db;
pub mod api;
