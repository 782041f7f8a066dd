//! A verified core for a Postgres-flavoured wire-protocol frontend: a
//! synthetic relational catalog over "cube" metadata, a session-variable
//! resolver, and the connection state machine that drives startup,
//! authentication and the query sub-protocols over typed wire messages.
pub mod messages;
pub mod meta;
pub mod numfmt;
pub mod shim;
pub mod strmap;
pub mod variables;
