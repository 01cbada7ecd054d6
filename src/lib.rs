//! Bridge between a serial weighing scale and TCP clients: the noise filter,
//! the freshness cache, the command grammar and the per-connection protocol
//! decisions, all verified. The threads, sockets and the serial device live
//! in the application around this library.
pub mod cache;
pub mod command;
pub mod ingest;
pub mod noise;
pub mod session;
pub mod settings;
pub mod text;
