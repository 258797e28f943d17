//! The verified core of a client for Dremio's Flight SQL service.
//!
//! A query goes through four stages: a session is established, the statement
//! is submitted, the stream of its result is drained into a sequence of
//! batches, and that sequence is, if wanted, written to a Parquet file. Each
//! stage waits on the network or on the disk. This crate does none of the
//! waiting. It holds what is decided between two waits: where to connect,
//! which ticket to present, whether a frame extends the result or ends it,
//! which batch the file's encoder gets next, and which failure an error of a
//! lower layer amounts to. The caller performs each operation and hands its
//! outcome to the function that decides what follows.
//!
//! The values of `tonic`, `arrow`, `arrow-flight` and `parquet` pass through
//! as they are. The few calls into those crates that only compute are made
//! here, each in a function of its own that says what it relies on.
//!
//! - [`session`]: the address, the channel, the handshake; `Client`.
//! - [`query`]: the server's answer to a statement and the ticket in it.
//! - [`stream`]: one step of a retrieval, and a whole retrieval as the
//!   repetition of that step.
//! - [`writer`]: the order in which a result goes into a file.
//! - [`error`]: the five kinds of failure and what lies beneath each.
//! - [`laws`]: what holds of every retrieval.

pub mod error;
pub mod laws;
pub mod query;
pub mod session;
pub mod stream;
pub mod writer;
