//! A socket-operation engine for a user-space network stack.
//!
//! Callers see a POSIX-like socket API: `socket`, `bind`, `listen`, `close`,
//! and the asynchronous `accept`, `connect`, `push`, `pushto` and `pop`, each of
//! which schedules an operation and hands back a token at once. The engine
//! performs no system call itself: it keeps the queue descriptors, the socket
//! registry and the scheduled operations, tells its driver which I/O each
//! operation needs, and moves the operation on by the outcome the driver
//! reports. Finished operations are taken out and packed into result records.
//!
//! - `queue`: the queue descriptor table.
//! - `scheduler`: the table of scheduled operations, reached by handles.
//! - `operations`: the five operations and the state machine of each.
//! - `libos`: the engine, on a readiness or a completion backend.
//! - `qresult`: the result records.
//! - `memory`: scatter-gather arrays.
//! - `udp`: UDP datagram headers and their checksum.

pub mod fail;
pub mod libos;
pub mod memory;
pub mod operations;
pub mod qresult;
pub mod queue;
pub mod scheduler;
pub mod types;
pub mod udp;
