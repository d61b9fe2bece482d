//! The relay between a local line-oriented text stream and a remote duplex
//! connection: each line read becomes an outbound text message, and each
//! inbound text message is written to the output.
//!
//! The decisions of the relay's four tasks — input reader, outbound loop,
//! inbound loop, output writer — are pure steps (`steps`), and the joint
//! wait on both loops is in `session`. `queue` and `pipeline` are a verified
//! model of each direction: a bounded FIFO queue, and whole runs of reader,
//! queue and loop, over which the order and no-loss laws are proved. A
//! running relay takes its queues from its async runtime instead.
//!
//! Beside the relay stands a SQL tool server: `sql` decides how each request
//! is answered and writes the schema query, and `schema` groups the rows of
//! the schema query's answer by table and column.
pub mod message;
pub mod pipeline;
pub mod queue;
pub mod schema;
pub mod session;
pub mod sql;
pub mod steps;
