//! Request-processing core of an embedded-database web server: the usage
//! ledger that admits or refuses work, the protocol reader and writer with
//! their budget-bound deadlines, the transaction router, and the replication
//! client. Everything here is plain computation on plain values; sockets,
//! clocks, channels and storage are driven by the caller.

pub mod buffer;
pub mod decay;
pub mod fields;
pub mod handler;
pub mod multipart;
pub mod request;
pub mod share;
pub mod tasks;
pub mod usage;
