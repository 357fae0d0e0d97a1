//! Handle-based socket management: transport dispatch, a resource table keyed
//! by integer handles, the single-outstanding accept discipline of listeners,
//! and stream shutdown state. The sockets themselves are opaque handles owned
//! by the table; the operating-system calls are made by the embedding program.
pub mod error;
pub mod laws;
pub mod resource;
pub mod table;
pub mod transport;
