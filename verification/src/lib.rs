//! Lifecycle management for pooled, stateful connections.
//!
//! The crate models the two halves of a pooled-connection adapter: the
//! resource-manager lifecycle (create / recycle / evict) that a generic pool
//! drives through its two hooks, and the exclusive-access wrapper that hands
//! a caller temporary, sole access to the one underlying raw connection.
//! The transport round trips themselves (establishing a session, running a
//! statement over the wire) are outside work: callers perform them and hand
//! the outcomes in as plain values, and every decision the adapter makes
//! about those outcomes is verified here.

pub mod connection;
pub mod error;
pub mod lifecycle;
pub mod lock;
pub mod manager;

pub use connection::Connection;
pub use connection::RawConnection;
pub use error::Error;
pub use error::RecycleError;
pub use manager::Manager;
