//! State-transition modules of the Telurean chain runtime.
//!
//! Three independent modules are provided, each as a value that holds the
//! module's persistent records and whose methods are the module's callable
//! operations:
//!
//! * [`hvc`]: the consul / patrician role lists and the nomination workflow;
//! * [`nft_attributes`]: owner-controlled key/value metadata on tokens;
//! * [`nft_hierarchy`]: the global token registry and the ownership graph.
//!
//! An operation takes the authenticated caller and whatever the host's token
//! registry or clock reported as plain arguments, and returns either the event
//! to emit or the named failure. A failed operation leaves the records as they
//! were.

pub mod bounded;
pub mod hvc;
pub mod nft_attributes;
pub mod nft_hierarchy;
pub mod primitives;
pub mod storage;
