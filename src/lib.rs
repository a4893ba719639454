//! Node registry and data-exchange logic of a management-console snap-in.
//!
//! The host hands out opaque integer cookies for the nodes of the scope tree,
//! asks for display strings that it frees itself, and requests typed payloads
//! that are written into shared memory blocks it owns. Everything that
//! decides what happens on those calls lives here; the platform calls that
//! allocate, lock and unlock memory are made by the caller, which feeds their
//! results back in.

pub mod error;
pub mod exchange;
pub mod id;
pub mod mmc;
pub mod node;
pub mod registry;
pub mod utf16;

pub use error::SnapError;
pub use exchange::{check_lock, payload, resolve_format, unlock_outcome, ClipFormat, TagTYMED};
pub use id::{snapin_clsid, Guid};
pub use mmc::{MmcDataObjectType, MmcNotifyType, ScopeInsert};
pub use node::{Handoff, Node, NodeType};
pub use registry::NodeRegistry;
pub use utf16::{le_bytes, utf16_units, utf16z_le_bytes, utf16z_units};
