//! Mediation of one call across the boundary between a managed host runtime
//! and a native module.
//!
//! Positional arguments arrive as raw byte buffers and leave as text or as
//! typed values decoded from JSON; layered native failures leave as a single
//! host failure whose message opens with the outermost layer.

pub mod context;
pub mod failure;
pub mod json;
pub mod laws;
pub mod text;

pub use context::{argument_outcome, decode_argument, CallContext, CtxtExt};
pub use failure::{translate, HostFailure, MapErr, Status};
pub use json::{decode_outcome, deserialize_json};
