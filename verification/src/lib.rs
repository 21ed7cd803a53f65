//! Verified building blocks of the jcode coding agent.

pub mod browser;
pub mod clamp_cache;
pub mod clamp_laws;
pub mod codec;
pub mod header_laws;
pub mod image_clamp;
pub mod image_header;
pub mod payload;
pub mod pdf;
pub mod session;
pub mod test_sink;
pub mod text;
pub mod warp_agent;
pub mod warp_laws;
pub mod warp_step_laws;
pub mod wire_laws;
