//! A zero-copy archive codec for an RPC transport.
//!
//! The [`codec::Encoder`] archives a message straight into the transport's
//! send buffer. The [`codec::Decoder`] hands the received bytes of one
//! message, borrowed, to an interpretation of the archive, and marks them as
//! read. Any failure of the archive library reaches the transport as an
//! internal [`status::Status`]. [`settings::CompileSettings`] names the codec
//! that a generated service binds to.

pub mod buffer;
pub mod codec;
pub mod error;
pub mod settings;
pub mod status;
