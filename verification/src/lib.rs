//! Verified core of a point-to-point screencast transport.
//!
//! Frames travel over a persistent connection as length-prefixed blobs:
//! a 4-byte big-endian length followed by exactly that many bytes of
//! encoded image data. This crate holds the verified logic of that
//! transport: the framing protocol, the per-iteration decisions of the
//! sender and receiver loops, pixel-format conversions, and the
//! cancellation policy. The unverified shell around it performs the
//! actual socket, capture and window I/O.

pub mod codec;
pub mod errors;
pub mod frame;
pub mod receiver;
pub mod sender;
pub mod session;
pub mod wire;

pub use codec::codec_roundtrip;
pub use codec::decode_frame;
pub use codec::encode_frame;
pub use errors::TransportError;
pub use frame::CaptureRegion;
pub use frame::Frame;
pub use frame::crop_frame;
pub use frame::bgra_to_rgba;
pub use frame::display_buffer;
pub use frame::packed_pixel;
pub use wire::MAX_PAYLOAD_LEN;
