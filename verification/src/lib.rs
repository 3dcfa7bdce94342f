//! A verified engine that pumps an asynchronous source of raw byte chunks
//! through a pluggable decoding codec and hands out decoded byte chunks.
//!
//! The crate contains three pieces:
//! - [`buffer::PartialBuffer`], a cursor that splits a growable byte buffer
//!   into a written prefix and free capacity;
//! - [`codec::Decode`], the contract every pluggable codec step/flush pair
//!   must meet;
//! - [`decoder::Decoder`], the state machine that pulls chunks, feeds the
//!   codec and yields decoded output at suspension points or at the end.
//!
//! The machine itself is synchronous: each call of [`decoder::Decoder::next`]
//! takes the upstream's latest answer as an event and returns what the driver
//! must do next. An asynchronous driver around it lives outside this crate.

pub mod buffer;
pub mod codec;
pub mod decoder;
pub mod identity;

pub use buffer::PartialBuffer;
pub use codec::CodecError;
pub use codec::Decode;
pub use identity::IdentityCodec;
pub use decoder::Decoder;
pub use decoder::DecoderError;
pub use decoder::Event;
pub use decoder::Outcome;
pub use decoder::State;
pub use decoder::UpstreamError;
pub use decoder::OUTPUT_BUFFER_SIZE;
