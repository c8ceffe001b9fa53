//! A platform agnostic driver for the MMA7660FC 3-axis accelerometer, spoken
//! to over a two-wire serial bus.
//!
//! The driver owns a bus transport, puts the chip into active sampling at
//! construction, and decodes the chip's 6-bit two's-complement axis registers
//! into signed samples.

mod decode;
mod driver;
mod registers;
mod transport;

pub use decode::decode_sample;
pub use decode::decode_spec;
pub use decode::encode_sample;
pub use decode::encode_spec;
pub use decode::lemma_decode_encode;
pub use decode::lemma_decode_in_range;
pub use decode::lemma_decode_injective;
pub use decode::lemma_decode_onto;
pub use decode::lemma_encode_decode;
pub use decode::lemma_fixed_byte_reads_agree;
pub use decode::lemma_mask_irrelevant;
pub use decode::lemma_round_trip;
pub use driver::decode_triple;
pub use driver::I8x3;
pub use driver::Mma7660fc;
pub use registers::Mode;
pub use registers::Register;
pub use registers::ADDRESS;
pub use transport::FixedTransport;
pub use transport::NoError;
pub use transport::ScriptedTransport;
pub use transport::Transport;
