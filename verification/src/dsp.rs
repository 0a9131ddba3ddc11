//! Delay lines, processors and the oversampler built from them.

pub mod dc_block;
pub mod fir;
pub mod oversample;
pub mod processor;
pub mod ring_buffer;

pub use dc_block::DCBlock;
pub use oversample::{FastOversampleX4, OversampleX4};
pub use processor::{IdentityProcessor, MonoProcessor, NullProcessor};
pub use ring_buffer::{DelayLine, RingBuffer, RingBufferIter, SmallRingBuffer};
