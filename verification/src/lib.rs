//! The signal path of a variable-hardness clipper, without the arithmetic:
//! delay lines, the processor interface and the four-times oversampler, each for
//! any sample type. The caller brings the samples and what to compute on them.

pub mod dsp;
pub mod luts;
