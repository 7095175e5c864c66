//! Decoders for GPU block-compressed texture formats: BC1 to BC5, with BC7 refused.
pub mod bc;
pub mod convert;
