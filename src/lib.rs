//! Runtime engine of a bullet-hell shooter: asset decoders and the
//! frame-driven bytecode interpreters for animations, enemies and stages.

pub mod anm0;
pub mod anm0_vm;
pub mod bitstream;
pub mod bytes;
pub mod ecl;
pub mod ecl_vm;
pub mod enemy;
pub mod interpolator;
pub mod lzss;
pub mod pbg3;
pub mod prng;
pub mod stage;
pub mod stage_vm;
pub mod text;
