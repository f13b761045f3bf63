//! The SM4 block cipher: 128-bit blocks, 128-bit keys, 32 rounds.
pub mod block;
pub mod consts;
pub mod handle;
pub mod inverse;
pub mod rounds;
pub mod schedule;
pub mod transform;

pub use handle::Sm4;
