//! Terms less than a constant, one module for each unsigned integer type.
pub mod u8;
pub mod u16;
pub mod u32;
pub mod u64;
pub mod u128;
pub mod usize;
