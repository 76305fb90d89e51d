//! Code that the storage derives write.

pub mod emit;
pub mod item;
pub mod storage_key;
pub mod storage_layout;
pub mod text;
