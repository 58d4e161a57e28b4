//! An adapter that runs an ext4 engine over a 512-byte sector device and
//! exposes its nodes through a small virtual-filesystem vocabulary.

pub mod adapter;
pub mod flags;
pub mod node;
pub mod sector;

