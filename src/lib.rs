//! Bridge between a FAT filesystem engine and a generic VFS layer: the
//! byte-stream view of a block device, the superblock lifecycle decisions,
//! and the construction of the volume's root node.

pub mod blocks;
pub mod error;
pub mod mount;
pub mod root;
pub mod stream;
