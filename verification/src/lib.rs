//! Identification and validation of a FAT32 volume on a block device.
//!
//! The entry point is [`fat::parse_volume`]: it reads one block at a
//! caller-supplied address, checks the boot-sector signature, and returns a
//! typed [`fat::Volume`] descriptor or a typed failure.

pub mod device;
pub mod fat;
pub mod render;

pub use device::Block;
pub use device::BlockDevice;
pub use device::BlockIdx;
pub use device::Controller;
pub use device::Error;
pub use fat::Volume;
pub use fat::parse_volume;
