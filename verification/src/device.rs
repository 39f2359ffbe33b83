//! The block-device layer: fixed-size blocks, block addresses, the device
//! trait through which blocks are read, and the error taxonomy.

use vstd::prelude::*;

verus! {

/// Number of bytes in one block.
pub const BLOCK_LEN: usize = 512;

/// The address of a block on the device, counted in whole blocks.
///
/// A distinct wrapper type, so that block addresses cannot be mixed up with
/// byte offsets or plain counters.
#[derive(Clone, Copy, PartialEq, Eq, Structural, Debug)]
pub struct BlockIdx(pub u32);

/// One fixed-size unit of storage, used as a transient read buffer.
pub struct Block {
    pub contents: Vec<u8>,
}

impl Block {
    /// A block is well formed when it holds exactly [`BLOCK_LEN`] bytes.
    pub open spec fn wf(self) -> bool {
        self.contents@.len() == BLOCK_LEN
    }

    /// A fresh, zero-filled block.
    pub fn new() -> (r: Block)
        ensures
            r.wf(),
            forall|i: int| 0 <= i < BLOCK_LEN ==> r@[i] == 0u8,
    {
        Block { contents: vec![0u8; BLOCK_LEN] }
    }
}

impl View for Block {
    type V = Seq<u8>;

    open spec fn view(&self) -> Seq<u8> {
        self.contents@
    }
}

/// The transport that can fill blocks with data read from a storage device.
///
/// Implementations live outside this crate (an SPI or SDIO driver, a test
/// double). A successful read fills every supplied buffer completely: there
/// is no partial-read outcome, each block either holds its full contents or
/// the whole call fails with the device's own error.
pub trait BlockDevice {
    /// The device's own error type, treated here as an opaque payload.
    type Error;

    /// Read consecutive blocks starting at `start` into `blocks`.
    fn read(&mut self, blocks: &mut Vec<Block>, start: BlockIdx) -> (r: Result<
        (),
        Self::Error,
    >)
        ensures
            r is Ok ==> final(blocks)@.len() == old(blocks)@.len(),
            r is Ok ==> forall|i: int|
                0 <= i < final(blocks)@.len() ==> (#[trigger] final(blocks)@[i]).wf(),
    ;
}

/// Owns the block device through which reads are issued.
pub struct Controller<D: BlockDevice> {
    pub block_device: D,
}

impl<D: BlockDevice> Controller<D> {
    /// Take ownership of a device.
    pub fn new(block_device: D) -> (r: Controller<D>)
        ensures
            r.block_device == block_device,
    {
        Controller { block_device }
    }
}

/// What can go wrong while identifying a volume.
pub enum Error<E> {
    /// The device itself failed; holds the device's own error value, unchanged.
    DeviceError(E),
    /// The block was read, but does not carry the expected on-disk structure.
    FormatError(&'static str),
}

} // verus!
