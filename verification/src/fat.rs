//! The FAT32 boot-sector check: validating one block as a boot sector and
//! building the [`Volume`] descriptor it identifies.

use vstd::prelude::*;
use vstd::std_specs::cmp::PartialEqSpec;
use byteorder::{ByteOrder, LittleEndian};
use crate::device::{BLOCK_LEN, Block, BlockDevice, BlockIdx, Controller, Error};

verus! {

/// Partition-table type byte identifying a FAT32-with-LBA partition.
///
/// Consumed by a partition-table parser to decide where to call
/// [`parse_volume`]; not validated here.
pub const PARTITION_ID_FAT32_LBA: u8 = 0x0C;

/// Byte offset of the boot-sector signature within a block.
pub const FOOTER_START: usize = 510;

/// The little-endian value the signature bytes must hold.
pub const FOOTER_VALUE: u16 = 0xAA55;

/// Byte offset of the volume label within a boot sector.
pub const NAME_START: usize = 71;

/// Number of bytes in a volume label.
pub const NAME_LEN: usize = 11;

/// The boot-sector signature as a block stores it: the two bytes at
/// [`FOOTER_START`], least significant first.
pub open spec fn spec_footer(block: Seq<u8>) -> int
    recommends
        block.len() == BLOCK_LEN,
{
    block[FOOTER_START as int] + 0x100 * block[FOOTER_START + 1]
}

/// Whether a block carries the FAT32 boot-sector signature.
pub open spec fn has_signature(block: Seq<u8>) -> bool {
    spec_footer(block) == FOOTER_VALUE
}

/// The volume label: the [`NAME_LEN`] bytes at [`NAME_START`].
pub open spec fn spec_name(block: Seq<u8>) -> Seq<u8>
    recommends
        block.len() == BLOCK_LEN,
{
    block.subrange(NAME_START as int, NAME_START + NAME_LEN)
}

/// Identifies a FAT32 volume on the disk.
pub struct Volume {
    /// First block of the partition, copied verbatim from the caller.
    pub lba_start: BlockIdx,
    /// Partition extent in blocks, copied verbatim from the caller.
    pub num_blocks: BlockIdx,
    /// Raw volume label bytes from the boot sector; not guaranteed to be text.
    pub name: Vec<u8>,
}

impl Volume {
    /// The label always holds exactly [`NAME_LEN`] bytes.
    pub open spec fn wf(self) -> bool {
        self.name@.len() == NAME_LEN
    }
}

impl PartialEq for Volume {
    fn eq(&self, o: &Volume) -> (r: bool) {
        let r = self.lba_start == o.lba_start && self.num_blocks == o.num_blocks && self.name
            == o.name;
        proof {
            if self.name@.len() == o.name@.len() && (forall|i: int|
                0 <= i < self.name@.len() ==> self.name@[i] == o.name@[i]) {
                assert(self.name@ =~= o.name@);
            }
        }
        r
    }
}

impl Eq for Volume {

}

impl vstd::std_specs::cmp::PartialEqSpecImpl for Volume {
    open spec fn obeys_eq_spec() -> bool {
        true
    }

    open spec fn eq_spec(&self, o: &Volume) -> bool {
        self.lba_start == o.lba_start && self.num_blocks == o.num_blocks && self.name@ == o.name@
    }
}

/// Two volumes compare equal exactly when all three fields agree: the start
/// address, the extent, and every byte of the label. Changing any one field
/// breaks equality.
pub proof fn lemma_volume_eq(a: &Volume, b: &Volume)
    ensures
        a.eq_spec(b) <==> {
            &&& a.lba_start == b.lba_start
            &&& a.num_blocks == b.num_blocks
            &&& a.name@ == b.name@
        },
{
}

/// Relies on byteorder's `LittleEndian::read_u16`: the two bytes at `off`,
/// least significant byte first.
#[verifier::external_body]
fn read_u16_le_at(bytes: &Vec<u8>, off: usize) -> (r: u16)
    requires
        off + 2 <= bytes@.len(),
    ensures
        r as int == bytes@[off as int] + 0x100 * bytes@[off as int + 1],
{
    LittleEndian::read_u16(&bytes[off..off + 2])
}

/// Validate one block as a FAT32 boot sector and build the volume it
/// describes. Succeeds exactly when the block carries the boot-sector
/// signature; the label is copied verbatim, the address and extent are the
/// caller's own values.
pub fn volume_from_block(block: &Block, lba_start: BlockIdx, num_blocks: BlockIdx) -> (r: Option<
    Volume,
>)
    requires
        block.wf(),
    ensures
        r is Some <==> has_signature(block@),
        r matches Some(v) ==> {
            &&& v.lba_start == lba_start
            &&& v.num_blocks == num_blocks
            &&& v.name@ == spec_name(block@)
            &&& v.wf()
        },
{
    let footer = read_u16_le_at(&block.contents, FOOTER_START);
    if footer != FOOTER_VALUE {
        return None;
    }
    let mut name: Vec<u8> = Vec::new();
    let mut i: usize = 0;
    while i < NAME_LEN
        invariant
            i <= NAME_LEN,
            name@.len() == i as int,
            forall|j: int| 0 <= j < i ==> name@[j] == block@[NAME_START + j],
            block.wf(),
        decreases NAME_LEN - i,
    {
        name.push(block.contents[NAME_START + i]);
        i += 1;
    }
    proof {
        assert(name@ =~= spec_name(block@));
    }
    Some(Volume { lba_start, num_blocks, name })
}

/// A failed device read is surfaced unchanged, tagged as a device error:
/// nothing of the device's own error value is lost or reinterpreted.
pub fn wrap_device_error<E>(e: E) -> (r: Error<E>)
    ensures
        r == Error::<E>::DeviceError(e),
{
    Error::DeviceError(e)
}

/// Read the boot sector at `lba_start` through the controller's device and
/// validate it as a FAT32 volume.
///
/// Exactly one block read is issued. A device failure is returned unchanged
/// as a device error; a block without the boot-sector signature yields a
/// format error; otherwise the returned volume carries the caller's address
/// and extent verbatim and the label copied from the boot sector (see
/// [`volume_from_block`] for the exact relation to the block's bytes).
pub fn parse_volume<D: BlockDevice>(
    controller: &mut Controller<D>,
    lba_start: BlockIdx,
    num_blocks: BlockIdx,
) -> (r: Result<Volume, Error<D::Error>>)
    ensures
        r matches Ok(v) ==> {
            &&& v.lba_start == lba_start
            &&& v.num_blocks == num_blocks
            &&& v.wf()
        },
        r matches Err(Error::FormatError(m)) ==> m@ == "Invalid partition signature."@,
{
    let mut blocks: Vec<Block> = Vec::new();
    blocks.push(Block::new());
    match controller.block_device.read(&mut blocks, lba_start) {
        Err(e) => Err(wrap_device_error(e)),
        Ok(()) => match volume_from_block(&blocks[0], lba_start, num_blocks) {
            Some(volume) => Ok(volume),
            None => Err(Error::FormatError("Invalid partition signature.")),
        },
    }
}

} // verus!
