use fat_volume::{parse_volume, Block, BlockDevice, BlockIdx, Controller, Error, Volume};
use fat_volume::fat::{volume_from_block, wrap_device_error};

/// A device backed by one in-memory block image, optionally failing instead.
struct FakeDevice {
    data: Vec<u8>,
    fail_with: Option<u32>,
    reads: usize,
    last_start: Option<BlockIdx>,
}

impl FakeDevice {
    fn new(data: Vec<u8>) -> FakeDevice {
        FakeDevice { data, fail_with: None, reads: 0, last_start: None }
    }

    fn failing(code: u32) -> FakeDevice {
        FakeDevice { data: Vec::new(), fail_with: Some(code), reads: 0, last_start: None }
    }
}

impl BlockDevice for FakeDevice {
    type Error = u32;

    fn read(&mut self, blocks: &mut Vec<Block>, start: BlockIdx) -> Result<(), u32> {
        self.reads += 1;
        self.last_start = Some(start);
        if let Some(code) = self.fail_with {
            return Err(code);
        }
        for b in blocks.iter_mut() {
            b.contents = self.data.clone();
        }
        Ok(())
    }
}

/// A 512-byte image with the boot-sector signature and the label
/// `"MYVOLUME   "` (eleven bytes) at offset 71.
fn good_image() -> Vec<u8> {
    let mut data = vec![0u8; 512];
    data[510] = 0x55;
    data[511] = 0xAA;
    data[71..82].copy_from_slice(b"MYVOLUME   ");
    data
}

#[test]
fn parses_valid_boot_sector() {
    let mut controller = Controller::new(FakeDevice::new(good_image()));
    let r = parse_volume(&mut controller, BlockIdx(2048), BlockIdx(409600));
    match r {
        Ok(v) => {
            assert!(v.lba_start == BlockIdx(2048));
            assert!(v.num_blocks == BlockIdx(409600));
            assert_eq!(v.name, b"MYVOLUME   ".to_vec());
        }
        Err(_) => panic!("expected a volume"),
    }
    assert_eq!(controller.block_device.reads, 1);
    assert!(controller.block_device.last_start == Some(BlockIdx(2048)));
}

#[test]
fn rejects_missing_signature() {
    let mut data = good_image();
    data[510] = 0x00;
    data[511] = 0x00;
    let mut controller = Controller::new(FakeDevice::new(data));
    let r = parse_volume(&mut controller, BlockIdx(2048), BlockIdx(409600));
    match r {
        Err(Error::FormatError(m)) => assert_eq!(m, "Invalid partition signature."),
        _ => panic!("expected a format error"),
    }
}

#[test]
fn rejects_swapped_signature_bytes() {
    // The signature is little endian: the same two bytes in the other order
    // must not be accepted.
    let mut data = good_image();
    data[510] = 0xAA;
    data[511] = 0x55;
    let mut controller = Controller::new(FakeDevice::new(data));
    let r = parse_volume(&mut controller, BlockIdx(2048), BlockIdx(409600));
    assert!(matches!(r, Err(Error::FormatError(_))));
}

#[test]
fn device_error_passes_through_unchanged() {
    let mut controller = Controller::new(FakeDevice::failing(42));
    let r = parse_volume(&mut controller, BlockIdx(0), BlockIdx(1));
    match r {
        Err(Error::DeviceError(e)) => assert_eq!(e, 42),
        _ => panic!("expected a device error"),
    }
    assert_eq!(controller.block_device.reads, 1);
}

#[test]
fn wrap_device_error_keeps_payload() {
    match wrap_device_error(7u64) {
        Error::DeviceError(e) => assert_eq!(e, 7u64),
        Error::FormatError(_) => panic!("wrong variant"),
    }
}

#[test]
fn volume_from_block_accepts_signature() {
    let block = Block { contents: good_image() };
    let r = volume_from_block(&block, BlockIdx(5), BlockIdx(6));
    let v = r.expect("signature present");
    assert!(v.lba_start == BlockIdx(5));
    assert!(v.num_blocks == BlockIdx(6));
    assert_eq!(v.name, b"MYVOLUME   ".to_vec());
}

#[test]
fn volume_from_block_rejects_all_zero() {
    let block = Block { contents: vec![0u8; 512] };
    assert!(volume_from_block(&block, BlockIdx(5), BlockIdx(6)).is_none());
}

#[test]
fn block_new_is_zero_filled() {
    let b = Block::new();
    assert_eq!(b.contents.len(), 512);
    assert!(b.contents.iter().all(|&x| x == 0));
}

fn sample_volume() -> Volume {
    Volume { lba_start: BlockIdx(2048), num_blocks: BlockIdx(409600), name: b"MYVOLUME   ".to_vec() }
}

#[test]
fn equality_needs_all_three_fields() {
    let a = sample_volume();
    assert!(a == sample_volume());

    let mut b = sample_volume();
    b.lba_start = BlockIdx(2049);
    assert!(a != b);

    let mut c = sample_volume();
    c.num_blocks = BlockIdx(409601);
    assert!(a != c);

    let mut d = sample_volume();
    d.name = b"MYVOLUME  X".to_vec();
    assert!(a != d);
}

#[test]
fn render_of_text_label() {
    let v = sample_volume();
    assert_eq!(
        v.render(),
        "Volume(name=Ok(\"MYVOLUME   \"), lba_start=0x00000800, num_blocks=0x00064000)"
    );
}

#[test]
fn render_of_non_text_label() {
    let v = Volume {
        lba_start: BlockIdx(2048),
        num_blocks: BlockIdx(409600),
        name: vec![0xFF; 11],
    };
    let s = v.render();
    assert_eq!(
        s,
        "Volume(name=Err(invalid utf-8), lba_start=0x00000800, num_blocks=0x00064000)"
    );
}

#[test]
fn render_hex_extremes() {
    let v = Volume { lba_start: BlockIdx(0), num_blocks: BlockIdx(0xFFFF_FFFF), name: vec![b' '; 11] };
    assert_eq!(
        v.render(),
        "Volume(name=Ok(\"           \"), lba_start=0x00000000, num_blocks=0xffffffff)"
    );
}
