use flash_algorithm::device::{
    push_sector, FlashDeviceDescription, FlashSector, ERASE_TIME_OUT, PROGRAM_TIME_OUT,
};
use flash_algorithm::encoding::{push_all, push_filled, push_u16, push_u32};
use flash_algorithm::self_test::{push_item, SelfTestDescription, SelfTestItem};

fn golden_device() -> Vec<u8> {
    let mut golden: Vec<u8> = Vec::new();
    golden.extend_from_slice(&[0x00, 0x00]);
    golden.extend_from_slice("stm32wle5".as_bytes());
    golden.extend_from_slice(&[0u8; 119]);
    golden.extend_from_slice(&[0x05, 0x00]);
    golden.extend_from_slice(&[0x00, 0x00, 0x00, 0x08]);
    golden.extend_from_slice(&[0x00, 0x00, 0x04, 0x00]);
    golden.extend_from_slice(&[0x00, 0x04, 0x00, 0x00]);
    golden.extend_from_slice(&[0x00, 0x00, 0x00, 0x00]);
    golden.extend_from_slice(&[0xff, 0x00, 0x00, 0x00]);
    golden.extend_from_slice(&[0xe8, 0x03, 0x00, 0x00]);
    golden.extend_from_slice(&[0xd0, 0x07, 0x00, 0x00]);
    golden.extend_from_slice(&[0x00, 0x04, 0x00, 0x00, 0x00, 0x00, 0x00, 0x00]);
    golden.extend_from_slice(&[0xff; 8]);
    golden
}

#[test]
fn device_descriptor_golden() {
    let sectors = vec![FlashSector { size: 0x400, address: 0x0 }];
    let device = FlashDeviceDescription::new("stm32wle5", 0x0800_0000, 0x40000, 0x400, 0xff, sectors);
    let bytes = device.to_bytes();
    assert_eq!(bytes.len(), 176);
    assert_eq!(bytes, golden_device());
}

#[test]
fn device_descriptor_fields_at_their_offsets() {
    let sectors = vec![FlashSector { size: 0x400, address: 0x0 }];
    let device = FlashDeviceDescription::new("stm32wle5", 0x0800_0000, 0x40000, 0x400, 0xff, sectors);
    let bytes = device.to_bytes();
    assert_eq!(&bytes[0..2], &[0x00, 0x00]);
    assert_eq!(&bytes[2..11], "stm32wle5".as_bytes());
    assert!(bytes[11..130].iter().all(|b| *b == 0));
    assert_eq!(&bytes[130..132], &[0x05, 0x00]);
    assert_eq!(&bytes[132..136], &[0x00, 0x00, 0x00, 0x08]);
    assert_eq!(&bytes[136..140], &0x40000u32.to_le_bytes());
    assert_eq!(&bytes[140..144], &0x400u32.to_le_bytes());
    assert_eq!(&bytes[144..148], &[0, 0, 0, 0]);
    assert_eq!(bytes[148], 0xff);
    assert_eq!(&bytes[149..152], &[0, 0, 0]);
    assert_eq!(&bytes[152..156], &1000u32.to_le_bytes());
    assert_eq!(&bytes[156..160], &2000u32.to_le_bytes());
    assert_eq!(PROGRAM_TIME_OUT, 1000);
    assert_eq!(ERASE_TIME_OUT, 2000);
}

#[test]
fn sector_list_ends_with_the_end_entry() {
    let lists: Vec<Vec<FlashSector>> = vec![
        vec![FlashSector { size: 0x400, address: 0 }],
        vec![
            FlashSector { size: 0x4000, address: 0 },
            FlashSector { size: 0x1_0000, address: 0x1_0000 },
            FlashSector { size: 0x2_0000, address: 0x2_0000 },
        ],
        vec![FlashSector { size: 0xffff_ffff, address: 0xffff_ffff }],
    ];
    for sectors in lists {
        let count = sectors.len();
        let device = FlashDeviceDescription::new("chip", 0, 0x10_0000, 0x100, 0x00, sectors);
        let bytes = device.to_bytes();
        assert_eq!(bytes.len(), 160 + 8 * (count + 1));
        assert_eq!(&bytes[bytes.len() - 8..], &[0xff; 8]);
    }
}

#[test]
fn sectors_are_laid_out_in_order() {
    let sectors = vec![
        FlashSector { size: 0x4000, address: 0 },
        FlashSector { size: 0x0001_0000, address: 0x0001_0000 },
        FlashSector { size: 0x1234_5678, address: 0x9abc_def0 },
    ];
    let device = FlashDeviceDescription::new("chip", 0x1000_0000, 0x10_0000, 0x100, 0x00, sectors);
    let bytes = device.to_bytes();
    assert_eq!(bytes[148], 0x00);
    assert_eq!(&bytes[132..136], &[0x00, 0x00, 0x00, 0x10]);
    assert_eq!(&bytes[160..168], &[0x00, 0x40, 0x00, 0x00, 0x00, 0x00, 0x00, 0x00]);
    assert_eq!(&bytes[168..176], &[0x00, 0x00, 0x01, 0x00, 0x00, 0x00, 0x01, 0x00]);
    assert_eq!(&bytes[176..184], &[0x78, 0x56, 0x34, 0x12, 0xf0, 0xde, 0xbc, 0x9a]);
    assert_eq!(&bytes[184..192], &[0xff; 8]);
    assert_eq!(bytes.len(), 192);
}

#[test]
fn device_name_of_full_width() {
    let name = "n".repeat(128);
    let sectors = vec![FlashSector { size: 1, address: 0 }];
    let device = FlashDeviceDescription::new(&name, 0, 0, 0, 0, sectors);
    let bytes = device.to_bytes();
    assert!(bytes[2..130].iter().all(|b| *b == b'n'));
    assert_eq!(&bytes[130..132], &[0x05, 0x00]);
}

fn golden_self_test() -> Vec<u8> {
    let mut golden: Vec<u8> = Vec::new();
    golden.extend_from_slice(&[0x6c, 0x75, 0x6f, 0x53]);
    golden.extend_from_slice(&[0x00, 0x00, 0x00, 0x20]);
    golden.extend_from_slice(&[0x00, 0x00, 0x01, 0x20]);
    golden.extend_from_slice(&[0x01, 0x00, 0x00, 0x00]);
    golden.extend_from_slice(&[0x01, 0x00, 0x00, 0x00]);
    golden.extend_from_slice("test".as_bytes());
    golden.extend_from_slice(&[0u8; 28]);
    golden.extend_from_slice(&[0xff; 36]);
    golden
}

#[test]
fn self_test_descriptor_golden() {
    let tests = vec![SelfTestItem::new(1, "test")];
    let description = SelfTestDescription::new(0x2000_0000, 0x2001_0000, tests);
    let bytes = description.to_bytes();
    assert_eq!(bytes.len(), 88);
    assert_eq!(bytes, golden_self_test());
}

#[test]
fn self_test_descriptor_starts_with_magic() {
    let tests = vec![SelfTestItem::new(7, "ram"), SelfTestItem::new(9, "flash")];
    let description = SelfTestDescription::new(0, 0, tests);
    let bytes = description.to_bytes();
    assert_eq!(&bytes[0..4], &[0x6c, 0x75, 0x6f, 0x53]);
    assert_eq!(&bytes[0..4], &0x536f_756cu32.to_le_bytes());
}

#[test]
fn self_test_items_are_packed_and_counted() {
    let tests = vec![
        SelfTestItem::new(7, "ram"),
        SelfTestItem::new(0x0102_0304, "flash"),
        SelfTestItem::new(0, ""),
    ];
    let description = SelfTestDescription::new(0x2000_0000, 0x2000_8000, tests);
    let bytes = description.to_bytes();
    assert_eq!(bytes.len(), 16 + 36 * 4);
    assert_eq!(&bytes[4..8], &0x2000_0000u32.to_le_bytes());
    assert_eq!(&bytes[8..12], &0x2000_8000u32.to_le_bytes());
    assert_eq!(&bytes[12..16], &[3, 0, 0, 0]);
    assert_eq!(&bytes[16..20], &[7, 0, 0, 0]);
    assert_eq!(&bytes[20..23], "ram".as_bytes());
    assert!(bytes[23..52].iter().all(|b| *b == 0));
    assert_eq!(&bytes[52..56], &[4, 3, 2, 1]);
    assert_eq!(&bytes[56..61], "flash".as_bytes());
    assert!(bytes[61..88].iter().all(|b| *b == 0));
    assert!(bytes[88..124].iter().all(|b| *b == 0));
    assert_eq!(&bytes[124..], &[0xff; 36]);
}

#[test]
fn self_test_item_fields() {
    let item = SelfTestItem::new(5, "checksum");
    assert_eq!(item.id, 5);
    assert_eq!(&item.name[..8], "checksum".as_bytes());
    assert!(item.name[8..].iter().all(|b| *b == 0));
    let end = SelfTestItem::end();
    assert_eq!(end.id, 0xffff_ffff);
    assert_eq!(end.name, [0xff; 32]);
}

#[test]
fn little_endian_fields() {
    let mut out: Vec<u8> = vec![0xaa];
    push_u16(&mut out, 0x1234);
    push_u32(&mut out, 0x0800_0000);
    push_u32(&mut out, 0xdead_beef);
    push_u16(&mut out, 5);
    assert_eq!(
        out,
        vec![0xaa, 0x34, 0x12, 0x00, 0x00, 0x00, 0x08, 0xef, 0xbe, 0xad, 0xde, 0x05, 0x00]
    );
}

#[test]
fn appended_runs_of_bytes() {
    let mut out: Vec<u8> = vec![1];
    push_all(&mut out, &[2, 3]);
    push_filled(&mut out, 9, 3);
    push_all(&mut out, &[]);
    push_filled(&mut out, 7, 0);
    assert_eq!(out, vec![1, 2, 3, 9, 9, 9]);
}

#[test]
fn one_sector_and_one_item() {
    let mut out: Vec<u8> = Vec::new();
    push_sector(&mut out, FlashSector { size: 0x400, address: 0x0800_0000 });
    assert_eq!(out, vec![0x00, 0x04, 0x00, 0x00, 0x00, 0x00, 0x00, 0x08]);
    let mut packed: Vec<u8> = Vec::new();
    push_item(&mut packed, &SelfTestItem::new(0x11, "a"));
    assert_eq!(packed.len(), 36);
    assert_eq!(&packed[..5], &[0x11, 0, 0, 0, b'a']);
    assert!(packed[5..].iter().all(|b| *b == 0));
}
