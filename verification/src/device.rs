//! The `FlashDevice` descriptor and its byte image.
//!
//! The host reads the descriptor out of the image file, in the layout that a C
//! compiler gives the record: fields in order, each at its natural alignment,
//! integers little-endian.

use vstd::prelude::*;
use vstd::string::StringSliceAdditionalSpecFns;
use crate::encoding::{filled, le_u16, le_u32, push_all, push_filled, push_u16, push_u32};
use crate::name::{assign_name, fits, zero_padded, DEVICE_NAME_WIDTH};

verus! {

/// Value of the version field.
pub const DESCRIPTOR_VERSION: u16 = 0;

/// Value of the device type field: internal flash.
pub const DEVICE_TYPE_ONCHIP: u16 = 5;

/// Worst-case time to program a page, in milliseconds.
pub const PROGRAM_TIME_OUT: u32 = 1000;

/// Worst-case time to erase a sector, in milliseconds.
pub const ERASE_TIME_OUT: u32 = 2000;

/// Both fields of the entry that ends the sector list.
pub const SECTOR_END: u32 = 0xffff_ffff;

/// Bytes from the start of the descriptor to its sector list.
pub const SECTOR_LIST_OFFSET: usize = 160;

/// Bytes of one entry of the sector list.
pub const SECTOR_ENTRY_SIZE: usize = 8;

/// A run of equally sized sectors: the size of each and the address, relative
/// to the start of the flash, at which the run begins.
#[derive(Copy, Clone, Debug, PartialEq, Eq)]
pub struct FlashSector {
    pub size: u32,
    pub address: u32,
}

/// The entry that ends every sector list.
pub open spec fn end_of_sectors() -> FlashSector {
    FlashSector { size: SECTOR_END, address: SECTOR_END }
}

/// The eight bytes of one entry: size, then address.
pub open spec fn sector_bytes(sector: FlashSector) -> Seq<u8> {
    le_u32(sector.size) + le_u32(sector.address)
}

/// The bytes of a list of entries, one entry after the other.
pub open spec fn sector_list_bytes(sectors: Seq<FlashSector>) -> Seq<u8> {
    Seq::new(8 * sectors.len(), |i: int| sector_bytes(sectors[i / 8])[i % 8])
}

/// The bytes of the descriptor before its sector list.
///
/// The empty-value byte is followed by three bytes of padding, which are zero.
pub open spec fn device_header_bytes(
    name: Seq<u8>,
    device_address: u32,
    device_size: u32,
    page_size: u32,
    empty: u8,
) -> Seq<u8> {
    le_u16(DESCRIPTOR_VERSION) + name + le_u16(DEVICE_TYPE_ONCHIP) + le_u32(device_address)
        + le_u32(device_size) + le_u32(page_size) + le_u32(0) + seq![empty] + filled(0, 3)
        + le_u32(PROGRAM_TIME_OUT) + le_u32(ERASE_TIME_OUT)
}

/// Adding an entry to a list adds its bytes to the end of the list's bytes.
pub proof fn lemma_sector_list_push(sectors: Seq<FlashSector>, sector: FlashSector)
    ensures
        sector_list_bytes(sectors.push(sector)) == sector_list_bytes(sectors) + sector_bytes(
            sector,
        ),
{
    let longer = sectors.push(sector);
    let joined = sector_list_bytes(sectors) + sector_bytes(sector);
    assert(sector_bytes(sector).len() == 8);
    assert forall|i: int| 0 <= i < 8 * longer.len() implies sector_list_bytes(longer)[i]
        == joined[i] by {
        if i < 8 * sectors.len() {
            assert(longer[i / 8] == sectors[i / 8]);
        } else {
            assert(i / 8 == sectors.len());
            assert(i % 8 == i - 8 * sectors.len());
        }
    }
    assert(sector_list_bytes(longer) =~= joined);
}

/// Appends the bytes of one entry of the sector list to `out`.
pub fn push_sector(out: &mut Vec<u8>, sector: FlashSector)
    ensures
        final(out)@ == old(out)@ + sector_bytes(sector),
{
    push_u32(out, sector.size);
    push_u32(out, sector.address);
    assert(out@ =~= old(out)@ + sector_bytes(sector));
}

/// The description of a flash device, as the host finds it at the symbol
/// `FlashDevice`.
pub struct FlashDeviceDescription {
    dev_name: [u8; 128],
    dev_addr: u32,
    device_size: u32,
    page_size: u32,
    empty: u8,
    sectors: Vec<FlashSector>,
}

impl FlashDeviceDescription {
    /// The device name field: the name, padded with zeros to 128 bytes.
    pub closed spec fn dev_name(&self) -> Seq<u8> {
        self.dev_name@
    }

    /// Start address of the flash.
    pub closed spec fn dev_addr(&self) -> u32 {
        self.dev_addr
    }

    /// Size of the flash in bytes.
    pub closed spec fn device_size(&self) -> u32 {
        self.device_size
    }

    /// Size of a page in bytes.
    pub closed spec fn page_size(&self) -> u32 {
        self.page_size
    }

    /// Value of an erased byte.
    pub closed spec fn empty(&self) -> u8 {
        self.empty
    }

    /// The sectors that the author listed.
    pub closed spec fn sectors(&self) -> Seq<FlashSector> {
        self.sectors@
    }

    /// The sector list as the host reads it: the listed sectors, then the
    /// entry that ends the list.
    pub open spec fn flash_sectors(&self) -> Seq<FlashSector> {
        self.sectors().push(end_of_sectors())
    }

    /// Holds of every description that `new` hands out: the name field has
    /// its 128 bytes, and at least one sector is listed.
    pub open spec fn wf(&self) -> bool {
        &&& self.dev_name().len() == DEVICE_NAME_WIDTH
        &&& self.sectors().len() > 0
    }

    #[verifier::type_invariant]
    spec fn listed(&self) -> bool {
        self.sectors@.len() > 0
    }

    /// The descriptor, byte for byte.
    pub open spec fn image(&self) -> Seq<u8> {
        device_header_bytes(
            self.dev_name(),
            self.dev_addr(),
            self.device_size(),
            self.page_size(),
            self.empty(),
        ) + sector_list_bytes(self.flash_sectors())
    }

    /// Describes a device.
    ///
    /// The name must fit its field of 128 bytes, and at least one sector must
    /// be listed.
    pub fn new(
        target_name: &str,
        flash_address: u32,
        flash_size: u32,
        page_size: u32,
        empty_value: u8,
        sectors: Vec<FlashSector>,
    ) -> (description: Self)
        requires
            fits(target_name.spec_bytes(), DEVICE_NAME_WIDTH as nat),
            sectors@.len() > 0,
        ensures
            description.wf(),
            description.dev_name() == zero_padded(
                target_name.spec_bytes(),
                DEVICE_NAME_WIDTH as nat,
            ),
            description.dev_addr() == flash_address,
            description.device_size() == flash_size,
            description.page_size() == page_size,
            description.empty() == empty_value,
            description.sectors() == sectors@,
    {
        FlashDeviceDescription {
            dev_name: assign_name::<128>(target_name),
            dev_addr: flash_address,
            device_size: flash_size,
            page_size,
            empty: empty_value,
            sectors,
        }
    }

    /// The bytes of the section `DeviceData`.
    pub fn to_bytes(&self) -> (bytes: Vec<u8>)
        ensures
            self.wf(),
            bytes@ == self.image(),
            bytes@.len() == SECTOR_LIST_OFFSET + SECTOR_ENTRY_SIZE * (self.sectors().len() + 1),
    {
        proof {
            use_type_invariant(self);
        }
        let mut out: Vec<u8> = Vec::new();
        push_u16(&mut out, DESCRIPTOR_VERSION);
        push_all(&mut out, self.dev_name.as_slice());
        push_u16(&mut out, DEVICE_TYPE_ONCHIP);
        push_u32(&mut out, self.dev_addr);
        push_u32(&mut out, self.device_size);
        push_u32(&mut out, self.page_size);
        push_u32(&mut out, 0);
        out.push(self.empty);
        push_filled(&mut out, 0, 3);
        push_u32(&mut out, PROGRAM_TIME_OUT);
        push_u32(&mut out, ERASE_TIME_OUT);
        let ghost header = device_header_bytes(
            self.dev_name(),
            self.dev_addr(),
            self.device_size(),
            self.page_size(),
            self.empty(),
        );
        assert(out@ =~= header);
        assert(sector_list_bytes(self.sectors@.take(0)) =~= Seq::<u8>::empty());
        let mut i: usize = 0;
        while i < self.sectors.len()
            invariant
                i <= self.sectors@.len(),
                out@ == header + sector_list_bytes(self.sectors@.take(i as int)),
            decreases self.sectors@.len() - i,
        {
            let sector = self.sectors[i];
            push_sector(&mut out, sector);
            proof {
                lemma_sector_list_push(self.sectors@.take(i as int), sector);
                assert(self.sectors@.take(i as int).push(sector) =~= self.sectors@.take(i + 1));
            }
            i += 1;
        }
        assert(self.sectors@.take(i as int) =~= self.sectors@);
        push_sector(&mut out, FlashSector { size: SECTOR_END, address: SECTOR_END });
        proof {
            lemma_sector_list_push(self.sectors@, end_of_sectors());
        }
        out
    }
}

/// Whatever sectors are listed, the sector list ends with the end entry, and
/// the image ends with that entry's bytes: eight bytes of 0xff.
pub proof fn law_sector_list_terminated(description: FlashDeviceDescription)
    ensures
        description.flash_sectors().last() == end_of_sectors(),
        description.image().len() >= 8,
        description.image().skip(description.image().len() - 8) == filled(0xff, 8),
{
    let image = description.image();
    let list = sector_list_bytes(description.flash_sectors());
    lemma_sector_list_push(description.sectors(), end_of_sectors());
    assert(sector_bytes(end_of_sectors()) =~= filled(0xff, 8));
    assert(image.skip(image.len() - 8) =~= filled(0xff, 8));
}

/// The fields of the header stand at their offsets: the version at 0, the
/// name at 2, the device type at 130, the addresses and sizes from 132, the
/// empty value at 148, the time-outs at 152 and 156, the sector list at 160.
pub proof fn law_device_layout(description: FlashDeviceDescription)
    requires
        description.wf(),
    ensures
        description.image().subrange(0, 2) == le_u16(DESCRIPTOR_VERSION),
        description.image().subrange(2, 130) == description.dev_name(),
        description.image().subrange(130, 132) == le_u16(DEVICE_TYPE_ONCHIP),
        description.image().subrange(132, 136) == le_u32(description.dev_addr()),
        description.image().subrange(136, 140) == le_u32(description.device_size()),
        description.image().subrange(140, 144) == le_u32(description.page_size()),
        description.image().subrange(144, 148) == le_u32(0),
        description.image()[148] == description.empty(),
        description.image().subrange(149, 152) == filled(0, 3),
        description.image().subrange(152, 156) == le_u32(PROGRAM_TIME_OUT),
        description.image().subrange(156, 160) == le_u32(ERASE_TIME_OUT),
        description.image().skip(160) == sector_list_bytes(description.flash_sectors()),
{
    let image = description.image();
    assert(image.subrange(0, 2) =~= le_u16(DESCRIPTOR_VERSION));
    assert(image.subrange(2, 130) =~= description.dev_name());
    assert(image.subrange(130, 132) =~= le_u16(DEVICE_TYPE_ONCHIP));
    assert(image.subrange(132, 136) =~= le_u32(description.dev_addr()));
    assert(image.subrange(136, 140) =~= le_u32(description.device_size()));
    assert(image.subrange(140, 144) =~= le_u32(description.page_size()));
    assert(image.subrange(144, 148) =~= le_u32(0));
    assert(image.subrange(149, 152) =~= filled(0, 3));
    assert(image.subrange(152, 156) =~= le_u32(PROGRAM_TIME_OUT));
    assert(image.subrange(156, 160) =~= le_u32(ERASE_TIME_OUT));
    assert(image.skip(160) =~= sector_list_bytes(description.flash_sectors()));
}

} // verus!
