//! The firmware container records a boot ROM reads: a container header
//! naming tag, version and length, and an info table naming where the
//! image sits, where it is loaded and where it enters.
//!
//! In the linked image the info table's location fields are addresses of
//! linker-produced symbols; here they are the address values themselves,
//! 32-bit words of the target. Build tooling places both records in their
//! dedicated link sections; the constructors here pin every field they
//! must carry.

use vstd::prelude::*;

verus! {

/// Tag value marking a firmware container header.
pub const FW_CONTAINER_TAG: u8 = 0xBF;

/// Container format version.
pub const FW_CONTAINER_VERSION: u8 = 0x10;

/// Size in bytes of the container header record in the target's layout.
pub const FW_CONTAINER_HEADER_BYTES: u16 = 16;

/// Size in bytes of the info table record in the target's layout.
pub const FW_INFO_TABLE_BYTES: u16 = 128;

/// Length of the info table's reserved hash field.
pub const FW_HASH_BYTES: usize = 64;

/// Length of the info table's trailing reserved field.
pub const FW_TAIL_RESERVED_BYTES: usize = 32;

/// The fixed-layout container header placed at the boot-header section.
pub struct FwContainerHeader {
    pub tag: u8,
    pub version: u8,
    pub length: u16,
    pub flags: u32,
    pub sw_version: u16,
    pub fuse_version: u8,
    pub number_of_fw: u8,
    pub device_config_block_offset: u16,
    pub signature_block_offset: u16,
}

impl FwContainerHeader {
    /// Builds the header for a single-firmware image of software version
    /// `sw_version`: the fixed tag and format version, the combined byte
    /// length of the two records, one firmware, and no device-config or
    /// signature blocks.
    pub fn new(sw_version: u16) -> (h: FwContainerHeader)
        ensures
            h.tag == FW_CONTAINER_TAG,
            h.version == FW_CONTAINER_VERSION,
            h.length == FW_CONTAINER_HEADER_BYTES + FW_INFO_TABLE_BYTES,
            h.flags == 0,
            h.sw_version == sw_version,
            h.fuse_version == 0,
            h.number_of_fw == 1,
            h.device_config_block_offset == 0,
            h.signature_block_offset == 0,
    {
        FwContainerHeader {
            tag: FW_CONTAINER_TAG,
            version: FW_CONTAINER_VERSION,
            length: FW_CONTAINER_HEADER_BYTES + FW_INFO_TABLE_BYTES,
            flags: 0,
            sw_version,
            fuse_version: 0,
            number_of_fw: 1,
            device_config_block_offset: 0,
            signature_block_offset: 0,
        }
    }
}

/// The fixed-layout record describing one firmware: its offset and size in
/// the image, its load address, its entry point, and a reserved hash.
pub struct FwInfoTable {
    pub offset: u32,
    pub size: u32,
    pub flags: u32,
    pub _reserved1: u32,
    pub load_addr: u32,
    pub _reserved2: u32,
    pub entry_point: u32,
    pub _reserved3: u32,
    pub hash: Vec<u8>,
    pub _reserved4: Vec<u8>,
}

impl FwInfoTable {
    /// The reserved fields a well-formed info table carries: a zeroed
    /// hash of its fixed length, a zeroed tail, and zeroed scalar
    /// reserveds.
    pub open spec fn wf(self) -> bool {
        &&& self.flags == 0
        &&& self._reserved1 == 0
        &&& self._reserved2 == 0
        &&& self._reserved3 == 0
        &&& self.hash.len() == FW_HASH_BYTES
        &&& forall|i: int| 0 <= i < self.hash.len() ==> self.hash[i] == 0
        &&& self._reserved4.len() == FW_TAIL_RESERVED_BYTES
        &&& forall|i: int| 0 <= i < self._reserved4.len() ==> self._reserved4[i] == 0
    }

    /// Builds the info table for an image that sits at `offset` with
    /// `size` bytes, is loaded at `load_addr` and enters at `entry_point`;
    /// every flag and reserved byte is zero.
    pub fn new(offset: u32, size: u32, load_addr: u32, entry_point: u32) -> (t: FwInfoTable)
        ensures
            t.offset == offset,
            t.size == size,
            t.load_addr == load_addr,
            t.entry_point == entry_point,
            t.wf(),
    {
        FwInfoTable {
            offset,
            size,
            flags: 0,
            _reserved1: 0,
            load_addr,
            _reserved2: 0,
            entry_point,
            _reserved3: 0,
            hash: vec![0u8; FW_HASH_BYTES],
            _reserved4: vec![0u8; FW_TAIL_RESERVED_BYTES],
        }
    }
}

/// The flash configuration words placed at the flash-config section, in
/// order: the configuration tag, the option words count and frequency
/// option, the sector size, and a terminating zero.
pub fn flash_config_words() -> (w: Vec<u32>)
    ensures
        w@.len() == 4,
        w@[0] == 0xfcf90002u32,
        w@[1] == 0x00000006u32,
        w@[2] == 0x1000u32,
        w@[3] == 0u32,
{
    let mut w: Vec<u32> = Vec::new();
    w.push(0xfcf90002);
    w.push(0x00000006);
    w.push(0x1000);
    w.push(0x0);
    w
}

} // verus!
