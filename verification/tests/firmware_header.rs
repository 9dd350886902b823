use hpm_riscv_rt::header::{
    flash_config_words, FwContainerHeader, FwInfoTable, FW_CONTAINER_HEADER_BYTES,
    FW_CONTAINER_TAG, FW_CONTAINER_VERSION, FW_HASH_BYTES, FW_INFO_TABLE_BYTES,
    FW_TAIL_RESERVED_BYTES,
};

#[test]
fn container_header_carries_tag_version_and_combined_length() {
    let h = FwContainerHeader::new(0x0203);
    assert_eq!(h.tag, FW_CONTAINER_TAG);
    assert_eq!(h.tag, 0xBF);
    assert_eq!(h.version, FW_CONTAINER_VERSION);
    assert_eq!(h.version, 0x10);
    assert_eq!(h.length, FW_CONTAINER_HEADER_BYTES + FW_INFO_TABLE_BYTES);
    assert_eq!(h.length, 144);
    assert_eq!(h.flags, 0);
    assert_eq!(h.sw_version, 0x0203);
    assert_eq!(h.fuse_version, 0);
    assert_eq!(h.number_of_fw, 1);
    assert_eq!(h.device_config_block_offset, 0);
    assert_eq!(h.signature_block_offset, 0);
}

#[test]
fn info_table_carries_addresses_and_zeroed_reserved_fields() {
    let t = FwInfoTable::new(0x3000, 0x0002_0000, 0x8000_0000, 0x8000_3000);
    assert_eq!(t.offset, 0x3000);
    assert_eq!(t.size, 0x0002_0000);
    assert_eq!(t.load_addr, 0x8000_0000);
    assert_eq!(t.entry_point, 0x8000_3000);
    assert_eq!(t.flags, 0);
    assert_eq!(t._reserved1, 0);
    assert_eq!(t._reserved2, 0);
    assert_eq!(t._reserved3, 0);
    assert_eq!(t.hash.len(), FW_HASH_BYTES);
    assert!(t.hash.iter().all(|b| *b == 0));
    assert_eq!(t._reserved4.len(), FW_TAIL_RESERVED_BYTES);
    assert!(t._reserved4.iter().all(|b| *b == 0));
}

#[test]
fn flash_config_words_are_exact() {
    let w = flash_config_words();
    assert_eq!(w, vec![0xfcf9_0002, 0x0000_0006, 0x1000, 0x0]);
}
