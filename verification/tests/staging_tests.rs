use render_core::staging::{
    allocate_buffer, download, find_memory_type, upload, write_buffer, GpuBuffer, MemoryDomain,
    USAGE_INDEX, USAGE_TRANSFER_DST, USAGE_TRANSFER_SRC, USAGE_UNIFORM, USAGE_VERTEX,
};

#[test]
fn staging_round_trip_is_byte_identical() {
    // Upload a known byte pattern through the staging path and read it
    // back through the download path.
    let pattern: Vec<u8> = vec![0xDE, 0xAD, 0xBE, 0xEF, 0x00, 0x7F, 0x80, 0xFF, 0x01];
    let device_buffer = upload(&pattern, USAGE_VERTEX);
    let read_back = download(&device_buffer);
    assert_eq!(read_back, pattern);
}

#[test]
fn upload_targets_device_local_with_transfer_dst() {
    let payload: Vec<u8> = vec![1, 2, 3];
    let buf = upload(&payload, USAGE_INDEX);
    assert_eq!(buf.usage, USAGE_INDEX | USAGE_TRANSFER_DST);
    assert_eq!(buf.domain, MemoryDomain::DeviceLocal);
    assert_eq!(buf.contents, payload);
}

#[test]
fn upload_empty_payload() {
    let payload: Vec<u8> = vec![];
    let buf = upload(&payload, USAGE_VERTEX);
    assert_eq!(buf.contents.len(), 0);
    assert_eq!(download(&buf), payload);
}

#[test]
fn allocate_is_zero_filled() {
    let buf = allocate_buffer(16, USAGE_UNIFORM, MemoryDomain::HostVisible);
    assert_eq!(buf.contents, vec![0u8; 16]);
    assert_eq!(buf.usage, USAGE_UNIFORM);
    assert_eq!(buf.domain, MemoryDomain::HostVisible);
}

#[test]
fn memory_type_first_fit_wins() {
    // Device-local is 0x1, host-visible 0x2, host-coherent 0x4.
    let flags: Vec<u32> = vec![0x1, 0x6, 0x7];
    // Any type accepted; host-visible plus coherent demanded: type 1 fits first.
    assert_eq!(find_memory_type(0b111, 0x6, &flags), Some(1));
    // The type filter rules type 1 out: type 2 is next.
    assert_eq!(find_memory_type(0b101, 0x6, &flags), Some(2));
    // Device-local demanded and only type 0 offers it.
    assert_eq!(find_memory_type(0b111, 0x1, &flags), Some(0));
    // Nothing offers the combination.
    assert_eq!(find_memory_type(0b001, 0x6, &flags), None);
    assert_eq!(find_memory_type(0, 0x1, &flags), None);
}

#[test]
fn write_buffer_replaces_contents() {
    let mut buf = GpuBuffer {
        contents: vec![9, 9],
        usage: USAGE_TRANSFER_SRC,
        domain: MemoryDomain::HostVisible,
    };
    let data: Vec<u8> = vec![4, 5, 6, 7];
    write_buffer(&mut buf, &data);
    assert_eq!(buf.contents, data);
    assert_eq!(buf.usage, USAGE_TRANSFER_SRC);
    assert_eq!(buf.domain, MemoryDomain::HostVisible);
}
