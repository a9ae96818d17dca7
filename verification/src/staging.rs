use vstd::prelude::*;

verus! {

/// Buffer usage bit: the buffer can be the source of a transfer.
pub const USAGE_TRANSFER_SRC: u32 = 0x1;

/// Buffer usage bit: the buffer can be the destination of a transfer.
pub const USAGE_TRANSFER_DST: u32 = 0x2;

/// Buffer usage bit: the buffer backs a uniform binding.
pub const USAGE_UNIFORM: u32 = 0x10;

/// Buffer usage bit: the buffer holds index data.
pub const USAGE_INDEX: u32 = 0x40;

/// Buffer usage bit: the buffer holds vertex data.
pub const USAGE_VERTEX: u32 = 0x80;

/// Which memory domain backs a resource: host-visible memory the CPU can
/// map, or device-local memory only transfers and shaders reach.
#[derive(Clone, Copy, PartialEq, Eq, Structural, Debug)]
pub enum MemoryDomain {
    HostVisible,
    DeviceLocal,
}

/// A buffer resource: its backing bytes, its usage bits and its memory
/// domain. Transient staging buffers are host-visible and die right after
/// the copy that drains them; persistent resources are device-local.
pub struct GpuBuffer {
    pub contents: Vec<u8>,
    pub usage: u32,
    pub domain: MemoryDomain,
}

/// Allocates a zero-filled buffer of the given size.
pub fn allocate_buffer(size: usize, usage: u32, domain: MemoryDomain) -> (r: GpuBuffer)
    ensures
        r.contents@.len() == size,
        forall|k: int| 0 <= k < size ==> r.contents@[k] == 0u8,
        r.usage == usage,
        r.domain == domain,
{
    let mut contents: Vec<u8> = Vec::new();
    let mut i: usize = 0;
    while i < size
        invariant
            i <= size,
            contents@.len() == i,
            forall|k: int| 0 <= k < i ==> contents@[k] == 0u8,
        decreases size - i,
    {
        contents.push(0u8);
        i = i + 1;
    }
    GpuBuffer { contents, usage, domain }
}

/// The mapped-memory write: copies the payload byte for byte into a fresh
/// byte vector, as the CPU fills a mapped staging buffer.
pub fn copy_bytes(src: &Vec<u8>) -> (r: Vec<u8>)
    ensures
        r@ == src@,
{
    let n: usize = src.len();
    let mut dst: Vec<u8> = Vec::new();
    let mut i: usize = 0;
    while i < n
        invariant
            i <= n,
            n == src@.len(),
            dst@.len() == i,
            forall|k: int| 0 <= k < i ==> dst@[k] == src@[k],
        decreases n - i,
    {
        dst.push(src[i]);
        i = i + 1;
    }
    proof {
        assert(dst@ =~= src@);
    }
    dst
}

/// The device-side transfer: overwrites the destination's bytes with the
/// source's, leaving usage and domain as they were.
fn copy_buffer(src: &GpuBuffer, dst: &mut GpuBuffer)
    ensures
        final(dst).contents@ == src.contents@,
        final(dst).usage == old(dst).usage,
        final(dst).domain == old(dst).domain,
{
    dst.contents = copy_bytes(&src.contents);
}

/// The one-shot host-to-device mover: stages the payload in a host-visible
/// buffer, allocates the device-local destination with the transfer bit
/// added to the requested usage, copies staging into it, and drops the
/// staging buffer. The destination holds exactly the payload.
pub fn upload(bytes: &Vec<u8>, dst_usage: u32) -> (r: GpuBuffer)
    ensures
        r.contents@ == bytes@,
        r.usage == (dst_usage | USAGE_TRANSFER_DST),
        r.domain == MemoryDomain::DeviceLocal,
{
    let staging = GpuBuffer {
        contents: copy_bytes(bytes),
        usage: USAGE_TRANSFER_SRC,
        domain: MemoryDomain::HostVisible,
    };
    let mut dst = allocate_buffer(
        bytes.len(),
        dst_usage | USAGE_TRANSFER_DST,
        MemoryDomain::DeviceLocal,
    );
    copy_buffer(&staging, &mut dst);
    dst
}

/// The host-visible write path: maps the buffer, copies the payload in,
/// and unmaps, replacing what the buffer held.
pub fn write_buffer(buf: &mut GpuBuffer, data: &Vec<u8>)
    ensures
        final(buf).contents@ == data@,
        final(buf).usage == old(buf).usage,
        final(buf).domain == old(buf).domain,
{
    buf.contents = copy_bytes(data);
}

/// The read-back path: maps the buffer and copies its bytes out.
pub fn download(buf: &GpuBuffer) -> (r: Vec<u8>)
    ensures
        r@ == buf.contents@,
{
    copy_bytes(&buf.contents)
}

/// Memory type `i` works for an allocation: the resource's type filter
/// has bit `i` set, and the type's property flags include everything
/// required.
pub open spec fn spec_memory_type_fits(
    type_filter: u32,
    required: u32,
    flags: Seq<u32>,
    i: int,
) -> bool {
    type_filter & (1u32 << (i as u32)) != 0 && flags[i] & required == required
}

/// Picks the first memory type that the resource accepts and that offers
/// all the required property flags; with none, allocation cannot proceed.
pub fn find_memory_type(
    type_filter: u32,
    required_properties: u32,
    memory_type_flags: &Vec<u32>,
) -> (r: Option<u32>)
    requires
        memory_type_flags@.len() <= 32,
    ensures
        r is Some <==> exists|i: int|
            0 <= i < memory_type_flags@.len() && spec_memory_type_fits(
                type_filter,
                required_properties,
                memory_type_flags@,
                i,
            ),
        r is Some ==> r->0 < memory_type_flags@.len() && spec_memory_type_fits(
            type_filter,
            required_properties,
            memory_type_flags@,
            r->0 as int,
        ) && (forall|j: int|
            0 <= j < r->0 ==> !spec_memory_type_fits(
                type_filter,
                required_properties,
                memory_type_flags@,
                j,
            )),
{
    let n: usize = memory_type_flags.len();
    let mut i: usize = 0;
    while i < n
        invariant
            i <= n,
            n == memory_type_flags@.len(),
            n <= 32,
            forall|j: int|
                0 <= j < i ==> !spec_memory_type_fits(
                    type_filter,
                    required_properties,
                    memory_type_flags@,
                    j,
                ),
        decreases n - i,
    {
        if type_filter & (1u32 << (i as u32)) != 0 && memory_type_flags[i] & required_properties
            == required_properties {
            assert(spec_memory_type_fits(
                type_filter,
                required_properties,
                memory_type_flags@,
                i as int,
            ));
            return Some(i as u32);
        }
        i = i + 1;
    }
    None
}

} // verus!
