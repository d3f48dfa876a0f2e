//! The resource table by which the firmware tells the remote processor framework of
//! the other core which memory it occupies.
use vstd::prelude::*;
use crate::config::{MEM_SIZE, MEM_START};

verus! {

/// Header of a resource table: version, number of entries, and the entry offsets.
#[derive(Debug)]
pub struct ResourceTable {
    pub ver: u32,
    pub num: u32,
    pub reserved: [u32; 2],
    pub offset: [u32; 0],
}

/// Header of one resource entry: its type, followed by its data.
#[derive(Debug)]
pub struct FwRscHdr {
    pub type_: u32,
    pub data: [u8; 0],
}

/// A carve-out entry: a region of memory, by device and physical address, with its
/// length, flags and name.
#[derive(Debug, Clone, Copy)]
pub struct FwRscCarveout {
    pub da: u32,
    pub pa: u32,
    pub len: u32,
    pub flags: u32,
    pub reserved: u32,
    pub name: [u8; 32],
}

/// The resource table of this firmware: a header, the offset of its only entry, and
/// that entry, a carve-out.
#[derive(Debug)]
pub struct RemoteResourceTable {
    pub resource_table: ResourceTable,
    pub offset: [u32; 1],
    pub carve_out: FwRscHdr,
    pub carve_out_data: FwRscCarveout,
}

/// Resource type of a carve-out entry.
pub const RSC_CARVEOUT: u32 = 0;

/// Offset of the carve-out entry from the start of the table: the header (16 bytes)
/// and the one entry offset (4 bytes).
pub const CARVEOUT_ENTRY_OFFSET: u32 = 0x14;

/// The name of the carve-out of this firmware: "text", padded with zeros to 32 bytes.
pub open spec fn carveout_name() -> Seq<u8> {
    seq![116u8, 101u8, 120u8, 116u8] + Seq::new(28, |i: int| 0u8)
}

/// The resource table of this firmware: version 1 with one entry, at offset 0x14, a
/// carve-out of the firmware's memory (device and physical address `MEM_START`, size
/// `MEM_SIZE`, no flags) named "text".
pub fn resource_table() -> (r: RemoteResourceTable)
    ensures
        r.resource_table.ver == 1,
        r.resource_table.num == 1,
        r.resource_table.reserved@ == seq![0u32, 0u32],
        r.offset@ == seq![CARVEOUT_ENTRY_OFFSET],
        r.carve_out.type_ == RSC_CARVEOUT,
        r.carve_out_data.da == MEM_START,
        r.carve_out_data.pa == MEM_START,
        r.carve_out_data.len == MEM_SIZE,
        r.carve_out_data.flags == 0,
        r.carve_out_data.reserved == 0,
        r.carve_out_data.name@ == carveout_name(),
{
    let name: [u8; 32] = [
        116, 101, 120, 116, 0, 0, 0, 0, 0, 0, 0, 0, 0, 0, 0, 0,
        0, 0, 0, 0, 0, 0, 0, 0, 0, 0, 0, 0, 0, 0, 0, 0,
    ];
    let r = RemoteResourceTable {
        resource_table: ResourceTable { ver: 1, num: 1, reserved: [0, 0], offset: [] },
        offset: [CARVEOUT_ENTRY_OFFSET],
        carve_out: FwRscHdr { type_: RSC_CARVEOUT, data: [] },
        carve_out_data: FwRscCarveout {
            da: MEM_START as u32,
            pa: MEM_START as u32,
            len: MEM_SIZE as u32,
            flags: 0,
            reserved: 0,
            name,
        },
    };
    assert(r.carve_out_data.name@ =~= carveout_name());
    assert(r.resource_table.reserved@ =~= seq![0u32, 0u32]);
    assert(r.offset@ =~= seq![CARVEOUT_ENTRY_OFFSET]);
    r
}

} // verus!
