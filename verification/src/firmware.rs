use vstd::prelude::*;

verus! {

/// A firmware handle, held as the address the firmware gave for it.
pub type Handle = usize;

/// A protocol's identifier.
#[derive(Clone, Copy, Debug)]
pub struct Guid {
    pub data1: u32,
    pub data2: u16,
    pub data3: u16,
    pub data4: [u8; 8],
}

/// Whether `g` is 5B1B31A1-9562-11D2-8E3F-00A0C969723B, the loaded-image protocol.
pub open spec fn is_loaded_image_protocol_guid(g: Guid) -> bool {
    &&& g.data1 == 0x5B1B31A1
    &&& g.data2 == 0x9562
    &&& g.data3 == 0x11D2
    &&& g.data4@ == seq![0x8Eu8, 0x3F, 0x00, 0xA0, 0xC9, 0x69, 0x72, 0x3B]
}

/// Whether `g` is 964E5B22-6459-11D2-8E39-00A0C969723B, the simple file system protocol.
pub open spec fn is_simple_file_system_protocol_guid(g: Guid) -> bool {
    &&& g.data1 == 0x964e5b22
    &&& g.data2 == 0x6459
    &&& g.data3 == 0x11d2
    &&& g.data4@ == seq![0x8eu8, 0x39, 0x00, 0xa0, 0xc9, 0x69, 0x72, 0x3b]
}

/// The identifier of the loaded-image protocol.
pub fn loaded_image_protocol_guid() -> (g: Guid)
    ensures
        is_loaded_image_protocol_guid(g),
{
    let g = Guid {
        data1: 0x5B1B31A1,
        data2: 0x9562,
        data3: 0x11D2,
        data4: [0x8E, 0x3F, 0x00, 0xA0, 0xC9, 0x69, 0x72, 0x3B],
    };
    assert(g.data4@ =~= seq![0x8Eu8, 0x3F, 0x00, 0xA0, 0xC9, 0x69, 0x72, 0x3B]);
    g
}

/// The identifier of the simple file system protocol.
pub fn simple_file_system_protocol_guid() -> (g: Guid)
    ensures
        is_simple_file_system_protocol_guid(g),
{
    let g = Guid {
        data1: 0x964e5b22,
        data2: 0x6459,
        data3: 0x11d2,
        data4: [0x8e, 0x39, 0x00, 0xa0, 0xc9, 0x69, 0x72, 0x3b],
    };
    assert(g.data4@ =~= seq![0x8eu8, 0x39, 0x00, 0xa0, 0xc9, 0x69, 0x72, 0x3b]);
    g
}

/// A key stroke as the keyboard reports it: a scan code for keys without a character,
/// or the character's code unit.
#[derive(PartialEq, Eq, Structural, Clone, Copy, Debug)]
pub struct InputKey {
    pub scan_code: u16,
    pub unicode_char: u16,
}

/// The header that starts each firmware table.
#[derive(PartialEq, Eq, Structural, Clone, Copy, Debug)]
pub struct TableHeader {
    pub signature: u64,
    pub revision: u32,
    pub header_size: u32,
    pub crc32: u32,
    pub reserved: u32,
}

/// The kinds of system reset the runtime services offer.
#[derive(PartialEq, Eq, Structural, Clone, Copy, Debug)]
pub enum ResetType {
    Cold,
    Warm,
    Shutdown,
    Update,
}

/// The number by which the firmware knows each kind of reset.
pub open spec fn reset_type_code(r: ResetType) -> u32 {
    match r {
        ResetType::Cold => 0,
        ResetType::Warm => 1,
        ResetType::Shutdown => 2,
        ResetType::Update => 3,
    }
}

impl ResetType {
    /// The number by which the firmware knows this kind of reset.
    pub fn code(self) -> (n: u32)
        ensures
            n == reset_type_code(self),
    {
        match self {
            ResetType::Cold => 0,
            ResetType::Warm => 1,
            ResetType::Shutdown => 2,
            ResetType::Update => 3,
        }
    }
}

/// The data of a loaded image: where it came from, where its load options are and how large
/// they are. Addresses and handles are held as the numbers the firmware gave for them.
#[derive(PartialEq, Eq, Structural, Clone, Copy, Debug)]
pub struct LoadedImageProtocol {
    pub revision: u32,
    pub parent_handle: Handle,
    pub system_table: usize,
    pub device_handle: Handle,
    pub file_path: usize,
    pub reserved: usize,
    pub load_options_size: u32,
    pub load_options: usize,
    pub image_base: u64,
    pub image_code_type: u32,
    pub image_data_typr: u32,
}

} // verus!
