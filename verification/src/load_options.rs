use vstd::prelude::*;
use crate::ucs2::{ucs2_units, char_to_ucs2, lemma_units_are_code_points};
use crate::firmware::LoadedImageProtocol;

verus! {

/// How many code units the load options buffer holds.
pub const LOAD_OPTIONS_CAPACITY: usize = 128;

/// The units of a load options buffer that holds `s`: its code units, then zeros up to the
/// buffer's capacity.
pub open spec fn options_buffer(s: Seq<char>) -> Seq<u16> {
    ucs2_units(s) + Seq::new((LOAD_OPTIONS_CAPACITY - s.len()) as nat, |i: int| 0u16)
}

/// The command line handed to the kernel, as the fixed buffer of code units that the
/// firmware points the kernel's image at.
pub struct LoadOptions {
    units: [u16; 128],
    len: usize,
}

impl LoadOptions {
    #[verifier::type_invariant]
    spec fn fits(self) -> bool {
        self.len <= LOAD_OPTIONS_CAPACITY
    }

    /// The whole buffer, used and unused units alike.
    pub closed spec fn buffer(self) -> Seq<u16> {
        self.units@
    }

    /// How many units of the buffer hold the command line.
    pub closed spec fn used(self) -> nat {
        self.len as nat
    }

    /// Copies a command line into a zeroed buffer, one code unit per character.
    pub fn from_cmdline(cmdline: &str) -> (options: LoadOptions)
        requires
            cmdline@.len() <= LOAD_OPTIONS_CAPACITY,
        ensures
            options.buffer() == options_buffer(cmdline@),
            options.used() == cmdline@.len(),
            options.buffer().len() == LOAD_OPTIONS_CAPACITY,
            forall|i: int|
                0 <= i < cmdline@.len() ==> (#[trigger] options.buffer()[i]) as u32 == (
                cmdline@[i] as u32) % 0x10000,
            forall|i: int| cmdline@.len() <= i < LOAD_OPTIONS_CAPACITY ==> options.buffer()[i] == 0,
    {
        let mut units: [u16; 128] = [0u16; 128];
        let mut len: usize = 0;
        for c in it: cmdline.chars()
            invariant
                it.seq() == cmdline@,
                cmdline@.len() <= LOAD_OPTIONS_CAPACITY,
                len == it.index(),
                units@.len() == LOAD_OPTIONS_CAPACITY,
                forall|j: int| 0 <= j < len ==> units@[j] == ucs2_units(cmdline@)[j],
                forall|j: int| len <= j < LOAD_OPTIONS_CAPACITY ==> units@[j] == 0,
        {
            units[len] = char_to_ucs2(c);
            len = len + 1;
        }
        assert(units@ =~= options_buffer(cmdline@));
        proof {
            lemma_units_are_code_points(cmdline@);
        }
        LoadOptions { units, len }
    }

    /// The size of the used part in bytes, two per unit: what the kernel's image records as
    /// the size of its load options.
    pub fn byte_size(&self) -> (size: u32)
        ensures
            size == 2 * self.used(),
    {
        proof {
            use_type_invariant(self);
        }
        (self.len * 2) as u32
    }

    /// The buffer, for the firmware to point at.
    pub fn units(&self) -> (units: &[u16; 128])
        ensures
            units@ == self.buffer(),
    {
        &self.units
    }
}

/// Hands a loaded kernel image its command line: the image's load options point at
/// `options_address`, where `options` lies, their size is the used part of `options`, and
/// the image is told that it came from the boot device of the bootloader's own image.
/// Nothing else of the image changes.
pub fn configure_kernel_image(
    kernel: &mut LoadedImageProtocol,
    bootloader: &LoadedImageProtocol,
    options: &LoadOptions,
    options_address: usize,
)
    ensures
        *final(kernel) == (LoadedImageProtocol {
            load_options: options_address,
            load_options_size: (2 * options.used()) as u32,
            device_handle: bootloader.device_handle,
            ..*old(kernel)
        }),
        final(kernel).load_options_size == 2 * options.used(),
{
    kernel.load_options = options_address;
    kernel.load_options_size = options.byte_size();
    kernel.device_handle = bootloader.device_handle;
}

} // verus!
