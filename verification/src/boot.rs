use vstd::prelude::*;
use crate::status::Status;
use crate::firmware::{
    Guid, ResetType, is_loaded_image_protocol_guid, is_simple_file_system_protocol_guid,
    loaded_image_protocol_guid, simple_file_system_protocol_guid,
};
use crate::ucs2::{ucs2_units, encode_ucs2};
use crate::decimal::{decimal_chars, push_decimal, digit_char};
use crate::menu::{OPTION_BOOT, OPTION_POWER_OFF};
use crate::load_options::{LoadOptions, LOAD_OPTIONS_CAPACITY, options_buffer};

verus! {

/// Where the kernel lies on the boot device, ending in a null character as the firmware
/// expects of a path.
pub const KERNEL_PATH: &'static str = "\\EFI\\lazyboot\\vmlinuz-lts\0";

/// The command line handed to the kernel, ending in a null character.
pub const KERNEL_CMDLINE: &'static str = "initrd=\\EFI\\lazyboot\\initramfs-lts root=/dev/vda3 rw rootfstype=ext4 modules=ext4 earlycon=efifb console=tty0 loglevel=quiet\0";

/// How many bytes are set aside for the kernel file: 32 MiB.
pub const KERNEL_BUFFER_SIZE: usize = 33554432;

/// The memory type of the kernel buffer: loader data.
pub const LOADER_DATA: u32 = 2;

/// The mode in which the kernel file is opened: read only.
pub const FILE_MODE_READ: u64 = 1;

/// The attributes asked for when the kernel file is opened: none.
pub const FILE_ATTRIBUTES: u64 = 0;

/// The kernel's command line in the buffer that its image is pointed at.
pub fn kernel_load_options() -> (options: LoadOptions)
    ensures
        options.buffer() == options_buffer(KERNEL_CMDLINE@),
        options.used() == KERNEL_CMDLINE@.len(),
{
    proof {
        reveal_strlit("initrd=\\EFI\\lazyboot\\initramfs-lts root=/dev/vda3 rw rootfstype=ext4 modules=ext4 earlycon=efifb console=tty0 loglevel=quiet\0");
    }
    assert(KERNEL_CMDLINE@.len() <= LOAD_OPTIONS_CAPACITY);
    LoadOptions::from_cmdline(KERNEL_CMDLINE)
}

/// The steps of loading and starting the kernel, in the order they are taken. Each step is
/// one call into the firmware.
#[derive(PartialEq, Eq, Structural, Clone, Copy, Debug)]
pub enum BootStage {
    /// Find the loaded-image protocol of the bootloader's own image.
    LocateLoadedImage,
    /// Find the file system protocol of the device the bootloader came from.
    LocateFileSystem,
    /// Open the root directory of that file system.
    OpenVolume,
    /// Open the kernel file.
    OpenKernelFile,
    /// Set aside memory for the kernel file.
    AllocateKernelBuffer,
    /// Read the kernel file into that memory.
    ReadKernelFile,
    /// Load the kernel image from the `kernel_size` bytes that were read.
    LoadKernelImage { kernel_size: usize },
    /// Find the loaded-image protocol of the kernel's image.
    LocateKernelImage,
    /// Start the kernel.
    StartKernel,
}

/// The position of each step in the boot sequence, from 0.
pub open spec fn stage_rank(stage: BootStage) -> nat {
    match stage {
        BootStage::LocateLoadedImage => 0,
        BootStage::LocateFileSystem => 1,
        BootStage::OpenVolume => 2,
        BootStage::OpenKernelFile => 3,
        BootStage::AllocateKernelBuffer => 4,
        BootStage::ReadKernelFile => 5,
        BootStage::LoadKernelImage { .. } => 6,
        BootStage::LocateKernelImage => 7,
        BootStage::StartKernel => 8,
    }
}

/// Whose handle a protocol is asked of.
#[derive(PartialEq, Eq, Structural, Clone, Copy, Debug)]
pub enum HandleOf {
    /// The bootloader's own image.
    Bootloader,
    /// The device the bootloader's image was loaded from.
    BootDevice,
    /// The kernel's image, once it is loaded.
    Kernel,
}

/// One call into the firmware, with the arguments that the boot sequence chooses.
#[derive(Debug)]
pub enum FirmwareRequest {
    /// `handle_protocol` on a handle, for a protocol.
    HandleProtocol { handle: HandleOf, protocol: Guid },
    /// `open_volume` on the file system that was found.
    OpenVolume,
    /// `open` on the root directory, with a null-terminated path.
    OpenFile { path: Vec<u16>, open_mode: u64, attributes: u64 },
    /// `allocate_pool` of a memory type and size.
    AllocatePool { pool_type: u32, size: usize },
    /// `read` of the kernel file into the buffer, reading at most `buffer_size` bytes.
    ReadFile { buffer_size: usize },
    /// `load_image` from the first `source_size` bytes of the buffer.
    LoadImage { boot_policy: bool, source_size: usize },
    /// `start_image` of the kernel's image.
    StartImage,
}

/// Whether `request` is the call that step `stage` makes.
pub open spec fn is_request_for(stage: BootStage, request: FirmwareRequest) -> bool {
    match stage {
        BootStage::LocateLoadedImage => request matches FirmwareRequest::HandleProtocol {
            handle,
            protocol,
        } && handle == HandleOf::Bootloader && is_loaded_image_protocol_guid(protocol),
        BootStage::LocateFileSystem => request matches FirmwareRequest::HandleProtocol {
            handle,
            protocol,
        } && handle == HandleOf::BootDevice && is_simple_file_system_protocol_guid(protocol),
        BootStage::OpenVolume => request matches FirmwareRequest::OpenVolume,
        BootStage::OpenKernelFile => request matches FirmwareRequest::OpenFile {
            path,
            open_mode,
            attributes,
        } && path@ == ucs2_units(KERNEL_PATH@) && open_mode == FILE_MODE_READ && attributes
            == FILE_ATTRIBUTES,
        BootStage::AllocateKernelBuffer => request matches FirmwareRequest::AllocatePool {
            pool_type,
            size,
        } && pool_type == LOADER_DATA && size == KERNEL_BUFFER_SIZE,
        BootStage::ReadKernelFile => request matches FirmwareRequest::ReadFile { buffer_size }
            && buffer_size == KERNEL_BUFFER_SIZE,
        BootStage::LoadKernelImage { kernel_size } => request matches FirmwareRequest::LoadImage {
            boot_policy,
            source_size,
        } && !boot_policy && source_size == kernel_size,
        BootStage::LocateKernelImage => request matches FirmwareRequest::HandleProtocol {
            handle,
            protocol,
        } && handle == HandleOf::Kernel && is_loaded_image_protocol_guid(protocol),
        BootStage::StartKernel => request matches FirmwareRequest::StartImage,
    }
}

/// The firmware call that step `stage` makes.
pub fn stage_request(stage: BootStage) -> (request: FirmwareRequest)
    ensures
        is_request_for(stage, request),
{
    match stage {
        BootStage::LocateLoadedImage => FirmwareRequest::HandleProtocol {
            handle: HandleOf::Bootloader,
            protocol: loaded_image_protocol_guid(),
        },
        BootStage::LocateFileSystem => FirmwareRequest::HandleProtocol {
            handle: HandleOf::BootDevice,
            protocol: simple_file_system_protocol_guid(),
        },
        BootStage::OpenVolume => FirmwareRequest::OpenVolume,
        BootStage::OpenKernelFile => FirmwareRequest::OpenFile {
            path: encode_ucs2(KERNEL_PATH),
            open_mode: FILE_MODE_READ,
            attributes: FILE_ATTRIBUTES,
        },
        BootStage::AllocateKernelBuffer => FirmwareRequest::AllocatePool {
            pool_type: LOADER_DATA,
            size: KERNEL_BUFFER_SIZE,
        },
        BootStage::ReadKernelFile => FirmwareRequest::ReadFile { buffer_size: KERNEL_BUFFER_SIZE },
        BootStage::LoadKernelImage { kernel_size } => FirmwareRequest::LoadImage {
            boot_policy: false,
            source_size: kernel_size,
        },
        BootStage::LocateKernelImage => FirmwareRequest::HandleProtocol {
            handle: HandleOf::Kernel,
            protocol: loaded_image_protocol_guid(),
        },
        BootStage::StartKernel => FirmwareRequest::StartImage,
    }
}

/// The number of the error reported when step `stage` fails, for the steps that stop the
/// boot when they fail.
pub open spec fn failure_code(stage: BootStage) -> Option<nat> {
    match stage {
        BootStage::LocateLoadedImage => Some(1),
        BootStage::LocateFileSystem => Some(2),
        BootStage::OpenVolume => Some(3),
        BootStage::OpenKernelFile => Some(4),
        BootStage::AllocateKernelBuffer => Some(5),
        BootStage::ReadKernelFile => Some(6),
        BootStage::LoadKernelImage { .. } => Some(7),
        BootStage::LocateKernelImage => None,
        BootStage::StartKernel => None,
    }
}

/// The message that reports error `code`.
pub open spec fn error_message(code: nat) -> Seq<char> {
    if code == 1 {
        "[-] ERROR 1: LoadedImageProtocol not valid.\n"@
    } else if code == 2 {
        "[-] ERROR 2: SimpleFileSystemProtocol not found.\n"@
    } else if code == 3 {
        "[-] ERROR 3: open_volume rejected by UEFI\n"@
    } else if code == 4 {
        "[-] ERROR 4: file 'vmlinux' not found\n"@
    } else if code == 5 {
        "[-] ERROR 5: Failed to allocate RAM\n"@
    } else if code == 6 {
        "[-] ERROR 6: Failed reading vmlinuz file to RAM\n"@
    } else {
        "[-] ERROR 7: Load image failed\n"@
    }
}

/// The message shown when step `stage` succeeds, `bytes_read` being what the read of the
/// kernel file reported.
pub open spec fn success_message(stage: BootStage, bytes_read: usize) -> Seq<char> {
    match stage {
        BootStage::OpenKernelFile => "[+] bzImage found\n"@,
        BootStage::ReadKernelFile => "[+] Reading "@ + decimal_chars(bytes_read as nat)
            + " bytes to RAM...\n"@,
        BootStage::LoadKernelImage { .. } => "[+] Kernel loaded to RAM.\n"@
            + "[+] Setting up TTY console output...\n"@,
        _ => Seq::empty(),
    }
}

/// The step after `stage` when it succeeds.
pub open spec fn next_stage(stage: BootStage, bytes_read: usize) -> Option<BootStage> {
    match stage {
        BootStage::LocateLoadedImage => Some(BootStage::LocateFileSystem),
        BootStage::LocateFileSystem => Some(BootStage::OpenVolume),
        BootStage::OpenVolume => Some(BootStage::OpenKernelFile),
        BootStage::OpenKernelFile => Some(BootStage::AllocateKernelBuffer),
        BootStage::AllocateKernelBuffer => Some(BootStage::ReadKernelFile),
        BootStage::ReadKernelFile => Some(BootStage::LoadKernelImage { kernel_size: bytes_read }),
        BootStage::LoadKernelImage { .. } => Some(BootStage::LocateKernelImage),
        BootStage::LocateKernelImage => Some(BootStage::StartKernel),
        BootStage::StartKernel => None,
    }
}

/// What the boot sequence does once a step's call has returned.
pub struct BootDecision {
    /// Whether to hand the kernel's image its command line now.
    pub configure_kernel: bool,
    /// What to write to the console.
    pub message: String,
    /// The step to take next; `None` when the boot sequence is over.
    pub next: Option<BootStage>,
}

/// The boot sequence's answer to step `stage` returning `status`: a step that can fail
/// stops the sequence with its error message when the status is not `SUCCESS`; otherwise
/// the sequence goes on to the next step, with the step's message. Finding the kernel's
/// image may fail without stopping the kernel from being started: its command line is set
/// only when it was found. After the kernel is started nothing more is done.
pub open spec fn decision_fits(
    stage: BootStage,
    status: Status,
    bytes_read: usize,
    decision: BootDecision,
) -> bool {
    let ok = status.0 == 0;
    match failure_code(stage) {
        Some(code) => if ok {
            &&& !decision.configure_kernel
            &&& decision.message@ == success_message(stage, bytes_read)
            &&& decision.next == next_stage(stage, bytes_read)
        } else {
            &&& !decision.configure_kernel
            &&& decision.message@ == error_message(code)
            &&& decision.next == None::<BootStage>
        },
        None => match stage {
            BootStage::LocateKernelImage => {
                &&& decision.configure_kernel == ok
                &&& decision.message@ == "[+] Handing off CPU to Linux Kernel...\n"@
                &&& decision.next == Some(BootStage::StartKernel)
            },
            _ => {
                &&& !decision.configure_kernel
                &&& decision.message@ == Seq::<char>::empty()
                &&& decision.next == None::<BootStage>
            },
        },
    }
}

/// Decides what follows a step's call, given the status it returned and, for the read of
/// the kernel file, how many bytes it read.
pub fn boot_step(stage: BootStage, status: Status, bytes_read: usize) -> (decision: BootDecision)
    ensures
        decision_fits(stage, status, bytes_read, decision),
{
    let ok = status == Status::success();
    match stage {
        BootStage::LocateLoadedImage => {
            if ok {
                proceed(String::new(), BootStage::LocateFileSystem)
            } else {
                halt(String::from_str("[-] ERROR 1: LoadedImageProtocol not valid.\n"))
            }
        },
        BootStage::LocateFileSystem => {
            if ok {
                proceed(String::new(), BootStage::OpenVolume)
            } else {
                halt(String::from_str("[-] ERROR 2: SimpleFileSystemProtocol not found.\n"))
            }
        },
        BootStage::OpenVolume => {
            if ok {
                proceed(String::new(), BootStage::OpenKernelFile)
            } else {
                halt(String::from_str("[-] ERROR 3: open_volume rejected by UEFI\n"))
            }
        },
        BootStage::OpenKernelFile => {
            if ok {
                proceed(String::from_str("[+] bzImage found\n"), BootStage::AllocateKernelBuffer)
            } else {
                halt(String::from_str("[-] ERROR 4: file 'vmlinux' not found\n"))
            }
        },
        BootStage::AllocateKernelBuffer => {
            if ok {
                proceed(String::new(), BootStage::ReadKernelFile)
            } else {
                halt(String::from_str("[-] ERROR 5: Failed to allocate RAM\n"))
            }
        },
        BootStage::ReadKernelFile => {
            if ok {
                let mut message = String::from_str("[+] Reading ");
                push_decimal(&mut message, bytes_read);
                message.append(" bytes to RAM...\n");
                proceed(message, BootStage::LoadKernelImage { kernel_size: bytes_read })
            } else {
                halt(String::from_str("[-] ERROR 6: Failed reading vmlinuz file to RAM\n"))
            }
        },
        BootStage::LoadKernelImage { .. } => {
            if ok {
                let mut message = String::from_str("[+] Kernel loaded to RAM.\n");
                message.append("[+] Setting up TTY console output...\n");
                proceed(message, BootStage::LocateKernelImage)
            } else {
                halt(String::from_str("[-] ERROR 7: Load image failed\n"))
            }
        },
        BootStage::LocateKernelImage => BootDecision {
            configure_kernel: ok,
            message: String::from_str("[+] Handing off CPU to Linux Kernel...\n"),
            next: Some(BootStage::StartKernel),
        },
        BootStage::StartKernel => halt(String::new()),
    }
}

fn proceed(message: String, next: BootStage) -> (decision: BootDecision)
    ensures
        !decision.configure_kernel,
        decision.message@ == message@,
        decision.next == Some(next),
{
    BootDecision { configure_kernel: false, message, next: Some(next) }
}

fn halt(message: String) -> (decision: BootDecision)
    ensures
        !decision.configure_kernel,
        decision.message@ == message@,
        decision.next == None::<BootStage>,
{
    BootDecision { configure_kernel: false, message, next: None }
}

/// What the bootloader does with the option chosen in the menu.
#[derive(PartialEq, Eq, Structural, Clone, Copy, Debug)]
pub enum MainAction {
    /// Run the boot sequence from this step.
    Boot(BootStage),
    /// Ask the runtime services for a reset of this kind, reporting this status, with no
    /// reset data.
    PowerOff { reset_type: ResetType, reset_status: Status, data_size: usize },
    /// Do nothing more.
    Idle,
}

/// The message shown for the chosen option, and what follows it: the boot option runs the
/// boot sequence from its first step, the power-off option shuts the machine down, and any
/// other number does nothing.
pub open spec fn menu_outcome(selected: usize) -> (Seq<char>, MainAction) {
    if selected == OPTION_BOOT {
        ("\n[+] Searching boot disk...\n"@, MainAction::Boot(BootStage::LocateLoadedImage))
    } else if selected == OPTION_POWER_OFF {
        (
            "\n[+] Powering off system...\n"@,
            MainAction::PowerOff {
                reset_type: ResetType::Shutdown,
                reset_status: Status(0),
                data_size: 0,
            },
        )
    } else {
        (Seq::empty(), MainAction::Idle)
    }
}

/// Decides what follows the choice of option `selected` in the menu.
pub fn after_menu(selected: usize) -> (outcome: (&'static str, MainAction))
    ensures
        (outcome.0@, outcome.1) == menu_outcome(selected),
{
    if selected == OPTION_BOOT {
        ("\n[+] Searching boot disk...\n", MainAction::Boot(BootStage::LocateLoadedImage))
    } else if selected == OPTION_POWER_OFF {
        (
            "\n[+] Powering off system...\n",
            MainAction::PowerOff {
                reset_type: ResetType::Shutdown,
                reset_status: Status::success(),
                data_size: 0,
            },
        )
    } else {
        proof {
            reveal_strlit("");
        }
        ("", MainAction::Idle)
    }
}

/// Every step leads only to the step right after it, so the boot sequence never goes back,
/// never repeats a step, and ends after at most nine calls.
pub proof fn lemma_boot_advances(
    stage: BootStage,
    status: Status,
    bytes_read: usize,
    decision: BootDecision,
)
    requires
        decision_fits(stage, status, bytes_read, decision),
    ensures
        decision.next matches Some(next) ==> stage_rank(next) == stage_rank(stage) + 1,
        stage == BootStage::StartKernel ==> decision.next == None::<BootStage>,
{
}

/// A step that can fail stops the boot sequence, and reports the error whose number is its
/// own position in the sequence counted from one, exactly when its call does not return
/// `SUCCESS`; the kernel's command line is never set on such a step.
pub proof fn lemma_failure_stops(
    stage: BootStage,
    status: Status,
    bytes_read: usize,
    decision: BootDecision,
)
    requires
        decision_fits(stage, status, bytes_read, decision),
        failure_code(stage) is Some,
    ensures
        failure_code(stage) == Some(stage_rank(stage) + 1),
        decision.next is None <==> status.0 != 0,
        status.0 != 0 ==> decision.message@ == error_message(stage_rank(stage) + 1),
        !decision.configure_kernel,
{
}

/// When a step's call succeeds, only the opening of the kernel file, the read, the loading
/// of the image and the search for the kernel's image print anything, and each prints its
/// own line: "[+] bzImage found" once the kernel file is open, the byte count once it is
/// read, the two lines about the loaded kernel once it is loaded, and the hand-off line
/// before the kernel starts.
pub proof fn lemma_success_messages(stage: BootStage, bytes_read: usize, decision: BootDecision)
    requires
        decision_fits(stage, Status(0), bytes_read, decision),
    ensures
        decision.message@ == (match stage {
            BootStage::OpenKernelFile => "[+] bzImage found\n"@,
            BootStage::ReadKernelFile => "[+] Reading "@ + decimal_chars(bytes_read as nat)
                + " bytes to RAM...\n"@,
            BootStage::LoadKernelImage { .. } => "[+] Kernel loaded to RAM.\n"@
                + "[+] Setting up TTY console output...\n"@,
            BootStage::LocateKernelImage => "[+] Handing off CPU to Linux Kernel...\n"@,
            _ => Seq::<char>::empty(),
        }),
{
}

/// Each error message starts with "[-] ERROR " followed by its own number.
pub proof fn lemma_error_message_names_code(code: nat)
    requires
        1 <= code <= 7,
    ensures
        error_message(code).len() > 11,
        error_message(code).subrange(0, 10) == "[-] ERROR "@,
        error_message(code)[10] == digit_char(code),
        error_message(code)[11] == ':',
{
    reveal_strlit("[-] ERROR ");
    reveal_strlit("[-] ERROR 1: LoadedImageProtocol not valid.\n");
    reveal_strlit("[-] ERROR 2: SimpleFileSystemProtocol not found.\n");
    reveal_strlit("[-] ERROR 3: open_volume rejected by UEFI\n");
    reveal_strlit("[-] ERROR 4: file 'vmlinux' not found\n");
    reveal_strlit("[-] ERROR 5: Failed to allocate RAM\n");
    reveal_strlit("[-] ERROR 6: Failed reading vmlinuz file to RAM\n");
    reveal_strlit("[-] ERROR 7: Load image failed\n");
    assert(error_message(code).subrange(0, 10) =~= "[-] ERROR "@);
}

/// The step reached from `stage` after `n` calls that all return `SUCCESS`, the read of
/// the kernel file reporting `bytes_read` bytes; `None` once the sequence is over.
pub open spec fn stage_after_successes(stage: BootStage, bytes_read: usize, n: nat) -> Option<
    BootStage,
>
    decreases n,
{
    if n == 0 {
        Some(stage)
    } else {
        match next_stage(stage, bytes_read) {
            Some(next) => stage_after_successes(next, bytes_read, (n - 1) as nat),
            None => None,
        }
    }
}

/// When every call succeeds, the boot sequence takes all its steps in order, loads the
/// kernel from exactly the bytes that were read, starts it with the ninth call, and then
/// stops.
pub proof fn lemma_successful_boot(bytes_read: usize)
    ensures
        stage_after_successes(BootStage::LocateLoadedImage, bytes_read, 6) == Some(
            BootStage::LoadKernelImage { kernel_size: bytes_read },
        ),
        stage_after_successes(BootStage::LocateLoadedImage, bytes_read, 8) == Some(
            BootStage::StartKernel,
        ),
        stage_after_successes(BootStage::LocateLoadedImage, bytes_read, 9) == None::<BootStage>,
        forall|k: nat|
            k <= 8 ==> (#[trigger] stage_after_successes(BootStage::LocateLoadedImage, bytes_read, k)
                matches Some(s) && stage_rank(s) == k),
{
    reveal_with_fuel(stage_after_successes, 10);
    assert forall|k: nat|
        k <= 8 implies (#[trigger] stage_after_successes(BootStage::LocateLoadedImage, bytes_read, k)
        matches Some(s) && stage_rank(s) == k) by {
        if k == 0 {
        } else if k == 1 {
        } else if k == 2 {
        } else if k == 3 {
        } else if k == 4 {
        } else if k == 5 {
        } else if k == 6 {
        } else if k == 7 {
        } else {
        }
    }
}

/// The path asked of the firmware is, unit by unit, `\EFI\lazyboot\vmlinuz-lts` followed by
/// a null unit.
pub proof fn lemma_kernel_path_units()
    ensures
        ucs2_units(KERNEL_PATH@) == seq![
            0x5Cu16, 0x45, 0x46, 0x49, 0x5C, 0x6C, 0x61, 0x7A,
            0x79, 0x62, 0x6F, 0x6F, 0x74, 0x5C, 0x76, 0x6D,
            0x6C, 0x69, 0x6E, 0x75, 0x7A, 0x2D, 0x6C, 0x74,
            0x73, 0x00,
        ],
{
    reveal_strlit("\\EFI\\lazyboot\\vmlinuz-lts\0");
    assert(ucs2_units(KERNEL_PATH@) =~= seq![
        0x5Cu16, 0x45, 0x46, 0x49, 0x5C, 0x6C, 0x61, 0x7A,
        0x79, 0x62, 0x6F, 0x6F, 0x74, 0x5C, 0x76, 0x6D,
        0x6C, 0x69, 0x6E, 0x75, 0x7A, 0x2D, 0x6C, 0x74,
        0x73, 0x00,
    ]);
}

} // verus!
