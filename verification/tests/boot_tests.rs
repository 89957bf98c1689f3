use lib::boot::{
    after_menu, boot_step, kernel_load_options, stage_request, BootStage, FirmwareRequest,
    HandleOf, MainAction, FILE_MODE_READ, KERNEL_BUFFER_SIZE, KERNEL_CMDLINE, LOADER_DATA,
};
use lib::firmware::{LoadedImageProtocol, ResetType};
use lib::load_options::{configure_kernel_image, LoadOptions};
use lib::status::Status;
use lib::ucs2::encode_ucs2;

const STAGES: [BootStage; 9] = [
    BootStage::LocateLoadedImage,
    BootStage::LocateFileSystem,
    BootStage::OpenVolume,
    BootStage::OpenKernelFile,
    BootStage::AllocateKernelBuffer,
    BootStage::ReadKernelFile,
    BootStage::LoadKernelImage { kernel_size: 4096 },
    BootStage::LocateKernelImage,
    BootStage::StartKernel,
];

fn image() -> LoadedImageProtocol {
    LoadedImageProtocol {
        revision: 0x1000,
        parent_handle: 11,
        system_table: 22,
        device_handle: 33,
        file_path: 44,
        reserved: 0,
        load_options_size: 0,
        load_options: 0,
        image_base: 0x10_0000,
        image_code_type: 1,
        image_data_typr: 2,
    }
}

#[test]
fn menu_boot_option_starts_search() {
    let (message, action) = after_menu(0);
    assert_eq!(message, "\n[+] Searching boot disk...\n");
    assert_eq!(action, MainAction::Boot(BootStage::LocateLoadedImage));
}

#[test]
fn menu_power_off_option_shuts_down() {
    let (message, action) = after_menu(1);
    assert_eq!(message, "\n[+] Powering off system...\n");
    assert_eq!(
        action,
        MainAction::PowerOff { reset_type: ResetType::Shutdown, reset_status: Status(0), data_size: 0 }
    );
}

#[test]
fn menu_other_number_does_nothing() {
    let (message, action) = after_menu(5);
    assert_eq!(message, "");
    assert_eq!(action, MainAction::Idle);
}

#[test]
fn requests_of_each_stage() {
    match stage_request(BootStage::LocateLoadedImage) {
        FirmwareRequest::HandleProtocol { handle, protocol } => {
            assert_eq!(handle, HandleOf::Bootloader);
            assert_eq!(protocol.data1, 0x5B1B31A1);
        }
        other => panic!("unexpected {:?}", other),
    }
    match stage_request(BootStage::LocateFileSystem) {
        FirmwareRequest::HandleProtocol { handle, protocol } => {
            assert_eq!(handle, HandleOf::BootDevice);
            assert_eq!(protocol.data1, 0x964e5b22);
        }
        other => panic!("unexpected {:?}", other),
    }
    assert!(matches!(stage_request(BootStage::OpenVolume), FirmwareRequest::OpenVolume));
    match stage_request(BootStage::OpenKernelFile) {
        FirmwareRequest::OpenFile { path, open_mode, attributes } => {
            assert_eq!(path, encode_ucs2("\\EFI\\lazyboot\\vmlinuz-lts\0"));
            assert_eq!(path.last(), Some(&0));
            assert_eq!(open_mode, FILE_MODE_READ);
            assert_eq!(attributes, 0);
        }
        other => panic!("unexpected {:?}", other),
    }
    match stage_request(BootStage::AllocateKernelBuffer) {
        FirmwareRequest::AllocatePool { pool_type, size } => {
            assert_eq!(pool_type, LOADER_DATA);
            assert_eq!(size, 32 * 1024 * 1024);
        }
        other => panic!("unexpected {:?}", other),
    }
    assert!(matches!(
        stage_request(BootStage::ReadKernelFile),
        FirmwareRequest::ReadFile { buffer_size } if buffer_size == KERNEL_BUFFER_SIZE
    ));
    assert!(matches!(
        stage_request(BootStage::LoadKernelImage { kernel_size: 777 }),
        FirmwareRequest::LoadImage { boot_policy: false, source_size: 777 }
    ));
    match stage_request(BootStage::LocateKernelImage) {
        FirmwareRequest::HandleProtocol { handle, protocol } => {
            assert_eq!(handle, HandleOf::Kernel);
            assert_eq!(protocol.data1, 0x5B1B31A1);
        }
        other => panic!("unexpected {:?}", other),
    }
    assert!(matches!(stage_request(BootStage::StartKernel), FirmwareRequest::StartImage));
}

#[test]
fn successful_boot_walks_every_stage() {
    let mut stage = BootStage::LocateLoadedImage;
    let mut seen = vec![stage];
    let mut messages = String::new();
    let mut configured = false;
    loop {
        let d = boot_step(stage, Status::success(), 4096);
        messages.push_str(&d.message);
        configured |= d.configure_kernel;
        match d.next {
            Some(next) => {
                stage = next;
                seen.push(stage);
            }
            None => break,
        }
    }
    assert_eq!(seen, STAGES.to_vec());
    assert!(configured);
    assert_eq!(
        messages,
        "[+] bzImage found\n[+] Reading 4096 bytes to RAM...\n[+] Kernel loaded to RAM.\n[+] Setting up TTY console output...\n[+] Handing off CPU to Linux Kernel...\n"
    );
}

#[test]
fn read_message_reports_bytes_read() {
    let d = boot_step(BootStage::ReadKernelFile, Status::success(), 12345678);
    assert_eq!(d.message, "[+] Reading 12345678 bytes to RAM...\n");
    assert_eq!(d.next, Some(BootStage::LoadKernelImage { kernel_size: 12345678 }));
}

#[test]
fn each_failure_reports_its_error() {
    let expected = [
        "[-] ERROR 1: LoadedImageProtocol not valid.\n",
        "[-] ERROR 2: SimpleFileSystemProtocol not found.\n",
        "[-] ERROR 3: open_volume rejected by UEFI\n",
        "[-] ERROR 4: file 'vmlinux' not found\n",
        "[-] ERROR 5: Failed to allocate RAM\n",
        "[-] ERROR 6: Failed reading vmlinuz file to RAM\n",
        "[-] ERROR 7: Load image failed\n",
    ];
    for (i, stage) in STAGES[..7].iter().enumerate() {
        let d = boot_step(*stage, Status::not_ready(), 0);
        assert_eq!(d.message, expected[i]);
        assert_eq!(d.next, None);
        assert!(!d.configure_kernel);
    }
}

#[test]
fn failure_with_other_status_also_stops() {
    let d = boot_step(BootStage::OpenVolume, Status(3), 0);
    assert_eq!(d.message, "[-] ERROR 3: open_volume rejected by UEFI\n");
    assert_eq!(d.next, None);
}

#[test]
fn missing_kernel_image_protocol_still_starts_kernel() {
    let d = boot_step(BootStage::LocateKernelImage, Status(14), 0);
    assert!(!d.configure_kernel);
    assert_eq!(d.message, "[+] Handing off CPU to Linux Kernel...\n");
    assert_eq!(d.next, Some(BootStage::StartKernel));
}

#[test]
fn nothing_follows_kernel_start() {
    for status in [Status::success(), Status(1)] {
        let d = boot_step(BootStage::StartKernel, status, 0);
        assert_eq!(d.message, "");
        assert_eq!(d.next, None);
        assert!(!d.configure_kernel);
    }
}

#[test]
fn kernel_command_line_in_options_buffer() {
    let options = kernel_load_options();
    let units = options.units();
    let expected = encode_ucs2(KERNEL_CMDLINE);
    assert_eq!(KERNEL_CMDLINE.chars().count(), expected.len());
    assert_eq!(&units[..expected.len()], &expected[..]);
    assert!(units[expected.len()..].iter().all(|u| *u == 0));
    assert_eq!(options.byte_size() as usize, 2 * expected.len());
    assert_eq!(expected.last(), Some(&0));
}

#[test]
fn options_of_full_length_fill_buffer() {
    let line = "x".repeat(128);
    let options = LoadOptions::from_cmdline(&line);
    assert!(options.units().iter().all(|u| *u == 0x78));
    assert_eq!(options.byte_size(), 256);
}

#[test]
fn options_of_empty_line() {
    let options = LoadOptions::from_cmdline("");
    assert!(options.units().iter().all(|u| *u == 0));
    assert_eq!(options.byte_size(), 0);
}

#[test]
fn kernel_image_gets_options_and_device() {
    let bootloader = image();
    let mut kernel = LoadedImageProtocol { device_handle: 0, parent_handle: 5, ..image() };
    let options = LoadOptions::from_cmdline("root=/dev/vda3\0");
    configure_kernel_image(&mut kernel, &bootloader, &options, 0xDEAD0);
    let expected = LoadedImageProtocol {
        load_options: 0xDEAD0,
        load_options_size: 30,
        device_handle: 33,
        parent_handle: 5,
        ..image()
    };
    assert_eq!(kernel, expected);
}
