use cargo_image_runner::config::SerialMode;
use cargo_image_runner::context::Context;
use cargo_image_runner::firmware::{OvmfFiles, OvmfFirmware};
use cargo_image_runner::image::{validate_boot_type, DirectoryBuilder, FatImageBuilder, IsoImageBuilder};
use cargo_image_runner::qemu::{ImageKind, Invocation, QemuRunner};
use cargo_image_runner::{BootType, Config, Error};

fn ctx(config: Config, exe: &str) -> Context {
    Context::new(config, "/ws".to_string(), exe.to_string(), &Vec::new())
}

#[test]
fn directory_gets_writable_fat_drive() {
    let kind = QemuRunner::image_kind(true, "/ws/out/esp");
    assert_eq!(kind, ImageKind::Directory);
    assert_eq!(
        QemuRunner::disk_args(kind, "/ws/out/esp"),
        vec!["-drive", "format=raw,file=fat:rw:/ws/out/esp"]
    );
}

#[test]
fn iso_file_gets_optical_attachment() {
    let kind = QemuRunner::image_kind(false, "/ws/out/image.iso");
    assert_eq!(kind, ImageKind::Optical);
    assert_eq!(QemuRunner::disk_args(kind, "/ws/out/image.iso"), vec!["-cdrom", "/ws/out/image.iso"]);
}

#[test]
fn other_file_gets_raw_drive() {
    for path in ["/ws/out/image.fat", "/ws/out/image.ISO", "/ws/out/iso", "/ws/out/.iso"] {
        let kind = QemuRunner::image_kind(false, path);
        assert_eq!(kind, ImageKind::Raw, "{}", path);
        assert_eq!(QemuRunner::disk_args(kind, path), vec!["-drive".to_string(), format!("format=raw,file={}", path)]);
    }
}

#[test]
fn command_for_bios_run() {
    let mut config = Config::default();
    config.boot.boot_type = BootType::Bios;
    config.runner.qemu.cores = 4;
    config.runner.qemu.extra_args = vec!["-s".to_string()];
    config.run.extra_args = vec!["-display".to_string(), "none".to_string()];
    config.test.extra_args = vec!["-device".to_string(), "isa-debug-exit".to_string()];
    let mut c = ctx(config, "/ws/kernel");
    c.env_extra_args = vec!["-S".to_string()];
    c.cli_extra_args = vec!["-d".to_string(), "int".to_string()];
    let inv = QemuRunner::new().build_command(&c, "/ws/out/esp", ImageKind::Directory, None, true).unwrap();
    assert_eq!(inv.program, "qemu-system-x86_64");
    assert_eq!(
        inv.args,
        vec![
            "-machine", "q35", "-m", "1024", "-smp", "4", "-enable-kvm", "-drive",
            "format=raw,file=fat:rw:/ws/out/esp", "-display", "none", "-s", "-S", "-d", "int"
        ]
    );
}

#[test]
fn command_for_uefi_test_run() {
    let mut config = Config::default();
    config.runner.qemu.kvm = false;
    config.test.extra_args = vec!["-device".to_string(), "isa-debug-exit".to_string()];
    let mut c = ctx(config, "/ws/t-0123456789abcdef");
    assert!(c.is_test);
    c.cli_extra_args = vec!["ignored".to_string()];
    let fw = OvmfFiles { code: "/c/code.fd".to_string(), vars: "/c/vars.fd".to_string() };
    let inv = QemuRunner::new()
        .build_command(&c, "/ws/out/image.iso", ImageKind::Optical, Some(&fw), true)
        .unwrap();
    assert_eq!(
        inv.args,
        vec![
            "-machine", "q35", "-m", "1024",
            "-drive", "if=pflash,format=raw,readonly=on,file=/c/code.fd",
            "-drive", "if=pflash,format=raw,file=/c/vars.fd",
            "-cdrom", "/ws/out/image.iso", "-device", "isa-debug-exit"
        ]
    );
}

#[test]
fn uefi_without_firmware_is_an_error() {
    let c = ctx(Config::default(), "/ws/kernel");
    match QemuRunner::new().build_command(&c, "/ws/img", ImageKind::Raw, None, false) {
        Err(Error::Firmware(_)) => {}
        other => panic!("expected a firmware error, got {:?}", other.map(|i| i.args)),
    }
}

#[test]
fn serial_wiring() {
    let mut inv = Invocation { program: "q".to_string(), args: vec![] };
    QemuRunner::apply_serial_config(&mut inv, SerialMode::Stdio, Some(true));
    assert_eq!(inv.args, vec!["-serial", "stdio", "-monitor", "none"]);
    let mut inv = Invocation { program: "q".to_string(), args: vec![] };
    QemuRunner::apply_serial_config(&mut inv, SerialMode::MonStdio, Some(true));
    assert_eq!(inv.args, vec!["-serial", "mon:stdio"]);
    let mut inv = Invocation { program: "q".to_string(), args: vec!["-m".to_string()] };
    QemuRunner::apply_serial_config(&mut inv, SerialMode::Off, None);
    assert_eq!(inv.args, vec!["-m", "-serial", "none"]);
    QemuRunner::attach_handler_console(&mut inv);
    assert_eq!(inv.args, vec!["-m", "-serial", "none", "-serial", "stdio", "-monitor", "none"]);
}

#[test]
fn image_builders() {
    let mut config = Config::default();
    config.image.output = Some("my-os.iso".to_string());
    let c = ctx(config, "/ws/kernel");
    assert_eq!(DirectoryBuilder::new().output_path(&c), "/ws/target/image-runner/output/esp");
    assert_eq!(IsoImageBuilder::new().output_path(&c), "/ws/target/image-runner/output/my-os.iso");
    let d = ctx(Config::default(), "/ws/kernel");
    assert_eq!(FatImageBuilder::new().output_path(&d), "/ws/target/image-runner/output/image.fat");
    assert!(validate_boot_type(&FatImageBuilder::new().supported_boot_types(), BootType::Bios).is_ok());
    assert!(validate_boot_type(&vec![BootType::Uefi], BootType::Bios).is_err());
    assert_eq!(FatImageBuilder::image_size(1000), 32 * 1024 * 1024);
    assert_eq!(FatImageBuilder::image_size(100 * 1024 * 1024), 150 * 1024 * 1024);
    assert_eq!(IsoImageBuilder::image_size(1), 1024 * 1024 + 2048);
    assert_eq!(FatImageBuilder::volume_label_bytes("BOOT"), b"BOOT       ".to_vec());
    assert_eq!(FatImageBuilder::volume_label_bytes("ABCDEFGHIJKLM"), b"ABCDEFGHIJK".to_vec());
    assert_eq!(IsoImageBuilder::find_boot_image(&vec![false, true, true]).as_deref(), Some("limine-cd.bin"));
    assert_eq!(IsoImageBuilder::find_boot_image(&vec![false, false, false]), None);
    let fw = OvmfFirmware::new("/c".to_string());
    assert_eq!(fw.cache_dir_path(), "/c");
}

#[test]
fn time_limit_applies_to_tests_and_handled_runs() {
    let mut config = Config::default();
    config.test.timeout = Some(30);
    let run = ctx(config.clone(), "/ws/kernel");
    let test = ctx(config, "/ws/t-0123456789abcdef");
    assert_eq!(QemuRunner::watchdog_timeout(&run, false), None);
    assert_eq!(QemuRunner::watchdog_timeout(&run, true), Some(30));
    assert_eq!(QemuRunner::watchdog_timeout(&test, false), Some(30));
}
