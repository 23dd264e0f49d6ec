use cargo_image_runner::text::split_whitespace_words;
use cargo_image_runner::config::{LimineConfig, QemuConfig, RunnerKind, SerialMode};
use cargo_image_runner::loader::{apply_env_overrides, parse_u32, ConfigLoader, EnvOverrides};
use cargo_image_runner::{BootType, BootloaderKind, Config, ImageFormat};

fn no_overrides() -> EnvOverrides {
    EnvOverrides {
        qemu_binary: None,
        qemu_memory: None,
        qemu_cores: None,
        qemu_machine: None,
        boot_type: None,
        verbose: None,
        kvm: None,
    }
}

#[test]
fn test_config_default_values() {
    let config = Config::default();
    assert_eq!(config.boot.boot_type, BootType::Uefi);
    assert_eq!(config.bootloader.kind, BootloaderKind::Direct);
    assert!(config.bootloader.config_file.is_none());
    assert!(config.bootloader.extra_files.is_empty());
    assert_eq!(config.image.format, ImageFormat::Directory);
    assert!(config.image.output.is_none());
    assert_eq!(config.image.volume_label, "BOOT");
    assert_eq!(config.runner.kind, RunnerKind::Qemu);
    assert!(config.test.success_exit_code.is_none());
    assert!(config.test.extra_args.is_empty());
    assert!(config.test.timeout.is_none());
    assert!(!config.run.gui);
    assert!(config.run.extra_args.is_empty());
    assert!(config.variables.is_empty());
    assert!(!config.verbose);
}

#[test]
fn test_boot_type_needs_bios() {
    assert!(BootType::Bios.needs_bios());
    assert!(!BootType::Uefi.needs_bios());
    assert!(BootType::Hybrid.needs_bios());
}

#[test]
fn test_boot_type_needs_uefi() {
    assert!(!BootType::Bios.needs_uefi());
    assert!(BootType::Uefi.needs_uefi());
    assert!(BootType::Hybrid.needs_uefi());
}

#[test]
fn test_qemu_config_defaults() {
    let qemu = QemuConfig::default();
    assert_eq!(qemu.binary, "qemu-system-x86_64");
    assert_eq!(qemu.machine, "q35");
    assert_eq!(qemu.memory, 1024);
    assert_eq!(qemu.cores, 1);
    assert!(qemu.kvm);
    assert!(qemu.extra_args.is_empty());
    assert_eq!(qemu.serial.mode, SerialMode::MonStdio);
}

#[test]
fn test_limine_config_default_version() {
    let limine = LimineConfig::default();
    assert_eq!(limine.version, "v8.x-binary");
}

#[test]
fn test_merge_configs_override_behavior() {
    let base = Config::default();
    let mut override_cfg = Config::default();
    override_cfg.boot.boot_type = BootType::Hybrid;
    override_cfg.bootloader.kind = BootloaderKind::Limine;
    override_cfg.image.format = ImageFormat::Iso;

    let merged = ConfigLoader::merge_configs(base, override_cfg);
    assert_eq!(merged.boot.boot_type, BootType::Hybrid);
    assert_eq!(merged.bootloader.kind, BootloaderKind::Limine);
    assert_eq!(merged.image.format, ImageFormat::Iso);
}

#[test]
fn test_merge_configs_variable_merging() {
    let mut base = Config::default();
    base.variables.insert("A".to_string(), "base_a".to_string());
    base.variables.insert("B".to_string(), "base_b".to_string());

    let mut override_cfg = Config::default();
    override_cfg.variables.insert("B".to_string(), "override_b".to_string());
    override_cfg.variables.insert("C".to_string(), "override_c".to_string());

    let merged = ConfigLoader::merge_configs(base, override_cfg);
    assert_eq!(merged.variables.get("A").unwrap(), "base_a");
    assert_eq!(merged.variables.get("B").unwrap(), "override_b");
    assert_eq!(merged.variables.get("C").unwrap(), "override_c");
}

#[test]
fn config_loader_builders() {
    let loader = ConfigLoader::new();
    assert!(loader.use_cargo_metadata);
    let loader = loader
        .no_cargo_metadata()
        .workspace_root("/work".to_string())
        .config_file("runner.toml".to_string());
    assert!(!loader.use_cargo_metadata);
    assert_eq!(loader.workspace_root.as_deref(), Some("/work"));
    assert_eq!(loader.config_file.as_deref(), Some("runner.toml"));
}

#[test]
fn test_apply_env_overrides_qemu_fields() {
    let mut env = no_overrides();
    env.qemu_binary = Some("my-qemu".to_string());
    env.qemu_memory = Some("4096".to_string());
    env.qemu_cores = Some("4".to_string());
    env.qemu_machine = Some("virt".to_string());
    let mut config = Config::default();
    apply_env_overrides(&mut config, &env);
    assert_eq!(config.runner.qemu.binary, "my-qemu");
    assert_eq!(config.runner.qemu.memory, 4096);
    assert_eq!(config.runner.qemu.cores, 4);
    assert_eq!(config.runner.qemu.machine, "virt");
}

#[test]
fn test_apply_env_overrides_boot_type() {
    let mut env = no_overrides();
    env.boot_type = Some("bios".to_string());
    let mut config = Config::default();
    apply_env_overrides(&mut config, &env);
    assert_eq!(config.boot.boot_type, BootType::Bios);
}

#[test]
fn test_apply_env_overrides_verbose_and_kvm() {
    let mut env = no_overrides();
    env.verbose = Some("yes".to_string());
    env.kvm = Some("0".to_string());
    let mut config = Config::default();
    apply_env_overrides(&mut config, &env);
    assert!(config.verbose);
    assert!(!config.runner.qemu.kvm);
}

#[test]
fn test_apply_env_overrides_invalid_memory_ignored() {
    let mut env = no_overrides();
    env.qemu_memory = Some("notanumber".to_string());
    let mut config = Config::default();
    let original_memory = config.runner.qemu.memory;
    apply_env_overrides(&mut config, &env);
    assert_eq!(config.runner.qemu.memory, original_memory);
}

#[test]
fn test_apply_env_overrides_invalid_boot_type_ignored() {
    let mut env = no_overrides();
    env.boot_type = Some("invalid".to_string());
    let mut config = Config::default();
    let original = config.boot.boot_type;
    apply_env_overrides(&mut config, &env);
    assert_eq!(config.boot.boot_type, original);
}

#[test]
fn env_overrides_ignore_empty_and_fold_case() {
    let mut env = no_overrides();
    env.qemu_binary = Some(String::new());
    env.boot_type = Some("HyBrId".to_string());
    env.verbose = Some("TRUE".to_string());
    let mut config = Config::default();
    apply_env_overrides(&mut config, &env);
    assert_eq!(config.runner.qemu.binary, "qemu-system-x86_64");
    assert_eq!(config.boot.boot_type, BootType::Hybrid);
    assert!(config.verbose);
}

#[test]
fn parse_u32_edges() {
    assert_eq!(parse_u32("0"), Some(0));
    assert_eq!(parse_u32("+17"), Some(17));
    assert_eq!(parse_u32("4294967295"), Some(4294967295));
    assert_eq!(parse_u32("4294967296"), None);
    assert_eq!(parse_u32(""), None);
    assert_eq!(parse_u32("+"), None);
    assert_eq!(parse_u32("-1"), None);
    assert_eq!(parse_u32(" 1"), None);
    assert_eq!(parse_u32("12a"), None);
}

#[test]
fn emulator_args_split_on_white_space() {
    assert_eq!(split_whitespace_words("-s -S -device virtio-net"), vec!["-s", "-S", "-device", "virtio-net"]);
    assert!(split_whitespace_words("").is_empty());
    assert!(split_whitespace_words(" \t\n").is_empty());
    assert_eq!(split_whitespace_words("  a\u{3000}b  "), vec!["a", "b"]);
}
