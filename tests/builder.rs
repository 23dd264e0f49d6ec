use cargo_image_runner::config::RunnerKind;
use cargo_image_runner::{builder, BootloaderKind, Config, ImageFormat, ImageRunnerBuilder};

#[test]
fn test_builder_error_missing_config() {
    let result = ImageRunnerBuilder::new()
        .workspace_root("/tmp".to_string())
        .executable("/tmp/kernel".to_string())
        .build();
    let err = result.err().expect("should fail");
    assert!(err.message().contains("no configuration"));
}

#[test]
fn test_builder_error_missing_workspace_root() {
    let result = ImageRunnerBuilder::new()
        .with_config(Config::default())
        .executable("/tmp/kernel".to_string())
        .build();
    let err = result.err().expect("should fail");
    assert!(err.message().contains("workspace root"));
}

#[test]
fn test_builder_error_missing_executable() {
    let result = ImageRunnerBuilder::new()
        .with_config(Config::default())
        .workspace_root("/tmp".to_string())
        .build();
    let err = result.err().expect("should fail");
    assert!(err.message().contains("executable"));
}

#[test]
fn test_builder_with_none_bootloader_and_directory() {
    let result = ImageRunnerBuilder::new()
        .with_config(Config::default())
        .workspace_root("/tmp/ws".to_string())
        .executable("/tmp/ws/kernel".to_string())
        .build();
    assert!(result.is_ok());
    let runner = result.unwrap();
    assert_eq!(runner.bootloader, BootloaderKind::Direct);
    assert_eq!(runner.image_format, ImageFormat::Directory);
    assert_eq!(runner.runner, RunnerKind::Qemu);
}

#[test]
fn test_builder_explicit_components() {
    let result = ImageRunnerBuilder::new()
        .with_config(Config::default())
        .workspace_root("/tmp/ws".to_string())
        .executable("/tmp/ws/kernel".to_string())
        .no_bootloader()
        .directory_output()
        .build();
    assert!(result.is_ok());
}

#[test]
fn builder_explicit_choices_override_config() {
    let runner = builder()
        .with_config(Config::default())
        .workspace_root("/w".to_string())
        .executable("/w/k".to_string())
        .limine()
        .iso_image()
        .qemu()
        .extra_args(vec!["-s".to_string()])
        .build()
        .unwrap();
    assert_eq!(runner.bootloader, BootloaderKind::Limine);
    assert_eq!(runner.image_format, ImageFormat::Iso);
    assert_eq!(runner.cli_extra_args, vec!["-s"]);
    let runner = builder()
        .with_config(Config::default())
        .workspace_root("/w".to_string())
        .executable("/w/k".to_string())
        .grub()
        .fat_image()
        .build()
        .unwrap();
    assert_eq!(runner.bootloader, BootloaderKind::Grub);
    assert_eq!(runner.image_format, ImageFormat::Fat);
}
