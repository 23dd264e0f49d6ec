//! Settings of a build-and-run: boot type, bootloader, image format, emulator,
//! and the test/run modes, with their defaults.
use std::collections::HashMap;
use vstd::prelude::*;

use crate::text::owned;

verus! {

/// Which firmware interfaces an image must be able to boot through.
#[derive(Debug, Clone, Copy, PartialEq, Eq, Structural)]
pub enum BootType {
    /// BIOS boot only.
    Bios,
    /// UEFI boot only.
    Uefi,
    /// Both BIOS and UEFI.
    Hybrid,
}

impl BootType {
    /// BIOS boot is required: BIOS or hybrid.
    pub open spec fn spec_needs_bios(self) -> bool {
        self == BootType::Bios || self == BootType::Hybrid
    }

    /// UEFI boot is required: UEFI or hybrid.
    pub open spec fn spec_needs_uefi(self) -> bool {
        self == BootType::Uefi || self == BootType::Hybrid
    }

    /// Whether BIOS boot is required.
    #[verifier::when_used_as_spec(spec_needs_bios)]
    pub fn needs_bios(self) -> (r: bool)
        ensures
            r == self.spec_needs_bios(),
    {
        match self {
            BootType::Bios | BootType::Hybrid => true,
            BootType::Uefi => false,
        }
    }

    /// Whether UEFI boot is required.
    #[verifier::when_used_as_spec(spec_needs_uefi)]
    pub fn needs_uefi(self) -> (r: bool)
        ensures
            r == self.spec_needs_uefi(),
    {
        match self {
            BootType::Uefi | BootType::Hybrid => true,
            BootType::Bios => false,
        }
    }
}

/// Boot type configuration.
#[derive(Debug, Clone)]
pub struct BootConfig {
    /// Boot type: BIOS, UEFI or hybrid.
    pub boot_type: BootType,
}

impl Default for BootConfig {
    fn default() -> (r: BootConfig)
        ensures
            r.boot_type == BootType::Uefi,
    {
        BootConfig { boot_type: BootType::Uefi }
    }
}

/// Which bootloader goes into the image.
#[derive(Debug, Clone, Copy, PartialEq, Eq, Structural)]
pub enum BootloaderKind {
    /// Limine.
    Limine,
    /// GRUB.
    Grub,
    /// No bootloader: the executable boots directly.
    Direct,
}

/// Limine settings.
#[derive(Debug, Clone)]
pub struct LimineConfig {
    /// The Limine release (a git ref) to use.
    pub version: String,
}

impl Default for LimineConfig {
    fn default() -> (r: LimineConfig)
        ensures
            r.version@ == "v8.x-binary"@,
    {
        LimineConfig { version: owned("v8.x-binary") }
    }
}

/// GRUB settings.
#[derive(Debug, Clone)]
pub struct GrubConfig {
    /// GRUB modules to include.
    pub modules: Vec<String>,
}

impl Default for GrubConfig {
    fn default() -> (r: GrubConfig)
        ensures
            r.modules@.len() == 0,
    {
        GrubConfig { modules: Vec::new() }
    }
}

/// Bootloader configuration.
#[derive(Debug, Clone)]
pub struct BootloaderConfig {
    /// Which bootloader.
    pub kind: BootloaderKind,
    /// Path of the bootloader's configuration file, relative to the workspace.
    pub config_file: Option<String>,
    /// Additional files to include.
    pub extra_files: Vec<String>,
    /// Limine settings.
    pub limine: LimineConfig,
    /// GRUB settings.
    pub grub: GrubConfig,
}

impl Default for BootloaderConfig {
    fn default() -> (r: BootloaderConfig)
        ensures
            r.kind == BootloaderKind::Direct,
            r.config_file is None,
            r.extra_files@.len() == 0,
            r.limine.version@ == "v8.x-binary"@,
            r.grub.modules@.len() == 0,
    {
        BootloaderConfig {
            kind: BootloaderKind::Direct,
            config_file: None,
            extra_files: Vec::new(),
            limine: LimineConfig::default(),
            grub: GrubConfig::default(),
        }
    }
}

/// The kind of image that is built.
#[derive(Debug, Clone, Copy, PartialEq, Eq, Structural)]
pub enum ImageFormat {
    /// An ISO 9660 image.
    Iso,
    /// A FAT filesystem image.
    Fat,
    /// A plain directory, handed to the emulator as a writable FAT drive.
    Directory,
}

/// Image configuration.
#[derive(Debug, Clone)]
pub struct ImageConfig {
    /// Image format.
    pub format: ImageFormat,
    /// Output path of the image.
    pub output: Option<String>,
    /// Volume label (ISO and FAT).
    pub volume_label: String,
}

impl Default for ImageConfig {
    fn default() -> (r: ImageConfig)
        ensures
            r.format == ImageFormat::Directory,
            r.output is None,
            r.volume_label@ == "BOOT"@,
    {
        ImageConfig { format: ImageFormat::Directory, output: None, volume_label: owned("BOOT") }
    }
}

/// Which runner executes the image.
#[derive(Debug, Clone, Copy, PartialEq, Eq, Structural)]
pub enum RunnerKind {
    /// The QEMU emulator.
    Qemu,
}

/// How the emulator's serial console is wired to this process.
#[derive(Debug, Clone, Copy, PartialEq, Eq, Structural)]
pub enum SerialMode {
    /// Serial console on standard input/output.
    Stdio,
    /// Serial console and emulator monitor multiplexed on standard input/output.
    MonStdio,
    /// No serial console.
    Off,
}

/// Serial console settings.
#[derive(Debug, Clone, Copy, PartialEq, Eq, Structural)]
pub struct SerialConfig {
    /// How the console is wired.
    pub mode: SerialMode,
    /// Whether the emulator monitor is explicitly kept off the console.
    pub separate_monitor: Option<bool>,
}

impl Default for SerialConfig {
    fn default() -> (r: SerialConfig)
        ensures
            r.mode == SerialMode::MonStdio,
            r.separate_monitor is None,
    {
        SerialConfig { mode: SerialMode::MonStdio, separate_monitor: None }
    }
}

/// Emulator settings.
#[derive(Debug, Clone)]
pub struct QemuConfig {
    /// Emulator binary.
    pub binary: String,
    /// Machine type.
    pub machine: String,
    /// Memory size in MiB.
    pub memory: u32,
    /// Number of CPU cores.
    pub cores: u32,
    /// Whether hardware acceleration is asked for.
    pub kvm: bool,
    /// Additional emulator arguments.
    pub extra_args: Vec<String>,
    /// Serial console wiring when no handler is attached.
    pub serial: SerialConfig,
}

/// The emulator settings that hold when nothing is configured.
pub open spec fn is_default_qemu(q: QemuConfig) -> bool {
    &&& q.binary@ == "qemu-system-x86_64"@
    &&& q.machine@ == "q35"@
    &&& q.memory == 1024
    &&& q.cores == 1
    &&& q.kvm
    &&& q.extra_args@.len() == 0
    &&& q.serial.mode == SerialMode::MonStdio
    &&& q.serial.separate_monitor is None
}

impl Default for QemuConfig {
    fn default() -> (r: QemuConfig)
        ensures
            is_default_qemu(r),
    {
        QemuConfig {
            binary: owned("qemu-system-x86_64"),
            machine: owned("q35"),
            memory: 1024,
            cores: 1,
            kvm: true,
            extra_args: Vec::new(),
            serial: SerialConfig::default(),
        }
    }
}

/// Runner configuration.
#[derive(Debug, Clone)]
pub struct RunnerConfig {
    /// Which runner.
    pub kind: RunnerKind,
    /// Emulator settings.
    pub qemu: QemuConfig,
}

impl Default for RunnerConfig {
    fn default() -> (r: RunnerConfig)
        ensures
            r.kind == RunnerKind::Qemu,
            is_default_qemu(r.qemu),
    {
        RunnerConfig { kind: RunnerKind::Qemu, qemu: QemuConfig::default() }
    }
}

/// Settings of test runs.
#[derive(Debug, Clone)]
pub struct TestConfig {
    /// The exit code that means the test passed.
    pub success_exit_code: Option<i32>,
    /// Additional emulator arguments for test runs.
    pub extra_args: Vec<String>,
    /// Wall-clock limit of a test run, in seconds.
    pub timeout: Option<u64>,
}

impl Default for TestConfig {
    fn default() -> (r: TestConfig)
        ensures
            r.success_exit_code is None,
            r.extra_args@.len() == 0,
            r.timeout is None,
    {
        TestConfig { success_exit_code: None, extra_args: Vec::new(), timeout: None }
    }
}

/// Settings of ordinary (non-test) runs.
#[derive(Debug, Clone)]
pub struct RunConfig {
    /// Additional emulator arguments for ordinary runs.
    pub extra_args: Vec<String>,
    /// Whether a graphical display is used.
    pub gui: bool,
}

impl Default for RunConfig {
    fn default() -> (r: RunConfig)
        ensures
            r.extra_args@.len() == 0,
            !r.gui,
    {
        RunConfig { extra_args: Vec::new(), gui: false }
    }
}

/// When a test report shows the captured output.
#[derive(Debug, Clone, Copy, PartialEq, Eq, Structural)]
pub enum ShowOutput {
    /// Always.
    Always,
    /// Never.
    Never,
    /// Only when the run failed.
    OnFailure,
}

/// The complete configuration of a build-and-run.
#[derive(Debug, Clone)]
pub struct Config {
    /// Boot type.
    pub boot: BootConfig,
    /// Bootloader.
    pub bootloader: BootloaderConfig,
    /// Image format.
    pub image: ImageConfig,
    /// Runner.
    pub runner: RunnerConfig,
    /// Test runs.
    pub test: TestConfig,
    /// Ordinary runs.
    pub run: RunConfig,
    /// Template variables for substitution.
    pub variables: HashMap<String, String>,
    /// Whether progress messages are printed.
    pub verbose: bool,
}

/// The configuration that holds when nothing is configured.
pub open spec fn is_default_config(c: Config) -> bool {
    &&& c.boot.boot_type == BootType::Uefi
    &&& c.bootloader.kind == BootloaderKind::Direct
    &&& c.bootloader.config_file is None
    &&& c.bootloader.extra_files@.len() == 0
    &&& c.bootloader.limine.version@ == "v8.x-binary"@
    &&& c.bootloader.grub.modules@.len() == 0
    &&& c.image.format == ImageFormat::Directory
    &&& c.image.output is None
    &&& c.image.volume_label@ == "BOOT"@
    &&& c.runner.kind == RunnerKind::Qemu
    &&& is_default_qemu(c.runner.qemu)
    &&& c.test.success_exit_code is None
    &&& c.test.extra_args@.len() == 0
    &&& c.test.timeout is None
    &&& c.run.extra_args@.len() == 0
    &&& !c.run.gui
    &&& c.variables@ == Map::<String, String>::empty()
    &&& !c.verbose
}

impl Default for Config {
    fn default() -> (r: Config)
        ensures
            is_default_config(r),
    {
        Config {
            boot: BootConfig::default(),
            bootloader: BootloaderConfig::default(),
            image: ImageConfig::default(),
            runner: RunnerConfig::default(),
            test: TestConfig::default(),
            run: RunConfig::default(),
            variables: HashMap::new(),
            verbose: false,
        }
    }
}

} // verus!
