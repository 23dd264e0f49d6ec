//! The fluent builder that gathers what a build-and-run needs and checks it
//! is complete.
use vstd::prelude::*;

use crate::config::{BootloaderKind, Config, ImageFormat, RunnerKind};
use crate::error::Error;

verus! {

/// Gathers the configuration, paths and components of a build-and-run.
/// Components not chosen explicitly come from the configuration.
#[derive(Debug, Clone)]
pub struct ImageRunnerBuilder {
    pub config: Option<Config>,
    pub workspace_root: Option<String>,
    pub executable: Option<String>,
    pub bootloader: Option<BootloaderKind>,
    pub image_format: Option<ImageFormat>,
    pub runner: Option<RunnerKind>,
    pub cli_extra_args: Vec<String>,
}

/// A complete build-and-run: configuration, paths and chosen components.
#[derive(Debug, Clone)]
pub struct ImageRunner {
    pub config: Config,
    pub workspace_root: String,
    pub executable: String,
    pub bootloader: BootloaderKind,
    pub image_format: ImageFormat,
    pub runner: RunnerKind,
    pub cli_extra_args: Vec<String>,
}

/// A builder with nothing set.
pub fn builder() -> (r: ImageRunnerBuilder)
    ensures
        r.config is None && r.workspace_root is None && r.executable is None,
        r.bootloader is None && r.image_format is None && r.runner is None,
        r.cli_extra_args@.len() == 0,
{
    ImageRunnerBuilder::new()
}

impl ImageRunnerBuilder {
    /// A builder with nothing set.
    pub fn new() -> (r: ImageRunnerBuilder)
        ensures
            r.config is None && r.workspace_root is None && r.executable is None,
            r.bootloader is None && r.image_format is None && r.runner is None,
            r.cli_extra_args@.len() == 0,
    {
        ImageRunnerBuilder {
            config: None,
            workspace_root: None,
            executable: None,
            bootloader: None,
            image_format: None,
            runner: None,
            cli_extra_args: Vec::new(),
        }
    }

    /// Sets the configuration.
    pub fn with_config(self, config: Config) -> (r: ImageRunnerBuilder)
        ensures
            r == (ImageRunnerBuilder { config: Some(config), ..self }),
    {
        ImageRunnerBuilder { config: Some(config), ..self }
    }

    /// Sets the executable to boot.
    pub fn executable(self, path: String) -> (r: ImageRunnerBuilder)
        ensures
            r == (ImageRunnerBuilder { executable: Some(path), ..self }),
    {
        ImageRunnerBuilder { executable: Some(path), ..self }
    }

    /// Sets the workspace root.
    pub fn workspace_root(self, path: String) -> (r: ImageRunnerBuilder)
        ensures
            r == (ImageRunnerBuilder { workspace_root: Some(path), ..self }),
    {
        ImageRunnerBuilder { workspace_root: Some(path), ..self }
    }

    /// Sets the emulator arguments passed through on the command line.
    pub fn extra_args(self, args: Vec<String>) -> (r: ImageRunnerBuilder)
        ensures
            r == (ImageRunnerBuilder { cli_extra_args: args, ..self }),
    {
        ImageRunnerBuilder { cli_extra_args: args, ..self }
    }

    /// Uses Limine.
    pub fn limine(self) -> (r: ImageRunnerBuilder)
        ensures
            r == (ImageRunnerBuilder { bootloader: Some(BootloaderKind::Limine), ..self }),
    {
        ImageRunnerBuilder { bootloader: Some(BootloaderKind::Limine), ..self }
    }

    /// Uses GRUB.
    pub fn grub(self) -> (r: ImageRunnerBuilder)
        ensures
            r == (ImageRunnerBuilder { bootloader: Some(BootloaderKind::Grub), ..self }),
    {
        ImageRunnerBuilder { bootloader: Some(BootloaderKind::Grub), ..self }
    }

    /// Boots the executable directly, without a bootloader.
    pub fn no_bootloader(self) -> (r: ImageRunnerBuilder)
        ensures
            r == (ImageRunnerBuilder { bootloader: Some(BootloaderKind::Direct), ..self }),
    {
        ImageRunnerBuilder { bootloader: Some(BootloaderKind::Direct), ..self }
    }

    /// Builds an ISO image.
    pub fn iso_image(self) -> (r: ImageRunnerBuilder)
        ensures
            r == (ImageRunnerBuilder { image_format: Some(ImageFormat::Iso), ..self }),
    {
        ImageRunnerBuilder { image_format: Some(ImageFormat::Iso), ..self }
    }

    /// Builds a FAT image.
    pub fn fat_image(self) -> (r: ImageRunnerBuilder)
        ensures
            r == (ImageRunnerBuilder { image_format: Some(ImageFormat::Fat), ..self }),
    {
        ImageRunnerBuilder { image_format: Some(ImageFormat::Fat), ..self }
    }

    /// Lays the image out as a directory.
    pub fn directory_output(self) -> (r: ImageRunnerBuilder)
        ensures
            r == (ImageRunnerBuilder { image_format: Some(ImageFormat::Directory), ..self }),
    {
        ImageRunnerBuilder { image_format: Some(ImageFormat::Directory), ..self }
    }

    /// Runs the image in QEMU.
    pub fn qemu(self) -> (r: ImageRunnerBuilder)
        ensures
            r == (ImageRunnerBuilder { runner: Some(RunnerKind::Qemu), ..self }),
    {
        ImageRunnerBuilder { runner: Some(RunnerKind::Qemu), ..self }
    }

    /// The complete build-and-run. The configuration, the workspace root and
    /// the executable must be set, and are checked in that order; each
    /// component not chosen explicitly is the configured one.
    pub fn build(self) -> (r: Result<ImageRunner, Error>)
        ensures
            self.config is None ==> (r is Err && (r->Err_0 matches Error::Config(m) && m@
                == "no configuration provided"@)),
            self.config is Some && self.workspace_root is None ==> (r is Err && (r->Err_0 matches Error::Config(
                m,
            ) && m@ == "workspace root not set (call from_cargo_metadata or workspace_root)"@)),
            self.config is Some && self.workspace_root is Some && self.executable is None ==> (r is Err
                && (r->Err_0 matches Error::Config(m) && m@
                == "executable not set (call executable or get from CLI args)"@)),
            self.config is Some && self.workspace_root is Some && self.executable is Some ==> (r is Ok
                && r->Ok_0 == (ImageRunner {
                config: self.config->0,
                workspace_root: self.workspace_root->0,
                executable: self.executable->0,
                bootloader: match self.bootloader {
                    Some(b) => b,
                    None => self.config->0.bootloader.kind,
                },
                image_format: match self.image_format {
                    Some(f) => f,
                    None => self.config->0.image.format,
                },
                runner: match self.runner {
                    Some(k) => k,
                    None => self.config->0.runner.kind,
                },
                cli_extra_args: self.cli_extra_args,
            })),
    {
        let config = match self.config {
            Some(c) => c,
            None => {
                return Err(Error::config("no configuration provided"));
            },
        };
        let workspace_root = match self.workspace_root {
            Some(w) => w,
            None => {
                return Err(
                    Error::config("workspace root not set (call from_cargo_metadata or workspace_root)"),
                );
            },
        };
        let executable = match self.executable {
            Some(e) => e,
            None => {
                return Err(Error::config("executable not set (call executable or get from CLI args)"));
            },
        };
        let bootloader = match self.bootloader {
            Some(b) => b,
            None => config.bootloader.kind,
        };
        let image_format = match self.image_format {
            Some(f) => f,
            None => config.image.format,
        };
        let runner = match self.runner {
            Some(k) => k,
            None => config.runner.kind,
        };
        Ok(ImageRunner {
            config,
            workspace_root,
            executable,
            bootloader,
            image_format,
            runner,
            cli_extra_args: self.cli_extra_args,
        })
    }
}

} // verus!
