//! Builds bootable images for kernel development and runs them in an
//! emulator, supervising the run: its console can be captured and answered,
//! its time limited, and its exit classified as success or failure.
use vstd::prelude::*;

pub mod bootloader;
pub mod bytes;
pub mod config;
pub mod context;
pub mod error;
pub mod firmware;
pub mod harness;
pub mod image;
pub mod io;
pub mod loader;
pub mod metadata;
pub mod path;
pub mod pipeline;
pub mod qemu;
pub mod runner;
pub mod template;
pub mod text;

pub use config::{BootType, BootloaderKind, Config, ImageFormat, SerialConfig, SerialMode};
pub use error::Error;
pub use io::{CaptureHandler, CapturedIo, IoAction, IoHandler};
pub use pipeline::{builder, ImageRunner, ImageRunnerBuilder};
pub use runner::{CapturedOutput, RunResult};

verus! {

} // verus!
