//! The library's error type and its messages.
use vstd::prelude::*;

use crate::text::{int_text, join2, owned, signed_decimal};

verus! {

/// What went wrong while building or running an image.
#[derive(Debug, Clone)]
pub enum Error {
    /// A configuration problem.
    Config(String),
    /// A bootloader problem.
    Bootloader(String),
    /// An image could not be built.
    ImageBuild(String),
    /// The emulator could not be started or waited for, or the run failed.
    Runner(String),
    /// Firmware could not be obtained.
    Firmware(String),
    /// A template could not be processed.
    Template(String),
    /// A file does not exist.
    FileNotFound(String),
    /// A required configuration field is missing.
    MissingConfig(String),
    /// A configuration field holds a value it cannot take.
    InvalidConfig { field: String, value: String },
    /// A feature needed here is not built in.
    FeatureNotEnabled(String),
    /// Options that cannot be used together.
    UnsupportedCombination(String),
    /// An input/output failure, with its description.
    Io(String),
    /// A test run exceeded its time limit and was killed.
    TimedOut,
    /// A test run exited with a code other than the expected success code.
    TestFailed { expected: Option<i32>, actual: i32 },
}

/// The human-readable text of an error.
pub open spec fn error_text(e: Error) -> Seq<char> {
    match e {
        Error::Config(m) => "Configuration error: "@ + m@,
        Error::Bootloader(m) => "Bootloader error: "@ + m@,
        Error::ImageBuild(m) => "Image build error: "@ + m@,
        Error::Runner(m) => "Runner error: "@ + m@,
        Error::Firmware(m) => "Firmware error: "@ + m@,
        Error::Template(m) => "Template error: "@ + m@,
        Error::FileNotFound(p) => "File not found: "@ + p@,
        Error::MissingConfig(f) => "Missing required configuration field: "@ + f@,
        Error::InvalidConfig { field, value } => "Invalid configuration value for "@ + field@ + ": "@
            + value@,
        Error::FeatureNotEnabled(f) => "Feature '"@ + f@
            + "' is not enabled. Enable it in Cargo.toml features."@,
        Error::UnsupportedCombination(m) => "Unsupported combination: "@ + m@,
        Error::Io(m) => "IO error: "@ + m@,
        Error::TimedOut => "test timed out"@,
        Error::TestFailed { expected, actual } => match expected {
            Some(x) => "test failed: expected "@ + signed_decimal(x as int) + ", got "@
                + signed_decimal(actual as int),
            None => "test failed: no success exit code configured, got "@ + signed_decimal(
                actual as int,
            ),
        },
    }
}

impl Error {
    /// A configuration error.
    pub fn config(msg: &str) -> (r: Error)
        ensures
            r matches Error::Config(m) && m@ == msg@,
    {
        Error::Config(owned(msg))
    }

    /// A bootloader error.
    pub fn bootloader(msg: &str) -> (r: Error)
        ensures
            r matches Error::Bootloader(m) && m@ == msg@,
    {
        Error::Bootloader(owned(msg))
    }

    /// An image build error.
    pub fn image_build(msg: &str) -> (r: Error)
        ensures
            r matches Error::ImageBuild(m) && m@ == msg@,
    {
        Error::ImageBuild(owned(msg))
    }

    /// A runner error.
    pub fn runner(msg: &str) -> (r: Error)
        ensures
            r matches Error::Runner(m) && m@ == msg@,
    {
        Error::Runner(owned(msg))
    }

    /// A firmware error.
    pub fn firmware(msg: &str) -> (r: Error)
        ensures
            r matches Error::Firmware(m) && m@ == msg@,
    {
        Error::Firmware(owned(msg))
    }

    /// A template error.
    pub fn template(msg: &str) -> (r: Error)
        ensures
            r matches Error::Template(m) && m@ == msg@,
    {
        Error::Template(owned(msg))
    }

    /// A feature-not-enabled error.
    pub fn feature_not_enabled(feature: &str) -> (r: Error)
        ensures
            r matches Error::FeatureNotEnabled(f) && f@ == feature@,
    {
        Error::FeatureNotEnabled(owned(feature))
    }

    /// An unsupported-combination error.
    pub fn unsupported(msg: &str) -> (r: Error)
        ensures
            r matches Error::UnsupportedCombination(m) && m@ == msg@,
    {
        Error::UnsupportedCombination(owned(msg))
    }

    /// The error's human-readable text.
    pub fn message(&self) -> (r: String)
        ensures
            r@ == error_text(*self),
    {
        match self {
            Error::Config(m) => join2("Configuration error: ", m.as_str()),
            Error::Bootloader(m) => join2("Bootloader error: ", m.as_str()),
            Error::ImageBuild(m) => join2("Image build error: ", m.as_str()),
            Error::Runner(m) => join2("Runner error: ", m.as_str()),
            Error::Firmware(m) => join2("Firmware error: ", m.as_str()),
            Error::Template(m) => join2("Template error: ", m.as_str()),
            Error::FileNotFound(p) => join2("File not found: ", p.as_str()),
            Error::MissingConfig(f) => join2("Missing required configuration field: ", f.as_str()),
            Error::InvalidConfig { field, value } => {
                let a = join2("Invalid configuration value for ", field.as_str());
                let b = join2(a.as_str(), ": ");
                join2(b.as_str(), value.as_str())
            },
            Error::FeatureNotEnabled(f) => {
                let a = join2("Feature '", f.as_str());
                join2(a.as_str(), "' is not enabled. Enable it in Cargo.toml features.")
            },
            Error::UnsupportedCombination(m) => join2("Unsupported combination: ", m.as_str()),
            Error::Io(m) => join2("IO error: ", m.as_str()),
            Error::TimedOut => owned("test timed out"),
            Error::TestFailed { expected, actual } => {
                let got = int_text(*actual);
                match expected {
                    Some(x) => {
                        let want = int_text(*x);
                        let a = join2("test failed: expected ", want.as_str());
                        let b = join2(a.as_str(), ", got ");
                        join2(b.as_str(), got.as_str())
                    },
                    None => join2(
                        "test failed: no success exit code configured, got ",
                        got.as_str(),
                    ),
                }
            },
        }
    }
}

} // verus!
