//! UEFI firmware volumes handed to the emulator.
use vstd::prelude::*;

verus! {

/// Where UEFI firmware is cached.
#[derive(Debug, Clone)]
pub struct OvmfFirmware {
    cache_dir: String,
}

impl OvmfFirmware {
    /// A firmware source that caches under `cache_dir`.
    pub fn new(cache_dir: String) -> (r: OvmfFirmware)
        ensures
            r.cache_dir()@ == cache_dir@,
    {
        OvmfFirmware { cache_dir }
    }

    /// The directory under which firmware is cached.
    pub closed spec fn cache_dir(&self) -> String {
        self.cache_dir
    }

    /// The directory under which firmware is cached.
    pub fn cache_dir_path(&self) -> (r: &String)
        ensures
            r == self.cache_dir(),
    {
        &self.cache_dir
    }
}

/// The two firmware volumes: read-only code and writable variable store.
#[derive(Debug, Clone)]
pub struct OvmfFiles {
    /// Path of the firmware code volume.
    pub code: String,
    /// Path of the firmware variable store.
    pub vars: String,
}

impl OvmfFiles {
    /// The code volume's path.
    pub fn code(&self) -> (r: &String)
        ensures
            r == &self.code,
    {
        &self.code
    }

    /// The variable store's path.
    pub fn vars(&self) -> (r: &String)
        ensures
            r == &self.vars,
    {
        &self.vars
    }
}

} // verus!
