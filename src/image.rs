//! Image formats: where each puts its output, which boot types it serves,
//! and how large its image is made.
use vstd::prelude::*;
use vstd::string::StringSliceAdditionalSpecFns;

use crate::config::BootType;
use crate::context::Context;
use crate::error::Error;
use crate::path::{join_path, joined};
use crate::text::owned;

verus! {

/// Whether an image format serving `supported` can boot `configured`: an
/// exact match, or hybrid on either side.
pub open spec fn serves(supported: Seq<BootType>, configured: BootType) -> bool {
    exists|i: int|
        0 <= i < supported.len() && (#[trigger] supported[i] == configured || supported[i]
            == BootType::Hybrid || configured == BootType::Hybrid)
}

/// Checks that an image format serving `supported` can boot `configured`.
pub fn validate_boot_type(supported: &Vec<BootType>, configured: BootType) -> (r: Result<(), Error>)
    ensures
        r is Ok <==> serves(supported@, configured),
        r is Err ==> r->Err_0 is UnsupportedCombination,
{
    let mut i: usize = 0;
    while i < supported.len()
        invariant
            i <= supported@.len(),
            forall|j: int|
                0 <= j < i ==> !(#[trigger] supported@[j] == configured || supported@[j]
                    == BootType::Hybrid || configured == BootType::Hybrid),
        decreases supported@.len() - i,
    {
        let b = supported[i];
        if b == configured || b == BootType::Hybrid || configured == BootType::Hybrid {
            return Ok(());
        }
        i = i + 1;
    }
    Err(Error::unsupported("the image format does not support the configured boot type"))
}

/// The output path of a file image: the configured output, or the default
/// name, under the output directory.
pub open spec fn file_image_path(ctx: Context, default_name: Seq<char>) -> Seq<char> {
    match ctx.config.image.output {
        Some(o) => joined(ctx.output_dir@, o@),
        None => joined(ctx.output_dir@, default_name),
    }
}

fn file_image_output(ctx: &Context, default_name: &str) -> (r: String)
    ensures
        r@ == file_image_path(*ctx, default_name@),
{
    match &ctx.config.image.output {
        Some(o) => join_path(ctx.output_dir.as_str(), o.as_str()),
        None => join_path(ctx.output_dir.as_str(), default_name),
    }
}

/// A directory image, handed to the emulator as a writable FAT drive.
#[derive(Debug, Clone, Copy)]
pub struct DirectoryBuilder;

impl DirectoryBuilder {
    /// A directory image builder.
    pub fn new() -> (r: DirectoryBuilder) {
        DirectoryBuilder
    }

    /// The image directory: `esp` under the output directory.
    pub fn output_path(&self, ctx: &Context) -> (r: String)
        ensures
            r@ == joined(ctx.output_dir@, "esp"@),
    {
        join_path(ctx.output_dir.as_str(), "esp")
    }

    /// Every boot type.
    pub fn supported_boot_types(&self) -> (r: Vec<BootType>)
        ensures
            r@ == seq![BootType::Bios, BootType::Uefi, BootType::Hybrid],
    {
        let r = vec![BootType::Bios, BootType::Uefi, BootType::Hybrid];
        assert(r@ =~= seq![BootType::Bios, BootType::Uefi, BootType::Hybrid]);
        r
    }

    /// The builder's name.
    pub fn name(&self) -> (r: String)
        ensures
            r@ == "Directory"@,
    {
        owned("Directory")
    }
}

/// The size of a FAT image for files of `total` bytes: half as much again
/// for tables and slack, and at least 32 MiB.
pub open spec fn fat_size_for(total: nat) -> nat {
    let grown = total * 3 / 2;
    if grown > 32 * 1024 * 1024 { grown } else { 32 * 1024 * 1024 }
}

/// A FAT filesystem image.
#[derive(Debug, Clone, Copy)]
pub struct FatImageBuilder;

impl FatImageBuilder {
    /// A FAT image builder.
    pub fn new() -> (r: FatImageBuilder) {
        FatImageBuilder
    }

    /// The image file: the configured output, or `image.fat`, under the
    /// output directory.
    pub fn output_path(&self, ctx: &Context) -> (r: String)
        ensures
            r@ == file_image_path(*ctx, "image.fat"@),
    {
        file_image_output(ctx, "image.fat")
    }

    /// UEFI and hybrid.
    pub fn supported_boot_types(&self) -> (r: Vec<BootType>)
        ensures
            r@ == seq![BootType::Uefi, BootType::Hybrid],
    {
        let r = vec![BootType::Uefi, BootType::Hybrid];
        assert(r@ =~= seq![BootType::Uefi, BootType::Hybrid]);
        r
    }

    /// The size, in bytes, of an image for files of `total` bytes.
    pub fn image_size(total: u64) -> (r: u64)
        requires
            total <= u64::MAX / 3,
        ensures
            r == fat_size_for(total as nat),
    {
        let grown = total * 3 / 2;
        if grown > 32 * 1024 * 1024 {
            grown
        } else {
            32 * 1024 * 1024
        }
    }

    /// The 11-byte FAT volume label: the label's first 11 bytes, padded
    /// with spaces.
    pub fn volume_label_bytes(label: &str) -> (r: Vec<u8>)
        ensures
            r@.len() == 11,
            forall|i: int|
                0 <= i < 11 ==> #[trigger] r@[i] == if i < label.spec_bytes().len() {
                    label.spec_bytes()[i]
                } else {
                    32u8
                },
    {
        let bytes = label.as_bytes();
        let mut out: Vec<u8> = Vec::new();
        let mut i: usize = 0;
        while i < 11
            invariant
                i <= 11,
                bytes@ == label.spec_bytes(),
                out@.len() == i,
                forall|j: int|
                    0 <= j < i ==> #[trigger] out@[j] == if j < bytes@.len() {
                        bytes@[j]
                    } else {
                        32u8
                    },
            decreases 11 - i,
        {
            if i < bytes.len() {
                out.push(bytes[i]);
            } else {
                out.push(32u8);
            }
            i = i + 1;
        }
        out
    }

    /// The builder's name.
    pub fn name(&self) -> (r: String)
        ensures
            r@ == "FAT"@,
    {
        owned("FAT")
    }
}

/// The size of an ISO image for content of `total` bytes: the content and
/// 1 MiB for the filesystem's structures, rounded up to whole 2048-byte
/// sectors.
pub open spec fn iso_size_for(total: nat) -> nat {
    ((total + 1024 * 1024 + 2047) / 2048) * 2048
}

/// The boot images an ISO's BIOS entry may use, in order of preference.
pub open spec fn bios_boot_candidates() -> Seq<Seq<char>> {
    seq!["limine-bios-cd.bin"@, "limine-cd.bin"@, "isolinux/isolinux.bin"@]
}

/// An ISO 9660 image, bootable through El Torito.
#[derive(Debug, Clone, Copy)]
pub struct IsoImageBuilder;

impl IsoImageBuilder {
    /// An ISO image builder.
    pub fn new() -> (r: IsoImageBuilder) {
        IsoImageBuilder
    }

    /// The image file: the configured output, or `image.iso`, under the
    /// output directory.
    pub fn output_path(&self, ctx: &Context) -> (r: String)
        ensures
            r@ == file_image_path(*ctx, "image.iso"@),
    {
        file_image_output(ctx, "image.iso")
    }

    /// Every boot type.
    pub fn supported_boot_types(&self) -> (r: Vec<BootType>)
        ensures
            r@ == seq![BootType::Bios, BootType::Uefi, BootType::Hybrid],
    {
        let r = vec![BootType::Bios, BootType::Uefi, BootType::Hybrid];
        assert(r@ =~= seq![BootType::Bios, BootType::Uefi, BootType::Hybrid]);
        r
    }

    /// The size, in bytes, to allocate for content of `total` bytes.
    pub fn image_size(total: u64) -> (r: u64)
        requires
            total <= u64::MAX - 2 * 1024 * 1024,
        ensures
            r == iso_size_for(total as nat),
    {
        ((total + 1024 * 1024 + 2047) / 2048) * 2048
    }

    /// The first of the BIOS boot image candidates that `present` says is
    /// there (`present[i]` for candidate `i`).
    pub fn find_boot_image(present: &Vec<bool>) -> (r: Option<String>)
        requires
            present@.len() == 3,
        ensures
            match r {
                Some(p) => exists|i: int|
                    0 <= i < 3 && present@[i] && p@ == bios_boot_candidates()[i] && forall|j: int|
                        0 <= j < i ==> !present@[j],
                None => forall|j: int| 0 <= j < 3 ==> !present@[j],
            },
    {
        if present[0] {
            Some(owned("limine-bios-cd.bin"))
        } else if present[1] {
            Some(owned("limine-cd.bin"))
        } else if present[2] {
            Some(owned("isolinux/isolinux.bin"))
        } else {
            None
        }
    }

    /// The builder's name.
    pub fn name(&self) -> (r: String)
        ensures
            r@ == "ISO"@,
    {
        owned("ISO")
    }
}

} // verus!
