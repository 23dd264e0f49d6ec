//! Bootloaders: which files they put into an image, and their checks.
use std::collections::HashMap;
use vstd::prelude::*;

use crate::config::BootType;
use crate::context::Context;
use crate::error::Error;
use crate::template::{render, var_texts, TemplateProcessor};
use vstd::std_specs::hash::obeys_key_model;
use crate::path::{file_name, file_name_of, join_path, joined};
use crate::text::{join2, owned, string_texts};

verus! {

/// A file to put into the image: where it comes from, where it goes.
#[derive(Debug, Clone)]
pub struct FileEntry {
    /// Path on the host.
    pub source: String,
    /// Path inside the image.
    pub dest: String,
}

impl FileEntry {
    /// An entry copying `source` to `dest`.
    pub fn new(source: String, dest: String) -> (r: FileEntry)
        ensures
            r.source == source,
            r.dest == dest,
    {
        FileEntry { source, dest }
    }
}

/// The files a bootloader contributes, by boot path.
#[derive(Debug)]
pub struct BootloaderFiles {
    /// Files for BIOS boot.
    pub bios_files: Vec<FileEntry>,
    /// Files for UEFI boot.
    pub uefi_files: Vec<FileEntry>,
    /// Files for the image's root or system area.
    pub system_files: Vec<FileEntry>,
}

/// A list of file entries as (source, destination) texts.
pub open spec fn entry_texts(v: Seq<FileEntry>) -> Seq<(Seq<char>, Seq<char>)> {
    v.map_values(|e: FileEntry| (e.source@, e.dest@))
}

impl BootloaderFiles {
    /// No files.
    pub fn new() -> (r: BootloaderFiles)
        ensures
            r.bios_files@.len() == 0,
            r.uefi_files@.len() == 0,
            r.system_files@.len() == 0,
    {
        BootloaderFiles { bios_files: Vec::new(), uefi_files: Vec::new(), system_files: Vec::new() }
    }

    /// The same files and one more for BIOS boot.
    pub fn add_bios_file(self, source: String, dest: String) -> (r: BootloaderFiles)
        ensures
            r.bios_files@ == self.bios_files@.push(FileEntry { source, dest }),
            r.uefi_files@ == self.uefi_files@,
            r.system_files@ == self.system_files@,
    {
        let mut files = self;
        files.bios_files.push(FileEntry { source, dest });
        files
    }

    /// The same files and one more for UEFI boot.
    pub fn add_uefi_file(self, source: String, dest: String) -> (r: BootloaderFiles)
        ensures
            r.bios_files@ == self.bios_files@,
            r.uefi_files@ == self.uefi_files@.push(FileEntry { source, dest }),
            r.system_files@ == self.system_files@,
    {
        let mut files = self;
        files.uefi_files.push(FileEntry { source, dest });
        files
    }

    /// The same files and one more for the system area.
    pub fn add_system_file(self, source: String, dest: String) -> (r: BootloaderFiles)
        ensures
            r.bios_files@ == self.bios_files@,
            r.uefi_files@ == self.uefi_files@,
            r.system_files@ == self.system_files@.push(FileEntry { source, dest }),
    {
        let mut files = self;
        files.system_files.push(FileEntry { source, dest });
        files
    }
}

/// A bootloader configuration file to put into the image.
#[derive(Debug, Clone)]
pub struct ConfigFile {
    /// Path of the file (a template when it needs processing).
    pub source: String,
    /// Path inside the image.
    pub dest: String,
    /// Whether template variables are substituted in it.
    pub needs_template_processing: bool,
}

impl ConfigFile {
    /// A configuration file copied as it is.
    pub fn new(source: String, dest: String) -> (r: ConfigFile)
        ensures
            r.source == source,
            r.dest == dest,
            !r.needs_template_processing,
    {
        ConfigFile { source, dest, needs_template_processing: false }
    }

    /// The same file, marked for template processing.
    pub fn with_template_processing(self) -> (r: ConfigFile)
        ensures
            r.source == self.source,
            r.dest == self.dest,
            r.needs_template_processing,
    {
        ConfigFile { needs_template_processing: true, ..self }
    }
}

/// The name of a boot type, as reports print it.
pub open spec fn boot_type_text(b: BootType) -> Seq<char> {
    match b {
        BootType::Bios => "Bios"@,
        BootType::Uefi => "Uefi"@,
        BootType::Hybrid => "Hybrid"@,
    }
}

/// The name of a boot type.
pub fn boot_type_name(b: BootType) -> (r: String)
    ensures
        r@ == boot_type_text(b),
{
    match b {
        BootType::Bios => owned("Bios"),
        BootType::Uefi => owned("Uefi"),
        BootType::Hybrid => owned("Hybrid"),
    }
}

/// A bootloader that needs one firmware interface cannot serve a
/// configuration that asks only for the other.
pub open spec fn boot_types_clash(required: BootType, configured: BootType) -> bool {
    (required == BootType::Bios && configured == BootType::Uefi) || (required == BootType::Uefi
        && configured == BootType::Bios)
}

/// Checks that a bootloader needing `required` can serve `configured`.
pub fn check_boot_compat(required: BootType, configured: BootType) -> (r: Result<(), Error>)
    ensures
        r is Err <==> boot_types_clash(required, configured),
        r is Err ==> (r->Err_0 matches Error::UnsupportedCombination(m) && m@ == "Bootloader requires "@
            + boot_type_text(required) + " but boot type is configured as "@ + boot_type_text(
            configured,
        )),
{
    let clash = match (required, configured) {
        (BootType::Bios, BootType::Uefi) | (BootType::Uefi, BootType::Bios) => true,
        _ => false,
    };
    if clash {
        let a = join2("Bootloader requires ", boot_type_name(required).as_str());
        let b = join2(a.as_str(), " but boot type is configured as ");
        let c = join2(b.as_str(), boot_type_name(configured).as_str());
        return Err(Error::UnsupportedCombination(c));
    }
    Ok(())
}

/// A bootloader: the files it contributes to an image, and its checks.
pub trait Bootloader {
    /// The bootloader's own files for this run.
    fn prepare(&self, ctx: &Context) -> Result<BootloaderFiles, Error>;

    /// The configuration files for this run.
    fn config_files(&self, ctx: &Context) -> Result<Vec<ConfigFile>, Error>;

    /// Substitutes `{{NAME}}` and `$NAME` placeholders.
    fn process_templates(&self, content: &str, vars: &HashMap<String, String>) -> (r: Result<String, Error>)
        ensures
            r is Ok,
            exists|order: Seq<(String, String)>|
                r->Ok_0@ == render(content@, #[trigger] var_texts(order)) && (obeys_key_model::<String>()
                    ==> order.to_set() == vars@.kv_pairs() && order.no_duplicates()),
    {
        TemplateProcessor::process(content, vars)
    }

    /// The boot type the bootloader supports.
    fn boot_type(&self) -> BootType;

    /// Checks the configuration against the bootloader.
    fn validate_config(&self, ctx: &Context) -> Result<(), Error> {
        check_boot_compat(self.boot_type(), ctx.config.boot.boot_type)
    }

    /// A human-readable name.
    fn name(&self) -> String;
}

/// No bootloader: a UEFI executable boots directly from the EFI boot path.
#[derive(Debug, Clone, Copy)]
pub struct NoneBootloader;

impl NoneBootloader {
    /// Direct boot.
    pub fn new() -> (r: NoneBootloader) {
        NoneBootloader
    }
}

impl Bootloader for NoneBootloader {
    /// For UEFI boot, the executable becomes `efi/boot/bootx64.efi`; nothing
    /// else is needed.
    fn prepare(&self, ctx: &Context) -> (r: Result<BootloaderFiles, Error>)
        ensures
            r is Ok,
            r->Ok_0.bios_files@.len() == 0,
            r->Ok_0.system_files@.len() == 0,
            ctx.config.boot.boot_type.needs_uefi() ==> entry_texts(r->Ok_0.uefi_files@) == seq![
                (ctx.executable@, "efi/boot/bootx64.efi"@),
            ],
            !ctx.config.boot.boot_type.needs_uefi() ==> r->Ok_0.uefi_files@.len() == 0,
    {
        let files = BootloaderFiles::new();
        if ctx.config.boot.boot_type.needs_uefi() {
            let files = files.add_uefi_file(ctx.executable.clone(), owned("efi/boot/bootx64.efi"));
            assert(entry_texts(files.uefi_files@) =~= seq![(ctx.executable@, "efi/boot/bootx64.efi"@)]);
            Ok(files)
        } else {
            Ok(files)
        }
    }

    fn config_files(&self, ctx: &Context) -> (r: Result<Vec<ConfigFile>, Error>)
        ensures
            r is Ok && r->Ok_0@.len() == 0,
    {
        Ok(Vec::new())
    }

    fn boot_type(&self) -> (r: BootType)
        ensures
            r == BootType::Uefi,
    {
        BootType::Uefi
    }

    fn name(&self) -> (r: String)
        ensures
            r@ == "Direct Boot (no bootloader)"@,
    {
        owned("Direct Boot (no bootloader)")
    }
}

/// GRUB; it contributes no files of its own yet.
#[derive(Debug, Clone, Copy)]
pub struct GrubBootloader;

impl GrubBootloader {
    /// GRUB.
    pub fn new() -> (r: GrubBootloader) {
        GrubBootloader
    }
}

impl Bootloader for GrubBootloader {
    fn prepare(&self, ctx: &Context) -> (r: Result<BootloaderFiles, Error>)
        ensures
            r is Ok,
            r->Ok_0.bios_files@.len() == 0,
            r->Ok_0.uefi_files@.len() == 0,
            r->Ok_0.system_files@.len() == 0,
    {
        Ok(BootloaderFiles::new())
    }

    fn config_files(&self, ctx: &Context) -> (r: Result<Vec<ConfigFile>, Error>)
        ensures
            r is Ok && r->Ok_0@.len() == 0,
    {
        Ok(Vec::new())
    }

    fn boot_type(&self) -> (r: BootType)
        ensures
            r == BootType::Hybrid,
    {
        BootType::Hybrid
    }

    fn name(&self) -> (r: String)
        ensures
            r@ == "GRUB"@,
    {
        owned("GRUB")
    }
}

/// The files Limine needs from its repository for a boot type.
pub open spec fn limine_files_for(b: BootType) -> Seq<Seq<char>> {
    (if b.needs_bios() { seq!["limine-bios.sys"@, "limine-bios-cd.bin"@] } else { Seq::empty() }) + (
    if b.needs_uefi() {
        seq!["BOOTX64.EFI"@, "limine-uefi-cd.bin"@]
    } else {
        Seq::empty()
    })
}

/// Limine's UEFI boot file, from a checkout at `repo`.
pub open spec fn limine_uefi_entries(b: BootType, repo: Seq<char>) -> Seq<(Seq<char>, Seq<char>)> {
    if b.needs_uefi() {
        seq![(joined(repo, "BOOTX64.EFI"@), "efi/boot/bootx64.efi"@)]
    } else {
        Seq::empty()
    }
}

/// Limine's system-area files, from a checkout at `repo`.
pub open spec fn limine_system_entries(b: BootType, repo: Seq<char>) -> Seq<(Seq<char>, Seq<char>)> {
    (if b.needs_bios() {
        seq![
            (joined(repo, "limine-bios.sys"@), "limine-bios.sys"@),
            (joined(repo, "limine-bios-cd.bin"@), "limine-bios-cd.bin"@),
        ]
    } else {
        Seq::empty()
    }) + (if b.needs_uefi() {
        seq![(joined(repo, "limine-uefi-cd.bin"@), "limine-uefi-cd.bin"@)]
    } else {
        Seq::empty()
    })
}

/// Where Limine's configuration file is looked for.
pub open spec fn limine_config_path(ctx: Context) -> Seq<char> {
    match ctx.config.bootloader.config_file {
        Some(p) => joined(ctx.workspace_root@, p@),
        None => joined(ctx.workspace_root@, "limine.conf"@),
    }
}

/// The repository Limine releases are fetched from by default.
pub const LIMINE_REPO_URL: &'static str = "https://github.com/limine-bootloader/limine.git";

/// Limine, fetched as a binary release from a git repository.
#[derive(Debug, Clone)]
pub struct LimineBootloader {
    repo_url: String,
}

impl View for LimineBootloader {
    type V = Seq<char>;

    closed spec fn view(&self) -> Seq<char> {
        self.repo_url@
    }
}

impl LimineBootloader {
    /// Limine from the official repository.
    pub fn new() -> (r: LimineBootloader)
        ensures
            r@ == LIMINE_REPO_URL@,
    {
        LimineBootloader { repo_url: owned(LIMINE_REPO_URL) }
    }

    /// Limine from another repository.
    pub fn with_repo_url(repo_url: String) -> (r: LimineBootloader)
        ensures
            r@ == repo_url@,
    {
        LimineBootloader { repo_url }
    }

    /// The repository Limine is fetched from.
    pub fn repo_url(&self) -> (r: &String)
        ensures
            r@ == self@,
    {
        &self.repo_url
    }

    /// The files Limine needs from its repository for a boot type, in the
    /// order they are checked: for BIOS `limine-bios.sys` and
    /// `limine-bios-cd.bin`, for UEFI `BOOTX64.EFI` and `limine-uefi-cd.bin`.
    pub fn required_files(boot_type: BootType) -> (r: Vec<String>)
        ensures
            string_texts(r@) == limine_files_for(boot_type),
    {
        let mut r: Vec<String> = Vec::new();
        if boot_type.needs_bios() {
            r.push(owned("limine-bios.sys"));
            r.push(owned("limine-bios-cd.bin"));
        }
        if boot_type.needs_uefi() {
            r.push(owned("BOOTX64.EFI"));
            r.push(owned("limine-uefi-cd.bin"));
        }
        assert(string_texts(r@) =~= limine_files_for(boot_type));
        r
    }

    /// Limine's files for this run, taken from the checkout at `repo_dir`.
    /// `present[i]` tells whether the `i`-th of [`Self::required_files`] is
    /// in the checkout; the first one missing is an error. The kernel goes to
    /// `boot/<its file name>`.
    pub fn prepare_from(ctx: &Context, repo_dir: &str, present: &Vec<bool>) -> (r: Result<BootloaderFiles, Error>)
        requires
            present@.len() == limine_files_for(ctx.config.boot.boot_type).len(),
            ctx.executable@.len() < 0x7fff_ffff_ffff_ffff,
        ensures
            r is Ok <==> (forall|i: int| 0 <= i < present@.len() ==> present@[i]) && file_name_of(
                ctx.executable@,
            ) is Some,
            r is Err ==> (r->Err_0 is Bootloader || r->Err_0 is Config),
            r is Ok ==> entry_texts(r->Ok_0.bios_files@) == Seq::<(Seq<char>, Seq<char>)>::empty(),
            r is Ok ==> entry_texts(r->Ok_0.uefi_files@) == limine_uefi_entries(
                ctx.config.boot.boot_type,
                repo_dir@,
            ),
            r is Ok ==> entry_texts(r->Ok_0.system_files@) == limine_system_entries(
                ctx.config.boot.boot_type,
                repo_dir@,
            ) + seq![(ctx.executable@, joined("boot"@, file_name_of(ctx.executable@)->0))],
    {
        let names = LimineBootloader::required_files(ctx.config.boot.boot_type);
        assert(string_texts(names@).len() == names@.len());
        let mut i: usize = 0;
        while i < present.len()
            invariant
                names@.len() == present@.len(),
                i <= present@.len(),
                forall|j: int| 0 <= j < i ==> present@[j],
            decreases present@.len() - i,
        {
            if !present[i] {
                let a = join2(names[i].as_str(), " not found in Limine repository. Make sure you're using a binary release (e.g., v8.x-binary).");
                return Err(Error::Bootloader(a));
            }
            i = i + 1;
        }
        let kernel = match file_name(ctx.executable.as_str()) {
            Some(n) => n,
            None => {
                return Err(Error::config("invalid executable path"));
            },
        };
        let bt = ctx.config.boot.boot_type;
        let mut files = BootloaderFiles::new();
        if bt.needs_bios() {
            files = files.add_system_file(join_path(repo_dir, "limine-bios.sys"), owned("limine-bios.sys"));
            files = files.add_system_file(join_path(repo_dir, "limine-bios-cd.bin"), owned("limine-bios-cd.bin"));
        }
        if bt.needs_uefi() {
            files = files.add_uefi_file(join_path(repo_dir, "BOOTX64.EFI"), owned("efi/boot/bootx64.efi"));
            files = files.add_system_file(join_path(repo_dir, "limine-uefi-cd.bin"), owned("limine-uefi-cd.bin"));
        }
        let ghost before = files.system_files@;
        files = files.add_system_file(ctx.executable.clone(), join_path("boot", kernel.as_str()));
        assert(entry_texts(files.bios_files@) =~= Seq::<(Seq<char>, Seq<char>)>::empty());
        assert(entry_texts(files.uefi_files@) =~= limine_uefi_entries(bt, repo_dir@));
        assert(entry_texts(before) =~= limine_system_entries(bt, repo_dir@));
        assert(entry_texts(files.system_files@) =~= entry_texts(before) + seq![
            (ctx.executable@, joined("boot"@, file_name_of(ctx.executable@)->0)),
        ]);
        Ok(files)
    }

    /// Where Limine's configuration file is looked for: the configured
    /// file, or `limine.conf`, under the workspace root.
    pub fn config_path(ctx: &Context) -> (r: String)
        ensures
            r@ == limine_config_path(*ctx),
    {
        match &ctx.config.bootloader.config_file {
            Some(p) => join_path(ctx.workspace_root.as_str(), p.as_str()),
            None => join_path(ctx.workspace_root.as_str(), "limine.conf"),
        }
    }

    /// Limine's configuration files for this run. `present[0]` tells whether
    /// the configuration file (see [`Self::config_path`]) exists and
    /// `present[1 + i]` whether the `i`-th extra file does. The configuration
    /// file becomes `limine.conf`, with template processing; each extra file
    /// keeps its file name.
    pub fn config_files_from(ctx: &Context, present: &Vec<bool>) -> (r: Result<Vec<ConfigFile>, Error>)
        requires
            present@.len() == ctx.config.bootloader.extra_files@.len() + 1,
            forall|i: int|
                0 <= i < ctx.config.bootloader.extra_files@.len() ==> (
                #[trigger] ctx.config.bootloader.extra_files@[i])@.len() < 0x7fff_ffff_ffff_ffff,
        ensures
            r is Ok <==> (forall|i: int| 0 <= i < present@.len() ==> present@[i]) && (forall|i: int|
                0 <= i < ctx.config.bootloader.extra_files@.len() ==> file_name_of(
                    (#[trigger] ctx.config.bootloader.extra_files@[i])@,
                ) is Some),
            r is Err ==> r->Err_0 is Config,
            r is Ok ==> r->Ok_0@.len() == present@.len(),
            r is Ok ==> r->Ok_0@[0].source@ == limine_config_path(*ctx) && r->Ok_0@[0].dest@
                == "limine.conf"@ && r->Ok_0@[0].needs_template_processing,
            r is Ok ==> forall|i: int|
                0 <= i < ctx.config.bootloader.extra_files@.len() ==> {
                    let e = (#[trigger] ctx.config.bootloader.extra_files@[i])@;
                    &&& r->Ok_0@[i + 1].source@ == joined(ctx.workspace_root@, e)
                    &&& r->Ok_0@[i + 1].dest@ == file_name_of(e)->0
                    &&& !r->Ok_0@[i + 1].needs_template_processing
                },
    {
        let path = LimineBootloader::config_path(ctx);
        if !present[0] {
            let a = join2("limine.conf not found at ", path.as_str());
            return Err(Error::Config(join2(a.as_str(), ". Please create a Limine configuration file.")));
        }
        let mut configs: Vec<ConfigFile> = Vec::new();
        configs.push(ConfigFile::new(path, owned("limine.conf")).with_template_processing());
        let extras = &ctx.config.bootloader.extra_files;
        let mut i: usize = 0;
        while i < extras.len()
            invariant
                present@.len() == extras@.len() + 1,
                extras == &ctx.config.bootloader.extra_files,
                forall|k: int| 0 <= k < extras@.len() ==> (#[trigger] extras@[k])@.len() < 0x7fff_ffff_ffff_ffff,
                present@[0],
                i <= extras@.len(),
                configs@.len() == i + 1,
                configs@[0].source@ == limine_config_path(*ctx) && configs@[0].dest@ == "limine.conf"@
                    && configs@[0].needs_template_processing,
                forall|j: int| 1 <= j <= i ==> present@[j],
                forall|j: int|
                    0 <= j < i ==> file_name_of((#[trigger] extras@[j])@) is Some,
                forall|j: int|
                    0 <= j < i ==> {
                        let e = (#[trigger] extras@[j])@;
                        &&& configs@[j + 1].source@ == joined(ctx.workspace_root@, e)
                        &&& configs@[j + 1].dest@ == file_name_of(e)->0
                        &&& !configs@[j + 1].needs_template_processing
                    },
            decreases extras@.len() - i,
        {
            let src = join_path(ctx.workspace_root.as_str(), extras[i].as_str());
            if !present[i + 1] {
                return Err(Error::Config(join2("extra bootloader file not found: ", src.as_str())));
            }
            let dest = match file_name(extras[i].as_str()) {
                Some(n) => n,
                None => {
                    return Err(Error::config("invalid extra file path"));
                },
            };
            configs.push(ConfigFile::new(src, dest));
            i = i + 1;
        }
        Ok(configs)
    }

    /// Checks the configured Limine version: it must not be empty.
    pub fn validate_version(ctx: &Context) -> (r: Result<(), Error>)
        ensures
            r is Err <==> ctx.config.bootloader.limine.version@.len() == 0,
            r is Err ==> r->Err_0 is Config,
    {
        if ctx.config.bootloader.limine.version.as_str().is_empty() {
            return Err(Error::config("Limine version not specified in configuration"));
        }
        Ok(())
    }
}

/// Where git repositories for bootloaders are checked out.
#[derive(Debug, Clone)]
pub struct GitFetcher {
    cache_dir: String,
    verbose: bool,
}

impl GitFetcher {
    /// A fetcher that checks out under `cache_dir`.
    pub fn new(cache_dir: String, verbose: bool) -> (r: GitFetcher)
        ensures
            r.cache_dir()@ == cache_dir@,
            r.verbose() == verbose,
    {
        GitFetcher { cache_dir, verbose }
    }

    /// The checkout directory.
    pub closed spec fn cache_dir(&self) -> String {
        self.cache_dir
    }

    /// Whether progress is printed.
    pub closed spec fn verbose(&self) -> bool {
        self.verbose
    }

    /// Whether progress is printed.
    pub fn is_verbose(&self) -> (r: bool)
        ensures
            r == self.verbose(),
    {
        self.verbose
    }

    /// Where a repository is checked out at its default branch:
    /// `<cache>/<name>`.
    pub fn checkout_dir(&self, name: &str) -> (r: String)
        ensures
            r@ == joined(self.cache_dir()@, name@),
    {
        join_path(self.cache_dir.as_str(), name)
    }

    /// Where a repository is checked out at a given ref:
    /// `<cache>/<name>-<ref>`.
    pub fn ref_checkout_dir(&self, name: &str, git_ref: &str) -> (r: String)
        ensures
            r@ == joined(self.cache_dir()@, name@ + seq!['-'] + git_ref@),
    {
        let a = join2(name, "-");
        proof {
            reveal_strlit("-");
        }
        assert("-"@ =~= seq!['-']);
        let b = join2(a.as_str(), git_ref);
        join_path(self.cache_dir.as_str(), b.as_str())
    }
}

} // verus!
