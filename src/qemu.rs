//! The emulator's command line, assembled from a run's settings.
use vstd::prelude::*;

use crate::config::{QemuConfig, SerialMode};
use crate::context::Context;
use crate::error::Error;
use crate::firmware::OvmfFiles;
use crate::path::{extension_of, file_name, file_name_of, split_extension};
use crate::text::{decimal, join2, nat_text, owned, same_text};

verus! {

/// A program and the arguments it is started with.
#[derive(Debug, Clone)]
pub struct Invocation {
    /// The program to start.
    pub program: String,
    /// Its arguments, in order.
    pub args: Vec<String>,
}

/// The texts of a list of strings.
pub open spec fn texts(v: Seq<String>) -> Seq<Seq<char>> {
    v.map_values(|s: String| s@)
}

/// How an image is attached to the emulator, told from its shape on disk.
#[derive(Debug, Clone, Copy, PartialEq, Eq, Structural)]
pub enum ImageKind {
    /// A directory, attached as a writable FAT drive.
    Directory,
    /// An ISO file, attached as optical media.
    Optical,
    /// Any other file, attached as a raw block device.
    Raw,
}

/// The kind of an image: a directory, a file whose extension is "iso", or
/// any other file.
pub open spec fn kind_of_image(is_dir: bool, path: Seq<char>) -> ImageKind {
    if is_dir {
        ImageKind::Directory
    } else {
        match file_name_of(path) {
            Some(n) => if extension_of(n) == Some("iso"@) {
                ImageKind::Optical
            } else {
                ImageKind::Raw
            },
            None => ImageKind::Raw,
        }
    }
}

/// The arguments that attach an image of the given kind.
pub open spec fn disk_args_of(kind: ImageKind, path: Seq<char>) -> Seq<Seq<char>> {
    match kind {
        ImageKind::Directory => seq!["-drive"@, "format=raw,file=fat:rw:"@ + path],
        ImageKind::Optical => seq!["-cdrom"@, path],
        ImageKind::Raw => seq!["-drive"@, "format=raw,file="@ + path],
    }
}

/// Disk attachment follows the image's shape: a directory is a writable
/// pass-through FAT drive, an ISO file is optical media, any other file is a
/// raw drive.
pub proof fn disk_attachment_dispatch(is_dir: bool, path: Seq<char>)
    ensures
        is_dir ==> disk_args_of(kind_of_image(is_dir, path), path) == seq![
            "-drive"@,
            "format=raw,file=fat:rw:"@ + path,
        ],
        !is_dir && file_name_of(path) is Some && extension_of(file_name_of(path)->0) == Some("iso"@)
            ==> disk_args_of(kind_of_image(is_dir, path), path) == seq!["-cdrom"@, path],
        !is_dir && !(file_name_of(path) is Some && extension_of(file_name_of(path)->0) == Some(
            "iso"@,
        )) ==> disk_args_of(kind_of_image(is_dir, path), path) == seq![
            "-drive"@,
            "format=raw,file="@ + path,
        ],
{
}

/// Machine, memory, cores (only when more than one) and acceleration (only
/// when asked for and available).
pub open spec fn machine_args_of(q: QemuConfig, accel_available: bool) -> Seq<Seq<char>> {
    seq!["-machine"@, q.machine@, "-m"@, decimal(q.memory as nat)]
        + (if q.cores > 1 { seq!["-smp"@, decimal(q.cores as nat)] } else { Seq::empty() })
        + (if q.kvm && accel_available { seq!["-enable-kvm"@] } else { Seq::empty() })
}

/// The two firmware drives: read-only code, writable variables.
pub open spec fn firmware_args_of(code: Seq<char>, vars: Seq<char>) -> Seq<Seq<char>> {
    seq![
        "-drive"@,
        "if=pflash,format=raw,readonly=on,file="@ + code,
        "-drive"@,
        "if=pflash,format=raw,file="@ + vars,
    ]
}

/// The extra arguments, in their fixed order: the mode's, the configured
/// ones, the environment's, and (outside test runs) the passthrough ones.
pub open spec fn extra_args_of(ctx: Context) -> Seq<Seq<char>> {
    texts(if ctx.is_test { ctx.config.test.extra_args@ } else { ctx.config.run.extra_args@ })
        + texts(ctx.config.runner.qemu.extra_args@) + texts(ctx.env_extra_args@) + (if ctx.is_test {
        Seq::empty()
    } else {
        texts(ctx.cli_extra_args@)
    })
}

/// The emulator's arguments for a run, before the console wiring.
pub open spec fn command_args_of(
    ctx: Context,
    image: Seq<char>,
    kind: ImageKind,
    firmware: Option<OvmfFiles>,
    accel_available: bool,
) -> Seq<Seq<char>> {
    machine_args_of(ctx.config.runner.qemu, accel_available) + (if ctx.config.boot.boot_type.needs_uefi() {
        firmware_args_of(firmware->0.code@, firmware->0.vars@)
    } else {
        Seq::empty()
    }) + disk_args_of(kind, image) + extra_args_of(ctx)
}

/// The image's attachment arguments stand right after the machine and
/// firmware arguments of a run's command line, as a pair.
pub proof fn disk_args_in_command(
    ctx: Context,
    image: Seq<char>,
    kind: ImageKind,
    firmware: Option<OvmfFiles>,
    accel_available: bool,
)
    ensures
        ({
            let at = machine_args_of(ctx.config.runner.qemu, accel_available).len() + if ctx.config.boot.boot_type.needs_uefi() {
                4int
            } else {
                0int
            };
            command_args_of(ctx, image, kind, firmware, accel_available).subrange(at, at + 2)
                == disk_args_of(kind, image)
        }),
{
    let m = machine_args_of(ctx.config.runner.qemu, accel_available);
    let f = if ctx.config.boot.boot_type.needs_uefi() {
        firmware_args_of(firmware->0.code@, firmware->0.vars@)
    } else {
        Seq::empty()
    };
    let d = disk_args_of(kind, image);
    let all = command_args_of(ctx, image, kind, firmware, accel_available);
    assert(all == m + f + d + extra_args_of(ctx));
    assert(d.len() == 2);
    assert(all.subrange((m.len() + f.len()) as int, (m.len() + f.len() + 2) as int) =~= d);
}

/// The name of a console wiring mode on the emulator's command line.
pub open spec fn serial_mode_text(mode: SerialMode) -> Seq<char> {
    match mode {
        SerialMode::MonStdio => "mon:stdio"@,
        SerialMode::Stdio => "stdio"@,
        SerialMode::Off => "none"@,
    }
}

/// The console arguments for a wiring mode; the monitor is turned off
/// separately only when that is asked for and the mode does not already
/// carry it.
pub open spec fn serial_args_of(mode: SerialMode, separate_monitor: Option<bool>) -> Seq<Seq<char>> {
    seq!["-serial"@, serial_mode_text(mode)] + (if separate_monitor == Some(true) && mode
        != SerialMode::MonStdio {
        seq!["-monitor"@, "none"@]
    } else {
        Seq::empty()
    })
}

/// The console arguments when a handler reads the console: raw console on
/// standard output, no monitor.
pub open spec fn handler_console_args() -> Seq<Seq<char>> {
    seq!["-serial"@, "stdio"@, "-monitor"@, "none"@]
}

/// Appends one argument.
fn push_arg(args: &mut Vec<String>, a: String)
    ensures
        texts(final(args)@) == texts(old(args)@).push(a@),
{
    args.push(a);
    assert(texts(args@) =~= texts(old(args)@).push(a@));
}

/// Appends copies of the arguments in `more`.
fn extend_args(args: &mut Vec<String>, more: &Vec<String>)
    ensures
        texts(final(args)@) == texts(old(args)@) + texts(more@),
{
    let mut i: usize = 0;
    while i < more.len()
        invariant
            i <= more@.len(),
            texts(args@) == texts(old(args)@) + texts(more@.subrange(0, i as int)),
        decreases more@.len() - i,
    {
        push_arg(args, more[i].clone());
        i = i + 1;
        assert(texts(more@.subrange(0, i as int)) =~= texts(more@.subrange(0, i - 1)).push(more@[i - 1]@));
        assert(texts(args@) =~= texts(old(args)@) + texts(more@.subrange(0, i as int)));
    }
    assert(more@.subrange(0, more@.len() as int) =~= more@);
}

/// Runs a bootable image in QEMU.
#[derive(Debug, Clone, Copy)]
pub struct QemuRunner;

impl QemuRunner {
    /// A QEMU runner.
    pub fn new() -> (r: QemuRunner) {
        QemuRunner
    }

    /// How the image at `path` is attached: `is_dir` tells whether it is a
    /// directory.
    pub fn image_kind(is_dir: bool, path: &str) -> (r: ImageKind)
        requires
            path@.len() < 0x7fff_ffff_ffff_ffff,
        ensures
            r == kind_of_image(is_dir, path@),
    {
        if is_dir {
            return ImageKind::Directory;
        }
        match file_name(path) {
            Some(name) => {
                let (_, ext) = split_extension(name.as_str());
                match ext {
                    Some(e) => {
                        if same_text(e.as_str(), "iso") {
                            ImageKind::Optical
                        } else {
                            ImageKind::Raw
                        }
                    },
                    None => ImageKind::Raw,
                }
            },
            None => ImageKind::Raw,
        }
    }

    /// The arguments that attach the image at `path`.
    pub fn disk_args(kind: ImageKind, path: &str) -> (r: Vec<String>)
        ensures
            texts(r@) == disk_args_of(kind, path@),
    {
        let mut args: Vec<String> = Vec::new();
        match kind {
            ImageKind::Directory => {
                push_arg(&mut args, owned("-drive"));
                push_arg(&mut args, join2("format=raw,file=fat:rw:", path));
            },
            ImageKind::Optical => {
                push_arg(&mut args, owned("-cdrom"));
                push_arg(&mut args, owned(path));
            },
            ImageKind::Raw => {
                push_arg(&mut args, owned("-drive"));
                push_arg(&mut args, join2("format=raw,file=", path));
            },
        }
        assert(texts(args@) =~= disk_args_of(kind, path@));
        args
    }

    /// The emulator's command line for a run of the image at `image_path`,
    /// without the console wiring.
    ///
    /// UEFI boot needs both firmware volumes; without them the run cannot
    /// start and a firmware error is returned. `accel_available` tells
    /// whether this host supports hardware acceleration.
    pub fn build_command(
        &self,
        ctx: &Context,
        image_path: &str,
        kind: ImageKind,
        firmware: Option<&OvmfFiles>,
        accel_available: bool,
    ) -> (r: Result<Invocation, Error>)
        ensures
            r is Err <==> (ctx.config.boot.boot_type.needs_uefi() && firmware is None),
            r is Err ==> r->Err_0 is Firmware,
            r is Ok ==> r->Ok_0.program == ctx.config.runner.qemu.binary,
            r is Ok ==> texts(r->Ok_0.args@) == command_args_of(
                *ctx,
                image_path@,
                kind,
                match firmware {
                    Some(f) => Some(*f),
                    None => None,
                },
                accel_available,
            ),
    {
        let q = &ctx.config.runner.qemu;
        let mut args: Vec<String> = Vec::new();
        push_arg(&mut args, owned("-machine"));
        push_arg(&mut args, q.machine.clone());
        push_arg(&mut args, owned("-m"));
        push_arg(&mut args, nat_text(q.memory as u64));
        if q.cores > 1 {
            push_arg(&mut args, owned("-smp"));
            push_arg(&mut args, nat_text(q.cores as u64));
        }
        if q.kvm && accel_available {
            push_arg(&mut args, owned("-enable-kvm"));
        }
        let ghost machine = texts(args@);
        assert(machine =~= machine_args_of(*q, accel_available));
        if ctx.config.boot.boot_type.needs_uefi() {
            match firmware {
                Some(f) => {
                    push_arg(&mut args, owned("-drive"));
                    push_arg(&mut args, join2("if=pflash,format=raw,readonly=on,file=", f.code.as_str()));
                    push_arg(&mut args, owned("-drive"));
                    push_arg(&mut args, join2("if=pflash,format=raw,file=", f.vars.as_str()));
                    assert(texts(args@) =~= machine + firmware_args_of(f.code@, f.vars@));
                },
                None => {
                    return Err(Error::firmware("UEFI boot needs the firmware code and variable volumes"));
                },
            }
        } else {
            assert(texts(args@) =~= machine + Seq::<Seq<char>>::empty());
        }
        let disk = QemuRunner::disk_args(kind, image_path);
        extend_args(&mut args, &disk);
        extend_args(&mut args, ctx.get_extra_args());
        extend_args(&mut args, &q.extra_args);
        extend_args(&mut args, &ctx.env_extra_args);
        if !ctx.is_test {
            extend_args(&mut args, &ctx.cli_extra_args);
        } else {
            assert(texts(args@) =~= texts(args@) + Seq::<Seq<char>>::empty());
        }
        assert(texts(args@) =~= command_args_of(
            *ctx,
            image_path@,
            kind,
            match firmware {
                Some(f) => Some(*f),
                None => None,
            },
            accel_available,
        ));
        Ok(Invocation { program: q.binary.clone(), args })
    }

    /// The time limit a run is held to: the configured test time-out, in a
    /// test run or whenever a handler reads the console; none otherwise.
    pub fn watchdog_timeout(ctx: &Context, with_handler: bool) -> (r: Option<u64>)
        ensures
            r == if with_handler || ctx.is_test { ctx.config.test.timeout } else { None },
    {
        if with_handler || ctx.is_test {
            ctx.config.test.timeout
        } else {
            None
        }
    }

    /// Adds the console wiring of a run without a handler.
    pub fn apply_serial_config(cmd: &mut Invocation, mode: SerialMode, separate_monitor: Option<bool>)
        ensures
            final(cmd).program == old(cmd).program,
            texts(final(cmd).args@) == texts(old(cmd).args@) + serial_args_of(mode, separate_monitor),
    {
        push_arg(&mut cmd.args, owned("-serial"));
        let m = match mode {
            SerialMode::MonStdio => owned("mon:stdio"),
            SerialMode::Stdio => owned("stdio"),
            SerialMode::Off => owned("none"),
        };
        push_arg(&mut cmd.args, m);
        let ghost wired = texts(cmd.args@);
        let separate = match separate_monitor {
            Some(b) => b,
            None => false,
        };
        if separate && mode != SerialMode::MonStdio {
            push_arg(&mut cmd.args, owned("-monitor"));
            push_arg(&mut cmd.args, owned("none"));
        }
        assert(texts(cmd.args@) =~= texts(old(cmd).args@) + serial_args_of(mode, separate_monitor));
    }

    /// Adds the console wiring of a run with a handler: the console alone
    /// on standard output, the monitor off.
    pub fn attach_handler_console(cmd: &mut Invocation)
        ensures
            final(cmd).program == old(cmd).program,
            texts(final(cmd).args@) == texts(old(cmd).args@) + handler_console_args(),
    {
        push_arg(&mut cmd.args, owned("-serial"));
        push_arg(&mut cmd.args, owned("stdio"));
        push_arg(&mut cmd.args, owned("-monitor"));
        push_arg(&mut cmd.args, owned("none"));
        assert(texts(cmd.args@) =~= texts(old(cmd).args@) + handler_console_args());
    }
}

} // verus!
