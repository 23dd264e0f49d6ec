//! The resolved settings of one build-and-run.
use std::collections::HashMap;
use vstd::prelude::*;

use crate::config::Config;
use crate::path::{file_name, find_last, file_name_of, join_path, joined, last_index, split_extension, stem_of};
use crate::text::{chars_of, owned};

verus! {

/// A hexadecimal digit, in either case.
pub open spec fn is_hex_digit(c: char) -> bool {
    ('0' <= c && c <= '9') || ('a' <= c && c <= 'f') || ('A' <= c && c <= 'F')
}

/// Whether an executable's path names a test binary: the stem of its file
/// name holds a '-', and what follows the last '-' is at least eight
/// hexadecimal digits (the hash suffix that cargo gives test binaries).
pub open spec fn names_test_binary(exe: Seq<char>) -> bool {
    match file_name_of(exe) {
        None => false,
        Some(name) => {
            let stem = stem_of(name);
            let dash = last_index(stem, '-');
            let suffix = stem.subrange(dash + 1, stem.len() as int);
            &&& dash >= 0
            &&& suffix.len() >= 8
            &&& forall|i: int| 0 <= i < suffix.len() ==> is_hex_digit(#[trigger] suffix[i])
        },
    }
}

/// Everything the pipeline stages read about one run.
pub struct Context {
    /// Configuration.
    pub config: Config,
    /// Workspace root directory.
    pub workspace_root: String,
    /// Directory for build artifacts.
    pub target_dir: String,
    /// Path of the executable being run.
    pub executable: String,
    /// Whether this is a test run.
    pub is_test: bool,
    /// Directory for downloaded or generated files.
    pub cache_dir: String,
    /// Output directory of the current build.
    pub output_dir: String,
    /// Template variables available for substitution.
    pub template_vars: HashMap<String, String>,
    /// Extra emulator arguments passed through on the command line.
    pub cli_extra_args: Vec<String>,
    /// Extra emulator arguments taken from the environment.
    pub env_extra_args: Vec<String>,
}

/// The artifact directory under a workspace root.
pub open spec fn target_dir_of(root: Seq<char>) -> Seq<char> {
    joined(joined(root, "target"@), "image-runner"@)
}

/// Whether every character of `cs` from position `from` on is a hexadecimal digit.
fn all_hex(cs: &Vec<char>, from: usize) -> (r: bool)
    requires
        from <= cs@.len(),
    ensures
        r == forall|i: int| from <= i < cs@.len() ==> is_hex_digit(#[trigger] cs@[i]),
{
    let mut i: usize = from;
    while i < cs.len()
        invariant
            from <= i <= cs@.len(),
            forall|j: int| from <= j < i ==> is_hex_digit(#[trigger] cs@[j]),
        decreases cs@.len() - i,
    {
        let c = cs[i];
        if !(('0' <= c && c <= '9') || ('a' <= c && c <= 'f') || ('A' <= c && c <= 'F')) {
            return false;
        }
        i = i + 1;
    }
    true
}

impl Context {
    /// The settings of a run of `executable` from `workspace_root`.
    ///
    /// The artifact, cache and output directories lie under
    /// `<root>/target/image-runner`; whether this is a test run is told from
    /// the executable's name. Template variables are the configured ones,
    /// then `env_vars` over them, then the built-in ones over both:
    /// EXECUTABLE, EXECUTABLE_NAME, WORKSPACE_ROOT, OUTPUT_DIR, IS_TEST and
    /// ARGS (empty until the passthrough arguments are known).
    pub fn new(config: Config, workspace_root: String, executable: String, env_vars: &Vec<(String, String)>) -> (r: Context)
        requires
            executable@.len() < 0x7fff_ffff_ffff_ffff,
        ensures
            r.config == config,
            r.workspace_root == workspace_root,
            r.executable == executable,
            r.target_dir@ == target_dir_of(workspace_root@),
            r.cache_dir@ == joined(target_dir_of(workspace_root@), "cache"@),
            r.output_dir@ == joined(target_dir_of(workspace_root@), "output"@),
            r.is_test == names_test_binary(executable@),
            r.cli_extra_args@.len() == 0,
            r.env_extra_args@.len() == 0,
    {
        let target = join_path(workspace_root.as_str(), "target");
        let target_dir = join_path(target.as_str(), "image-runner");
        let cache_dir = join_path(target_dir.as_str(), "cache");
        let output_dir = join_path(target_dir.as_str(), "output");
        let mut vars = config.variables.clone();
        let mut i: usize = 0;
        while i < env_vars.len()
            decreases env_vars@.len() - i,
        {
            let (k, v) = &env_vars[i];
            vars.insert(k.clone(), v.clone());
            i = i + 1;
        }
        let mut ctx = Context {
            config,
            workspace_root,
            target_dir,
            executable,
            is_test: false,
            cache_dir,
            output_dir,
            template_vars: vars,
            cli_extra_args: Vec::new(),
            env_extra_args: Vec::new(),
        };
        ctx.detect_test();
        ctx.template_vars.insert(owned("EXECUTABLE"), ctx.executable.clone());
        match file_name(ctx.executable.as_str()) {
            Some(name) => {
                ctx.template_vars.insert(owned("EXECUTABLE_NAME"), name);
            },
            None => {},
        }
        ctx.template_vars.insert(owned("WORKSPACE_ROOT"), ctx.workspace_root.clone());
        ctx.template_vars.insert(owned("OUTPUT_DIR"), ctx.output_dir.clone());
        let flag = if ctx.is_test { owned("1") } else { owned("0") };
        ctx.template_vars.insert(owned("IS_TEST"), flag);
        ctx.template_vars.insert(owned("ARGS"), String::new());
        ctx
    }

    /// Marks the run as a test run when the executable's name says so
    /// (see [`names_test_binary`]); never clears the mark.
    pub fn detect_test(&mut self)
        requires
            old(self).executable@.len() < 0x7fff_ffff_ffff_ffff,
        ensures
            final(self).is_test == (old(self).is_test || names_test_binary(old(self).executable@)),
            final(self).config == old(self).config,
            final(self).executable == old(self).executable,
            final(self).workspace_root == old(self).workspace_root,
            final(self).target_dir == old(self).target_dir,
            final(self).cache_dir == old(self).cache_dir,
            final(self).output_dir == old(self).output_dir,
            final(self).template_vars == old(self).template_vars,
            final(self).cli_extra_args == old(self).cli_extra_args,
            final(self).env_extra_args == old(self).env_extra_args,
    {
        let name = match file_name(self.executable.as_str()) {
            Some(n) => n,
            None => {
                return;
            },
        };
        let (stem, _) = split_extension(name.as_str());
        let cs = chars_of(stem.as_str());
        let d = find_last(&cs, '-');
        if d < 0 {
            return;
        }
        let dash = d as usize;
        if cs.len() - (dash + 1) >= 8 && all_hex(&cs, dash + 1) {
            proof {
                let suffix = cs@.subrange(dash + 1, cs@.len() as int);
                assert forall|k: int| 0 <= k < suffix.len() implies is_hex_digit(#[trigger] suffix[k]) by {
                    assert(suffix[k] == cs@[dash + 1 + k]);
                }
            }
            self.is_test = true;
        } else {
            proof {
                let suffix = cs@.subrange(dash + 1, cs@.len() as int);
                if suffix.len() >= 8 && forall|k: int| 0 <= k < suffix.len() ==> is_hex_digit(#[trigger] suffix[k]) {
                    assert forall|j: int| dash + 1 <= j < cs@.len() implies is_hex_digit(#[trigger] cs@[j]) by {
                        assert(cs@[j] == suffix[j - dash - 1]);
                    }
                }
            }
        }
    }

    /// The mode's extra emulator arguments: the test ones in a test run,
    /// the ordinary ones otherwise.
    pub fn get_extra_args(&self) -> (r: &Vec<String>)
        ensures
            r == if self.is_test { &self.config.test.extra_args } else { &self.config.run.extra_args },
    {
        if self.is_test {
            &self.config.test.extra_args
        } else {
            &self.config.run.extra_args
        }
    }

    /// The exit code that means a test passed, if one is configured.
    pub fn test_success_exit_code(&self) -> (r: Option<i32>)
        ensures
            r == self.config.test.success_exit_code,
    {
        self.config.test.success_exit_code
    }
}

} // verus!
