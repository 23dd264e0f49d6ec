//! Layering configurations: merging one over another, and overrides taken
//! from environment settings.
use vstd::prelude::*;

use crate::config::{BootType, Config};
use crate::template::map_entries;
use vstd::std_specs::hash::obeys_key_model;
use crate::text::chars_of;

verus! {

/// Where a configuration is loaded from.
#[derive(Debug, Clone)]
pub struct ConfigLoader {
    /// Workspace root, when given instead of taken from cargo metadata.
    pub workspace_root: Option<String>,
    /// A standalone configuration file, when given.
    pub config_file: Option<String>,
    /// Whether the package's cargo metadata is read.
    pub use_cargo_metadata: bool,
}

impl ConfigLoader {
    /// A loader that reads cargo metadata and nothing else.
    pub fn new() -> (r: ConfigLoader)
        ensures
            r.workspace_root is None,
            r.config_file is None,
            r.use_cargo_metadata,
    {
        ConfigLoader { workspace_root: None, config_file: None, use_cargo_metadata: true }
    }

    /// The same loader with the workspace root set.
    pub fn workspace_root(self, root: String) -> (r: ConfigLoader)
        ensures
            r.workspace_root == Some(root),
            r.config_file == self.config_file,
            r.use_cargo_metadata == self.use_cargo_metadata,
    {
        ConfigLoader { workspace_root: Some(root), ..self }
    }

    /// The same loader with a standalone configuration file.
    pub fn config_file(self, path: String) -> (r: ConfigLoader)
        ensures
            r.workspace_root == self.workspace_root,
            r.config_file == Some(path),
            r.use_cargo_metadata == self.use_cargo_metadata,
    {
        ConfigLoader { config_file: Some(path), ..self }
    }

    /// The same loader, not reading cargo metadata.
    pub fn no_cargo_metadata(self) -> (r: ConfigLoader)
        ensures
            r.workspace_root == self.workspace_root,
            r.config_file == self.config_file,
            !r.use_cargo_metadata,
    {
        ConfigLoader { use_cargo_metadata: false, ..self }
    }

    /// `over` laid over `base`: every section comes from `over`; the
    /// variables are `base`'s with `over`'s added, `over` winning on a
    /// shared name (stated where the key type follows vstd's hash-table
    /// model).
    pub fn merge_configs(base: Config, over: Config) -> (r: Config)
        ensures
            r.boot == over.boot,
            r.bootloader == over.bootloader,
            r.image == over.image,
            r.runner == over.runner,
            r.test == over.test,
            r.run == over.run,
            r.verbose == over.verbose,
            obeys_key_model::<String>() ==> r.variables@ == base.variables@.union_prefer_right(
                over.variables@,
            ),
    {
        let mut variables = base.variables;
        let entries = map_entries(&over.variables);
        let mut i: usize = 0;
        while i < entries.len()
            invariant
                i <= entries@.len(),
                obeys_key_model::<String>() ==> variables@ == base.variables@.union_prefer_right(
                    pairs_map(entries@.subrange(0, i as int)),
                ),
            decreases entries@.len() - i,
        {
            let (k, v) = &entries[i];
            let ghost before = variables@;
            variables.insert(k.clone(), v.clone());
            proof {
                let s = entries@.subrange(0, i + 1);
                assert(s.drop_last() =~= entries@.subrange(0, i as int));
                if obeys_key_model::<String>() {
                    assert(variables@ =~= base.variables@.union_prefer_right(pairs_map(s)));
                }
            }
            i = i + 1;
        }
        proof {
            assert(entries@.subrange(0, entries@.len() as int) =~= entries@);
            if obeys_key_model::<String>() {
                lemma_pairs_map_of(entries@, over.variables@);
            }
        }
        Config {
            boot: over.boot,
            bootloader: over.bootloader,
            image: over.image,
            runner: over.runner,
            test: over.test,
            run: over.run,
            variables,
            verbose: over.verbose,
        }
    }
}

/// The map that inserting the pairs of `s`, in order, builds from nothing.
pub open spec fn pairs_map(s: Seq<(String, String)>) -> Map<String, String>
    decreases s.len(),
{
    if s.len() == 0 {
        Map::empty()
    } else {
        pairs_map(s.drop_last()).insert(s.last().0, s.last().1)
    }
}

proof fn lemma_pairs_map(s: Seq<(String, String)>)
    ensures
        forall|k: String|
            #[trigger] pairs_map(s).contains_key(k) ==> exists|i: int|
                0 <= i < s.len() && #[trigger] s[i] == (k, pairs_map(s)[k]),
        forall|i: int| 0 <= i < s.len() ==> pairs_map(s).contains_key(#[trigger] s[i].0),
    decreases s.len(),
{
    if s.len() > 0 {
        let p = s.drop_last();
        lemma_pairs_map(p);
        assert forall|k: String| #[trigger] pairs_map(s).contains_key(k) implies exists|i: int|
            0 <= i < s.len() && #[trigger] s[i] == (k, pairs_map(s)[k]) by {
            if k == s.last().0 {
                assert(s[s.len() - 1] == (k, pairs_map(s)[k]));
            } else {
                let i = choose|i: int| 0 <= i < p.len() && #[trigger] p[i] == (k, pairs_map(p)[k]);
                assert(s[i] == p[i]);
            }
        }
        assert forall|i: int| 0 <= i < s.len() implies pairs_map(s).contains_key(#[trigger] s[i].0) by {
            if i < s.len() - 1 {
                assert(s[i] == p[i]);
            }
        }
    }
}

proof fn lemma_pairs_map_of(s: Seq<(String, String)>, m: Map<String, String>)
    requires
        s.to_set() == m.kv_pairs(),
    ensures
        pairs_map(s) == m,
{
    lemma_pairs_map(s);
    let pm = pairs_map(s);
    assert forall|k: String| m.contains_key(k) implies pm.contains_key(k) by {
        assert(m.kv_pairs().contains((k, m[k])));
        assert(s.to_set().contains((k, m[k])));
        let i = choose|i: int| 0 <= i < s.len() && s[i] == (k, m[k]);
        assert(pm.contains_key(s[i].0));
    }
    assert forall|k: String| pm.contains_key(k) implies m.contains_key(k) && m[k] == pm[k] by {
        let i = choose|i: int| 0 <= i < s.len() && #[trigger] s[i] == (k, pm[k]);
        assert(s.contains(s[i]));
        assert(s.to_set().contains((k, pm[k])));
        assert(m.kv_pairs().contains((k, pm[k])));
    }
    assert(pm =~= m);
}

/// A decimal digit.
pub open spec fn is_digit(c: char) -> bool {
    '0' <= c && c <= '9'
}

/// The value of a string of decimal digits.
pub open spec fn digits_value(d: Seq<char>) -> nat
    decreases d.len(),
{
    if d.len() == 0 {
        0
    } else {
        digits_value(d.drop_last()) * 10 + ((d.last() as nat) - ('0' as nat)) as nat
    }
}

/// Every character is a decimal digit.
pub open spec fn all_digits(d: Seq<char>) -> bool {
    forall|i: int| 0 <= i < d.len() ==> is_digit(#[trigger] d[i])
}

/// A number's text without its leading '+', if any.
pub open spec fn unsigned_part(s: Seq<char>) -> Seq<char> {
    if s.len() > 0 && s[0] == '+' { s.drop_first() } else { s }
}

/// The unsigned 32-bit number a text spells: an optional '+', then one or
/// more decimal digits, of a value that fits.
pub open spec fn parsed_u32(s: Seq<char>) -> Option<u32> {
    let d = unsigned_part(s);
    if d.len() > 0 && all_digits(d) && digits_value(d) <= u32::MAX {
        Some(digits_value(d) as u32)
    } else {
        None
    }
}

proof fn lemma_digits_prefix(d: Seq<char>, i: int)
    requires
        0 <= i <= d.len(),
        forall|j: int| 0 <= j < d.len() ==> is_digit(#[trigger] d[j]),
    ensures
        digits_value(d.subrange(0, i)) <= digits_value(d),
    decreases d.len(),
{
    if i < d.len() {
        let p = d.drop_last();
        assert forall|j: int| 0 <= j < p.len() implies is_digit(#[trigger] p[j]) by {
            assert(p[j] == d[j]);
        }
        lemma_digits_prefix(p, i);
        assert(p.subrange(0, i) =~= d.subrange(0, i));
    } else {
        assert(d.subrange(0, i) =~= d);
    }
}

/// Parses an unsigned 32-bit decimal number (see [`parsed_u32`]).
pub fn parse_u32(s: &str) -> (r: Option<u32>)
    ensures
        r == parsed_u32(s@),
{
    let cs = chars_of(s);
    let start: usize = if cs.len() > 0 && cs[0] == '+' { 1 } else { 0 };
    let ghost d = unsigned_part(s@);
    assert(d =~= cs@.subrange(start as int, cs@.len() as int));
    if cs.len() <= start {
        return None;
    }
    let mut value: u64 = 0;
    let mut i: usize = start;
    while i < cs.len()
        invariant
            start <= i <= cs@.len(),
            cs@ == s@,
            d == unsigned_part(s@),
            d == cs@.subrange(start as int, cs@.len() as int),
            d.len() > 0,
            forall|j: int| start <= j < i ==> is_digit(#[trigger] cs@[j]),
            value == digits_value(cs@.subrange(start as int, i as int)),
            value <= u32::MAX,
        decreases cs@.len() - i,
    {
        let c = cs[i];
        if !('0' <= c && c <= '9') {
            assert(!is_digit(d[i - start]));
            assert(!all_digits(d));
            assert(parsed_u32(s@) is None);
            return None;
        }
        let digit = (c as u32 - '0' as u32) as u64;
        let ghost prefix = cs@.subrange(start as int, i + 1);
        assert(prefix.drop_last() =~= cs@.subrange(start as int, i as int));
        assert(prefix.last() == c);
        value = value * 10 + digit;
        assert(value == digits_value(prefix));
        if value > 0xffff_ffff {
            proof {
                if all_digits(d) {
                    lemma_digits_prefix(d, i + 1 - start);
                    assert(d.subrange(0, i + 1 - start) =~= prefix);
                }
            }
            assert(parsed_u32(s@) is None);
            return None;
        }
        i = i + 1;
    }
    assert(cs@.subrange(start as int, i as int) =~= d);
    assert forall|j: int| 0 <= j < d.len() implies is_digit(#[trigger] d[j]) by {
        assert(d[j] == cs@[start + j]);
    }
    Some(value as u32)
}

/// A character folded to lower case when it is an ASCII letter.
pub open spec fn ascii_lower(c: char) -> char {
    if 'A' <= c && c <= 'Z' { (((c as u8) + 32) as u8) as char } else { c }
}

/// Whether `s`, with ASCII letters folded to lower case, reads `word`.
pub open spec fn reads_as(s: Seq<char>, word: Seq<char>) -> bool {
    s.len() == word.len() && forall|i: int| 0 <= i < s.len() ==> ascii_lower(#[trigger] s[i]) == word[i]
}

/// Whether `s` reads as `word`, ignoring the case of ASCII letters in `s`.
pub fn reads_as_word(s: &str, word: &str) -> (r: bool)
    ensures
        r == reads_as(s@, word@),
{
    let a = chars_of(s);
    let b = chars_of(word);
    if a.len() != b.len() {
        return false;
    }
    let mut i: usize = 0;
    while i < a.len()
        invariant
            a@ == s@,
            b@ == word@,
            a@.len() == b@.len(),
            i <= a@.len(),
            forall|j: int| 0 <= j < i ==> ascii_lower(#[trigger] a@[j]) == b@[j],
        decreases a@.len() - i,
    {
        let c = a[i];
        let lower = if 'A' <= c && c <= 'Z' { ((c as u8) + 32) as char } else { c };
        if lower != b[i] {
            return false;
        }
        i = i + 1;
    }
    true
}

/// Whether a flag's text turns it on: "1", "true" or "yes", in any case.
pub open spec fn flag_on(s: Seq<char>) -> bool {
    reads_as(s, "1"@) || reads_as(s, "true"@) || reads_as(s, "yes"@)
}

/// The boot type a text names ("bios", "uefi" or "hybrid", in any case).
pub open spec fn named_boot_type(s: Seq<char>) -> Option<BootType> {
    if reads_as(s, "bios"@) {
        Some(BootType::Bios)
    } else if reads_as(s, "uefi"@) {
        Some(BootType::Uefi)
    } else if reads_as(s, "hybrid"@) {
        Some(BootType::Hybrid)
    } else {
        None
    }
}

/// Override values as read from the environment; `None` for a setting
/// that is not set.
#[derive(Debug, Clone)]
pub struct EnvOverrides {
    /// Emulator binary.
    pub qemu_binary: Option<String>,
    /// Memory size in MiB, as text.
    pub qemu_memory: Option<String>,
    /// Number of cores, as text.
    pub qemu_cores: Option<String>,
    /// Machine type.
    pub qemu_machine: Option<String>,
    /// Boot type name.
    pub boot_type: Option<String>,
    /// Verbose flag.
    pub verbose: Option<String>,
    /// Acceleration flag.
    pub kvm: Option<String>,
}

/// A setting's text when it is set and not empty.
pub open spec fn given(v: Option<String>) -> Option<Seq<char>> {
    match v {
        Some(s) => if s@.len() > 0 { Some(s@) } else { None },
        None => None,
    }
}

/// A setting's text when it is set and not empty.
fn given_text(v: &Option<String>) -> (r: Option<&String>)
    ensures
        match given(*v) {
            Some(t) => r is Some && r->0@ == t,
            None => r is None,
        },
{
    match v {
        Some(s) => if s.as_str().is_empty() { None } else { Some(s) },
        None => None,
    }
}

/// Applies environment overrides to `config`. A setting that is unset,
/// empty, or does not parse leaves its field as it was.
pub fn apply_env_overrides(config: &mut Config, env: &EnvOverrides)
    ensures
        final(config).runner.qemu.binary@ == match given(env.qemu_binary) {
            Some(t) => t,
            None => old(config).runner.qemu.binary@,
        },
        final(config).runner.qemu.memory == match given(env.qemu_memory) {
            Some(t) => match parsed_u32(t) {
                Some(m) => m,
                None => old(config).runner.qemu.memory,
            },
            None => old(config).runner.qemu.memory,
        },
        final(config).runner.qemu.cores == match given(env.qemu_cores) {
            Some(t) => match parsed_u32(t) {
                Some(m) => m,
                None => old(config).runner.qemu.cores,
            },
            None => old(config).runner.qemu.cores,
        },
        final(config).runner.qemu.machine@ == match given(env.qemu_machine) {
            Some(t) => t,
            None => old(config).runner.qemu.machine@,
        },
        final(config).boot.boot_type == match given(env.boot_type) {
            Some(t) => match named_boot_type(t) {
                Some(b) => b,
                None => old(config).boot.boot_type,
            },
            None => old(config).boot.boot_type,
        },
        final(config).verbose == match given(env.verbose) {
            Some(t) => flag_on(t),
            None => old(config).verbose,
        },
        final(config).runner.qemu.kvm == match given(env.kvm) {
            Some(t) => flag_on(t),
            None => old(config).runner.qemu.kvm,
        },
        final(config).variables == old(config).variables,
        final(config).bootloader == old(config).bootloader,
        final(config).image == old(config).image,
        final(config).test == old(config).test,
        final(config).run == old(config).run,
        final(config).runner.kind == old(config).runner.kind,
        final(config).runner.qemu.extra_args == old(config).runner.qemu.extra_args,
        final(config).runner.qemu.serial == old(config).runner.qemu.serial,
{
    override_text(&mut config.runner.qemu.binary, &env.qemu_binary);
    override_number(&mut config.runner.qemu.memory, &env.qemu_memory);
    override_number(&mut config.runner.qemu.cores, &env.qemu_cores);
    override_text(&mut config.runner.qemu.machine, &env.qemu_machine);
    override_boot_type(&mut config.boot.boot_type, &env.boot_type);
    override_flag(&mut config.verbose, &env.verbose);
    override_flag(&mut config.runner.qemu.kvm, &env.kvm);
}

fn override_text(field: &mut String, v: &Option<String>)
    ensures
        final(field)@ == match given(*v) {
            Some(t) => t,
            None => old(field)@,
        },
{
    match given_text(v) {
        Some(t) => *field = t.clone(),
        None => {},
    }
}

fn override_number(field: &mut u32, v: &Option<String>)
    ensures
        *final(field) == match given(*v) {
            Some(t) => match parsed_u32(t) {
                Some(m) => m,
                None => *old(field),
            },
            None => *old(field),
        },
{
    match given_text(v) {
        Some(t) => match parse_u32(t.as_str()) {
            Some(m) => *field = m,
            None => {},
        },
        None => {},
    }
}

fn override_flag(field: &mut bool, v: &Option<String>)
    ensures
        *final(field) == match given(*v) {
            Some(t) => flag_on(t),
            None => *old(field),
        },
{
    match given_text(v) {
        Some(t) => {
            *field = reads_as_word(t.as_str(), "1") || reads_as_word(t.as_str(), "true") || reads_as_word(
                t.as_str(),
                "yes",
            );
        },
        None => {},
    }
}

fn override_boot_type(field: &mut BootType, v: &Option<String>)
    ensures
        *final(field) == match given(*v) {
            Some(t) => match named_boot_type(t) {
                Some(b) => b,
                None => *old(field),
            },
            None => *old(field),
        },
{
    match given_text(v) {
        Some(t) => {
            if reads_as_word(t.as_str(), "bios") {
                *field = BootType::Bios;
            } else if reads_as_word(t.as_str(), "uefi") {
                *field = BootType::Uefi;
            } else if reads_as_word(t.as_str(), "hybrid") {
                *field = BootType::Hybrid;
            }
        },
        None => {},
    }
}

} // verus!
