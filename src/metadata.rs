//! The single-table `image-runner` package metadata, and the `key=value`
//! settings given on the command line.
use std::collections::HashMap;
use vstd::prelude::*;

use crate::config::BootType;
use crate::text::{chars_of, owned, same_text, string_of};

verus! {

/// The `image-runner` table of a package's metadata.
#[derive(Debug)]
pub struct ImageRunnerConfig {
    /// Bootloader configuration file.
    pub config_file: String,
    /// Additional files to put into the image.
    pub extra_files: Vec<String>,
    /// The Limine branch to fetch.
    pub limine_branch: String,
    /// The command that runs the image; `{}` stands for the image's path.
    pub run_command: Vec<String>,
    /// Additional arguments of test runs.
    pub test_args: Vec<String>,
    /// Additional arguments of ordinary runs.
    pub run_args: Vec<String>,
    /// The exit code that means a test passed.
    pub test_success_exit_code: u32,
    /// Boot type.
    pub boot_type: BootType,
    /// The kernel command line.
    pub cmdline: String,
    /// Variables settable from the command line.
    pub vars: HashMap<String, String>,
}

/// A package's metadata, as far as the runner reads it.
#[derive(Debug)]
pub struct PackageMetadata {
    /// The `image-runner` table.
    pub image_runner: ImageRunnerConfig,
}

/// The success exit code of test runs when none is configured.
pub const DEFAULT_TEST_SUCCESS_EXIT_CODE: u32 = 33;

/// The metadata used when a package has none.
pub fn default_config() -> (r: PackageMetadata)
    ensures
        r.image_runner.config_file@ == "limine.conf"@,
        r.image_runner.extra_files@.len() == 0,
        r.image_runner.limine_branch@ == "v8.x-binary"@,
        r.image_runner.run_command@.len() == 3,
        r.image_runner.run_command@[0]@ == "qemu-system-x86_64"@,
        r.image_runner.run_command@[1]@ == "-cdrom"@,
        r.image_runner.run_command@[2]@ == "{}"@,
        r.image_runner.test_args@.len() == 0,
        r.image_runner.run_args@.len() == 0,
        r.image_runner.test_success_exit_code == DEFAULT_TEST_SUCCESS_EXIT_CODE,
        r.image_runner.boot_type == BootType::Bios,
        r.image_runner.cmdline@.len() == 0,
        r.image_runner.vars@ == Map::<String, String>::empty(),
{
    let run_command = vec![owned("qemu-system-x86_64"), owned("-cdrom"), owned("{}")];
    let cmdline = String::new();
    PackageMetadata {
        image_runner: ImageRunnerConfig {
            config_file: owned("limine.conf"),
            extra_files: Vec::new(),
            limine_branch: owned("v8.x-binary"),
            run_command,
            test_args: Vec::new(),
            run_args: Vec::new(),
            test_success_exit_code: DEFAULT_TEST_SUCCESS_EXIT_CODE,
            boot_type: BootType::Bios,
            cmdline,
            vars: HashMap::new(),
        },
    }
}

/// A setting's value: a flag, or text.
#[derive(Debug, Clone, PartialEq, Eq)]
pub enum Value {
    Bool(bool),
    String(String),
}

/// What a value's text means: "true" and "false" are flags, anything else
/// is text.
pub open spec fn value_means(v: Value, text: Seq<char>) -> bool {
    if text == "true"@ {
        v == Value::Bool(true)
    } else if text == "false"@ {
        v == Value::Bool(false)
    } else {
        v matches Value::String(s) && s@ == text
    }
}

/// The position of the first `c` in `s`, or -1.
pub open spec fn first_index(s: Seq<char>, c: char) -> int {
    if exists|i: int| 0 <= i < s.len() && s[i] == c {
        choose|i: int| 0 <= i < s.len() && s[i] == c && forall|j: int| 0 <= j < i ==> s[j] != c
    } else {
        -1
    }
}

impl Value {
    /// The value a text means (see [`value_means`]).
    pub fn from_text(text: &str) -> (r: Value)
        ensures
            value_means(r, text@),
    {
        if same_text(text, "true") {
            Value::Bool(true)
        } else if same_text(text, "false") {
            Value::Bool(false)
        } else {
            Value::String(owned(text))
        }
    }

    /// Splits `key=value` at the first '='; a lone key means `true`.
    pub fn parse_pair(pair: &str) -> (r: (String, Value))
        ensures
            ({
                let s = pair@;
                let i = first_index(s, '=');
                if i < 0 {
                    r.0@ == s && r.1 == Value::Bool(true)
                } else {
                    r.0@ == s.subrange(0, i) && value_means(r.1, s.subrange(i + 1, s.len() as int))
                }
            }),
    {
        let cs = chars_of(pair);
        let mut i: usize = 0;
        while i < cs.len()
            invariant
                cs@ == pair@,
                i <= cs@.len(),
                forall|j: int| 0 <= j < i ==> cs@[j] != '=',
            decreases cs@.len() - i,
        {
            if cs[i] == '=' {
                let mut key: Vec<char> = Vec::new();
                let mut rest: Vec<char> = Vec::new();
                let mut k: usize = 0;
                while k < cs.len()
                    invariant
                        k <= cs@.len(),
                        i < cs@.len(),
                        key@ == cs@.subrange(0, if k < i { k as int } else { i as int }),
                        rest@ == if k <= i { Seq::<char>::empty() } else { cs@.subrange(i + 1, k as int) },
                    decreases cs@.len() - k,
                {
                    if k < i {
                        key.push(cs[k]);
                        assert(key@ =~= cs@.subrange(0, k + 1));
                    } else if k > i {
                        rest.push(cs[k]);
                        assert(rest@ =~= cs@.subrange(i + 1, k + 1));
                    } else {
                        assert(rest@ =~= cs@.subrange(i + 1, k + 1));
                    }
                    k = k + 1;
                }
                proof {
                    assert(first_index(pair@, '=') == i as int) by {
                        let w = i as int;
                        assert(0 <= w < pair@.len() && pair@[w] == '=');
                        let c = first_index(pair@, '=');
                        assert(0 <= c < pair@.len() && pair@[c] == '=' && forall|j: int| 0 <= j < c ==> pair@[j] != '=');
                        if c < w {
                            assert(cs@[c] != '=');
                        } else if w < c {
                            assert(pair@[w] != '=');
                        }
                    }
                }
                let value_text = string_of(rest.as_slice());
                return (string_of(key.as_slice()), Value::from_text(value_text.as_str()));
            }
            i = i + 1;
        }
        proof {
            assert(!exists|j: int| 0 <= j < pair@.len() && pair@[j] == '=') by {
                assert forall|j: int| 0 <= j < pair@.len() implies pair@[j] != '=' by {
                    assert(cs@[j] != '=');
                }
            }
        }
        (owned(pair), Value::Bool(true))
    }

    /// The text of a text value; a flag is no text.
    pub fn as_string(self) -> (r: Result<String, ()>)
        ensures
            match self {
                Value::String(s) => r == Ok::<String, ()>(s),
                Value::Bool(_) => r is Err,
            },
    {
        match self {
            Value::String(s) => Ok(s),
            _ => Err(()),
        }
    }
}

impl vstd::std_specs::convert::FromSpecImpl<&str> for Value {
    open spec fn obeys_from_spec() -> bool {
        false
    }

    open spec fn from_spec(text: &str) -> Value {
        choose|v: Value| value_means(v, text@)
    }
}

impl From<&str> for Value {
    fn from(text: &str) -> (r: Value)
        ensures
            value_means(r, text@),
    {
        Value::from_text(text)
    }
}

} // verus!
