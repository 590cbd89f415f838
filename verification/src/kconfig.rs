//! Kernel configuration values as read from a `.config` file.
use crate::scan::{find_line_end, lemma_line_end_bounds, line_end, trim, trim_str};
use crate::text::{concat3, str_eq};
use vstd::prelude::*;

verus! {

/// The state of one `CONFIG_*` option: built in (`y`), built as a module
/// (`m`), explicitly not set (`n`), or absent from the configuration.
#[derive(Clone, Copy, Debug, PartialEq, Eq, Structural)]
pub enum ConfigValue {
    Yes,
    Module,
    No,
    Missing,
}

impl ConfigValue {
    /// The option is compiled in, either built in or as a module.
    pub open spec fn spec_is_enabled(self) -> bool {
        self == ConfigValue::Yes || self == ConfigValue::Module
    }

    /// The option appears in the configuration.
    pub open spec fn spec_is_known(self) -> bool {
        self != ConfigValue::Missing
    }

    /// Display label; an absent option reads "not set" when a configuration
    /// was available and "Unknown" when none was.
    pub open spec fn spec_label(self, cfg_available: bool) -> Seq<char> {
        match self {
            ConfigValue::Yes => "y"@,
            ConfigValue::Module => "m"@,
            ConfigValue::No => "not set"@,
            ConfigValue::Missing => if cfg_available {
                "not set"@
            } else {
                "Unknown"@
            },
        }
    }

    pub fn is_enabled(self) -> (r: bool)
        ensures
            r == self.spec_is_enabled(),
    {
        match self {
            ConfigValue::Yes | ConfigValue::Module => true,
            _ => false,
        }
    }

    pub fn is_known(self) -> (r: bool)
        ensures
            r == self.spec_is_known(),
    {
        match self {
            ConfigValue::Missing => false,
            _ => true,
        }
    }

    pub fn label(self, cfg_available: bool) -> (r: &'static str)
        ensures
            r@ == self.spec_label(cfg_available),
    {
        match self {
            ConfigValue::Yes => "y",
            ConfigValue::Module => "m",
            ConfigValue::No => "not set",
            ConfigValue::Missing => if cfg_available {
                "not set"
            } else {
                "Unknown"
            },
        }
    }
}

/// Every enabled option is known.
pub proof fn enabled_implies_known(v: ConfigValue)
    ensures
        v.spec_is_enabled() ==> v.spec_is_known(),
{
}

/// The value a `.config` line gives option `key`: `CONFIG_<key>=y`, `=m`
/// or `=n`, or `# CONFIG_<key> is not set`, surrounding white space aside.
pub open spec fn line_value(line: Seq<char>, key: Seq<char>) -> Option<ConfigValue> {
    let t = trim(line);
    if t == "CONFIG_"@ + key + "=y"@ {
        Some(ConfigValue::Yes)
    } else if t == "CONFIG_"@ + key + "=m"@ {
        Some(ConfigValue::Module)
    } else if t == "CONFIG_"@ + key + "=n"@ {
        Some(ConfigValue::No)
    } else if t == "# CONFIG_"@ + key + " is not set"@ {
        Some(ConfigValue::No)
    } else {
        None
    }
}

/// The value of option `key` given by the first line at or after `p` that
/// mentions it; `Missing` when no line does.
pub open spec fn value_from(s: Seq<char>, key: Seq<char>, p: int) -> ConfigValue
    decreases s.len() - p,
{
    if p < 0 || p >= s.len() {
        ConfigValue::Missing
    } else {
        let q = line_end(s, p);
        proof {
            lemma_line_end_bounds(s, p);
        }
        match line_value(s.subrange(p, q), key) {
            Some(v) => v,
            None => if q < s.len() {
                value_from(s, key, q + 1)
            } else {
                ConfigValue::Missing
            },
        }
    }
}

fn line_value_exec(line: &str, key: &str) -> (r: Option<ConfigValue>)
    ensures
        r == line_value(line@, key@),
{
    let t = trim_str(line);
    if str_eq(t, concat3("CONFIG_", key, "=y").as_str()) {
        Some(ConfigValue::Yes)
    } else if str_eq(t, concat3("CONFIG_", key, "=m").as_str()) {
        Some(ConfigValue::Module)
    } else if str_eq(t, concat3("CONFIG_", key, "=n").as_str()) {
        Some(ConfigValue::No)
    } else if str_eq(t, concat3("# CONFIG_", key, " is not set").as_str()) {
        Some(ConfigValue::No)
    } else {
        None
    }
}

/// The value of option `key` (without its `CONFIG_` prefix) in the text
/// of a kernel configuration.
pub fn config_value(text: &str, key: &str) -> (r: ConfigValue)
    ensures
        r == value_from(text@, key@, 0),
{
    let n = text.unicode_len();
    let mut p: usize = 0;
    while p < n
        invariant
            n == text@.len(),
            p <= n,
            value_from(text@, key@, 0) == value_from(text@, key@, p as int),
        decreases n - p,
    {
        let q = find_line_end(text, p);
        proof {
            lemma_line_end_bounds(text@, p as int);
        }
        let line = text.substring_char(p, q);
        match line_value_exec(line, key) {
            Some(v) => {
                return v;
            },
            None => {},
        }
        if q >= n {
            return ConfigValue::Missing;
        }
        p = q + 1;
    }
    ConfigValue::Missing
}

/// Whether option `key` is set: enabled (`y` or `m`), explicitly off, or
/// absent from the configuration.
pub open spec fn spec_config_is_set(text: Seq<char>, key: Seq<char>) -> Option<bool> {
    match value_from(text, key, 0) {
        ConfigValue::Yes | ConfigValue::Module => Some(true),
        ConfigValue::No => Some(false),
        ConfigValue::Missing => None,
    }
}

pub fn config_is_set(text: &str, key: &str) -> (r: Option<bool>)
    ensures
        r == spec_config_is_set(text@, key@),
{
    match config_value(text, key) {
        ConfigValue::Yes | ConfigValue::Module => Some(true),
        ConfigValue::No => Some(false),
        ConfigValue::Missing => None,
    }
}

/// "m" or "y" after the first line at or after `p` that sets `key` to
/// `m` or `y`; "y" when none does.
pub open spec fn built_as_from(s: Seq<char>, key: Seq<char>, p: int) -> Seq<char>
    decreases s.len() - p,
{
    if p < 0 || p >= s.len() {
        "y"@
    } else {
        let q = line_end(s, p);
        proof {
            lemma_line_end_bounds(s, p);
        }
        let t = trim(s.subrange(p, q));
        if t == "CONFIG_"@ + key + "=m"@ {
            "m"@
        } else if t == "CONFIG_"@ + key + "=y"@ {
            "y"@
        } else if q < s.len() {
            built_as_from(s, key, q + 1)
        } else {
            "y"@
        }
    }
}

/// How an enabled option is built: "m" for a module, "y" otherwise.
pub open spec fn spec_config_val_label(text: Option<Seq<char>>, key: Seq<char>) -> Seq<char> {
    match text {
        Some(t) => if spec_config_is_set(t, key) == Some(true) {
            built_as_from(t, key, 0)
        } else {
            "y"@
        },
        None => "y"@,
    }
}

fn built_as(text: &str, key: &str) -> (r: &'static str)
    ensures
        r@ == built_as_from(text@, key@, 0),
{
    let n = text.unicode_len();
    let as_module = concat3("CONFIG_", key, "=m");
    let built_in = concat3("CONFIG_", key, "=y");
    let mut p: usize = 0;
    while p < n
        invariant
            n == text@.len(),
            p <= n,
            as_module@ == "CONFIG_"@ + key@ + "=m"@,
            built_in@ == "CONFIG_"@ + key@ + "=y"@,
            built_as_from(text@, key@, 0) == built_as_from(text@, key@, p as int),
        decreases n - p,
    {
        let q = find_line_end(text, p);
        proof {
            lemma_line_end_bounds(text@, p as int);
        }
        let t = trim_str(text.substring_char(p, q));
        if str_eq(t, as_module.as_str()) {
            return "m";
        }
        if str_eq(t, built_in.as_str()) {
            return "y";
        }
        if q >= n {
            return "y";
        }
        p = q + 1;
    }
    "y"
}

/// The build label of option `key` for display: "m" when the first line
/// setting it to `m` or `y` says `m`, "y" otherwise.
pub fn config_val_label(config_text: Option<&str>, key: &str) -> (r: &'static str)
    ensures
        r@ == spec_config_val_label(
            match config_text {
                Some(t) => Some(t@),
                None => None,
            },
            key@,
        ),
{
    match config_text {
        Some(t) => {
            if config_is_set(t, key) == Some(true) {
                built_as(t, key)
            } else {
                "y"
            }
        },
        None => "y",
    }
}

} // verus!
