//! The shell indicator unit: shows a short marker for the shell the prompt
//! is running under.

use vstd::prelude::*;
use crate::render::{Resolver, Module, render, spec_render, segs_model};
use crate::style::Style;
use crate::template::{Template, spec_parse};
use crate::text::str_eq;

verus! {

/// The shells the host distinguishes.
#[derive(Clone, Copy, Debug, PartialEq, Eq, Structural)]
pub enum Shell {
    Bash,
    Fish,
    Zsh,
    PowerShell,
    Ion,
    Elvish,
    Tcsh,
    Unknown,
}

/// Configuration of the shell unit: its format string, one indicator per
/// shell, and whether the unit is disabled.
#[derive(Debug, PartialEq, Eq)]
pub struct ShellConfig {
    pub format: String,
    pub bash_indicator: String,
    pub fish_indicator: String,
    pub zsh_indicator: String,
    pub powershell_indicator: String,
    pub ion_indicator: String,
    pub elvish_indicator: String,
    pub tcsh_indicator: String,
    pub unknown_indicator: String,
    pub disabled: bool,
}

impl Default for ShellConfig {
    /// The stock configuration; the unit starts disabled.
    fn default() -> (r: ShellConfig)
        ensures
            r.format@ == "$indicator "@,
            r.bash_indicator@ == "bsh"@,
            r.fish_indicator@ == "fsh"@,
            r.zsh_indicator@ == "zsh"@,
            r.powershell_indicator@ == "psh"@,
            r.ion_indicator@ == "ion"@,
            r.elvish_indicator@ == "esh"@,
            r.tcsh_indicator@ == "tsh"@,
            r.unknown_indicator@ == ""@,
            r.disabled == true,
    {
        ShellConfig {
            format: String::from_str("$indicator "),
            bash_indicator: String::from_str("bsh"),
            fish_indicator: String::from_str("fsh"),
            zsh_indicator: String::from_str("zsh"),
            powershell_indicator: String::from_str("psh"),
            ion_indicator: String::from_str("ion"),
            elvish_indicator: String::from_str("esh"),
            tcsh_indicator: String::from_str("tsh"),
            unknown_indicator: String::from_str(""),
            disabled: true,
        }
    }
}

/// The indicator configured for a shell.
pub open spec fn indicator_of(c: ShellConfig, sh: Shell) -> Seq<char> {
    match sh {
        Shell::Bash => c.bash_indicator@,
        Shell::Fish => c.fish_indicator@,
        Shell::Zsh => c.zsh_indicator@,
        Shell::PowerShell => c.powershell_indicator@,
        Shell::Ion => c.ion_indicator@,
        Shell::Elvish => c.elvish_indicator@,
        Shell::Tcsh => c.tcsh_indicator@,
        Shell::Unknown => c.unknown_indicator@,
    }
}

/// The shell unit's lookups: `indicator` as a meta variable picking the
/// current shell's indicator, and each per-shell indicator as a value
/// variable.
pub struct ShellResolver<'a> {
    pub config: &'a ShellConfig,
    pub shell: Shell,
}

impl<'a> Resolver for ShellResolver<'a> {
    open spec fn meta_spec(&self, name: Seq<char>) -> Option<Seq<char>> {
        if name == "indicator"@ {
            Some(indicator_of(*self.config, self.shell))
        } else {
            None
        }
    }

    open spec fn style_spec(&self, name: Seq<char>) -> Option<Result<Style, Seq<char>>> {
        None
    }

    open spec fn value_spec(&self, name: Seq<char>) -> Option<Result<Seq<char>, Seq<char>>> {
        if name == "bash_indicator"@ {
            Some(Ok(self.config.bash_indicator@))
        } else if name == "fish_indicator"@ {
            Some(Ok(self.config.fish_indicator@))
        } else if name == "zsh_indicator"@ {
            Some(Ok(self.config.zsh_indicator@))
        } else if name == "powershell_indicator"@ {
            Some(Ok(self.config.powershell_indicator@))
        } else if name == "ion_indicator"@ {
            Some(Ok(self.config.ion_indicator@))
        } else if name == "elvish_indicator"@ {
            Some(Ok(self.config.elvish_indicator@))
        } else if name == "tcsh_indicator"@ {
            Some(Ok(self.config.tcsh_indicator@))
        } else if name == "unknown_indicator"@ {
            Some(Ok(self.config.unknown_indicator@))
        } else {
            None
        }
    }

    fn lookup_meta(&self, name: &str) -> (r: Option<String>) {
        if str_eq(name, "indicator") {
            let ind = match self.shell {
                Shell::Bash => &self.config.bash_indicator,
                Shell::Fish => &self.config.fish_indicator,
                Shell::Zsh => &self.config.zsh_indicator,
                Shell::PowerShell => &self.config.powershell_indicator,
                Shell::Ion => &self.config.ion_indicator,
                Shell::Elvish => &self.config.elvish_indicator,
                Shell::Tcsh => &self.config.tcsh_indicator,
                Shell::Unknown => &self.config.unknown_indicator,
            };
            Some(ind.clone())
        } else {
            None
        }
    }

    fn lookup_style(&self, name: &str) -> (r: Option<Result<Style, String>>) {
        None
    }

    fn lookup_value(&self, name: &str) -> (r: Option<Result<String, String>>) {
        if str_eq(name, "bash_indicator") {
            Some(Ok(self.config.bash_indicator.clone()))
        } else if str_eq(name, "fish_indicator") {
            Some(Ok(self.config.fish_indicator.clone()))
        } else if str_eq(name, "zsh_indicator") {
            Some(Ok(self.config.zsh_indicator.clone()))
        } else if str_eq(name, "powershell_indicator") {
            Some(Ok(self.config.powershell_indicator.clone()))
        } else if str_eq(name, "ion_indicator") {
            Some(Ok(self.config.ion_indicator.clone()))
        } else if str_eq(name, "elvish_indicator") {
            Some(Ok(self.config.elvish_indicator.clone()))
        } else if str_eq(name, "tcsh_indicator") {
            Some(Ok(self.config.tcsh_indicator.clone()))
        } else if str_eq(name, "unknown_indicator") {
            Some(Ok(self.config.unknown_indicator.clone()))
        } else {
            None
        }
    }
}

/// What the unit contributes: `None` when disabled or when its format fails
/// to parse or render, otherwise the rendered segments.
pub open spec fn spec_shell_module(config: &ShellConfig, shell: Shell) -> Option<
    Seq<crate::render::SegmentModel>,
> {
    if config.disabled {
        None
    } else {
        match spec_parse(config.format@) {
            Err(_) => None,
            Ok(ns) => match spec_render(ns, ShellResolver { config, shell }) {
                Err(_) => None,
                Ok(segs) => Some(segs),
            },
        }
    }
}

/// Builds the shell unit's contribution for the given shell: the configured
/// format rendered with the per-shell indicator, `None` when the unit is
/// disabled or its format string is malformed or fails to resolve.
pub fn module(config: &ShellConfig, shell: Shell) -> (r: Option<Module>)
    ensures
        match r {
            Some(m) => spec_shell_module(config, shell) == Some(segs_model(m.segments@)),
            None => spec_shell_module(config, shell) is None,
        },
{
    if config.disabled {
        return None;
    }
    match Template::parse(config.format.as_str()) {
        Err(_) => None,
        Ok(t) => {
            let resolver = ShellResolver { config, shell };
            match render(&t, &resolver) {
                Ok(segs) => Some(Module { segments: segs }),
                Err(_) => None,
            }
        },
    }
}

} // verus!
