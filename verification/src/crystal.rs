//! The Crystal unit: shows the installed Crystal compiler's version in
//! directories that hold a Crystal project.

use vstd::prelude::*;
use crate::render::{Resolver, Module, render, spec_render, segs_model, SegmentModel};
use crate::scan::{ScanCriteria, ScanCriteriaModel, DirEntry, spec_matches, listing_model};
use crate::style::{Style, spec_style_of, parse_style};
use crate::template::{Template, spec_parse};
use crate::text::{
    str_eq,
    str_to_chars,
    chars_to_string,
    skip_spaces,
    word_end,
    skip_spaces_exec,
    word_end_exec,
};
use crate::template::copy_range;

verus! {

/// Configuration of the Crystal unit.
#[derive(Debug, PartialEq, Eq)]
pub struct CrystalConfig {
    pub format: String,
    pub symbol: String,
    pub style: String,
    pub disabled: bool,
}

impl Default for CrystalConfig {
    /// The stock configuration.
    fn default() -> (r: CrystalConfig)
        ensures
            r.format@ == "via [$symbol(v$version )]($style)"@,
            r.symbol@ == "\u{1f52e} "@,
            r.style@ == "bold red"@,
            r.disabled == false,
    {
        CrystalConfig {
            format: String::from_str("via [$symbol(v$version )]($style)"),
            symbol: String::from_str("\u{1f52e} "),
            style: String::from_str("bold red"),
            disabled: false,
        }
    }
}

/// The directory criteria under which the unit activates: a `shard.yml`
/// file, or any file with the `cr` extension.
pub open spec fn crystal_criteria() -> ScanCriteriaModel {
    ScanCriteriaModel {
        files: seq!["shard.yml"@],
        folders: Seq::empty(),
        extensions: seq!["cr"@],
    }
}

/// The second whitespace-separated word of `s`, if it has one.
pub open spec fn spec_second_word(s: Seq<char>) -> Option<Seq<char>> {
    let a = skip_spaces(s, 0);
    let b = word_end(s, a);
    let c = skip_spaces(s, b);
    let d = word_end(s, c);
    if c >= s.len() {
        None
    } else {
        Some(s.subrange(c, d))
    }
}

/// The version in the compiler's report: its second whitespace-separated
/// word ("Crystal 0.35.1 ..." reports "0.35.1").
pub fn format_crystal_version(crystal_version: &str) -> (r: Option<String>)
    ensures
        match r {
            Some(v) => spec_second_word(crystal_version@) == Some(v@),
            None => spec_second_word(crystal_version@) is None,
        },
{
    let cs = str_to_chars(crystal_version);
    let a = skip_spaces_exec(&cs, 0);
    let b = word_end_exec(&cs, a);
    let c = skip_spaces_exec(&cs, b);
    let d = word_end_exec(&cs, c);
    if c >= cs.len() {
        None
    } else {
        let w = copy_range(&cs, c, d);
        Some(chars_to_string(&w))
    }
}

/// The Crystal unit's lookups: `symbol` as a meta variable, `style` as a
/// style variable, and `version` resolved from the compiler's report when
/// one was captured and holds a version.
pub struct CrystalResolver<'a> {
    pub config: &'a CrystalConfig,
    pub version_stdout: &'a Option<String>,
}

impl<'a> Resolver for CrystalResolver<'a> {
    open spec fn meta_spec(&self, name: Seq<char>) -> Option<Seq<char>> {
        if name == "symbol"@ {
            Some(self.config.symbol@)
        } else {
            None
        }
    }

    open spec fn style_spec(&self, name: Seq<char>) -> Option<Result<Style, Seq<char>>> {
        if name == "style"@ {
            Some(Ok(spec_style_of(self.config.style@)))
        } else {
            None
        }
    }

    open spec fn value_spec(&self, name: Seq<char>) -> Option<Result<Seq<char>, Seq<char>>> {
        if name == "version"@ {
            match *self.version_stdout {
                None => None,
                Some(out) => match spec_second_word(out@) {
                    None => None,
                    Some(v) => Some(Ok(v)),
                },
            }
        } else {
            None
        }
    }

    fn lookup_meta(&self, name: &str) -> (r: Option<String>) {
        if str_eq(name, "symbol") {
            Some(self.config.symbol.clone())
        } else {
            None
        }
    }

    fn lookup_style(&self, name: &str) -> (r: Option<Result<Style, String>>) {
        if str_eq(name, "style") {
            Some(Ok(parse_style(self.config.style.as_str())))
        } else {
            None
        }
    }

    fn lookup_value(&self, name: &str) -> (r: Option<Result<String, String>>) {
        if str_eq(name, "version") {
            match self.version_stdout {
                None => None,
                Some(out) => match format_crystal_version(out.as_str()) {
                    None => None,
                    Some(v) => Some(Ok(v)),
                },
            }
        } else {
            None
        }
    }
}

/// What the unit contributes once its directory matched: `None` when the
/// format fails to parse or render, otherwise the rendered segments.
pub open spec fn spec_crystal_module(
    config: &CrystalConfig,
    version_stdout: &Option<String>,
) -> Option<Seq<SegmentModel>> {
    match spec_parse(config.format@) {
        Err(_) => None,
        Ok(ns) => match spec_render(ns, CrystalResolver { config, version_stdout }) {
            Err(_) => None,
            Ok(segs) => Some(segs),
        },
    }
}

/// Builds the Crystal unit's contribution.
///
/// `listing` holds the current directory's entries, `None` when the
/// directory could not be read; the unit activates only when the listing
/// matches `crystal_criteria`. `version_stdout` is what `crystal --version`
/// printed, `None` when the command could not be run.
pub fn module(
    config: &CrystalConfig,
    listing: Option<&Vec<DirEntry>>,
    version_stdout: &Option<String>,
) -> (r: Option<Module>)
    ensures
        ({
            let is_project = match listing {
                Some(l) => spec_matches(crystal_criteria(), listing_model(l@)),
                None => false,
            };
            match r {
                Some(m) => is_project && spec_crystal_module(config, version_stdout) == Some(
                    segs_model(m.segments@),
                ),
                None => !is_project || spec_crystal_module(config, version_stdout) is None,
            }
        }),
{
    let is_project = match listing {
        Some(l) => {
            let mut files: Vec<String> = Vec::new();
            files.push(String::from_str("shard.yml"));
            let mut extensions: Vec<String> = Vec::new();
            extensions.push(String::from_str("cr"));
            let criteria = ScanCriteria::new().set_files(files).set_extensions(extensions);
            proof {
                assert(criteria@.files =~= crystal_criteria().files);
                assert(criteria@.extensions =~= crystal_criteria().extensions);
            }
            criteria.is_match(l)
        },
        None => false,
    };
    if !is_project {
        return None;
    }
    match Template::parse(config.format.as_str()) {
        Err(_) => None,
        Ok(t) => {
            let resolver = CrystalResolver { config, version_stdout };
            match render(&t, &resolver) {
                Ok(segs) => Some(Module { segments: segs }),
                Err(_) => None,
            }
        },
    }
}

} // verus!
