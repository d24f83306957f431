//! The Lua unit: shows the installed Lua or LuaJIT interpreter's version in
//! directories that hold a Lua project.

use vstd::prelude::*;
use crate::render::{Resolver, Module, render, spec_render, segs_model, SegmentModel};
use crate::scan::{ScanCriteria, ScanCriteriaModel, DirEntry, spec_matches, listing_model};
use crate::style::{Style, spec_style_of, parse_style};
use crate::template::{Template, spec_parse};
use crate::text::str_eq;

verus! {

/// Configuration of the Lua unit.
#[derive(Debug, PartialEq, Eq)]
pub struct LuaConfig {
    pub format: String,
    pub symbol: String,
    pub style: String,
    pub lua_binary: String,
    pub disabled: bool,
}

impl Default for LuaConfig {
    /// The stock configuration.
    fn default() -> (r: LuaConfig)
        ensures
            r.format@ == "via [$symbol(v$version )]($style)"@,
            r.symbol@ == "\u{1f319} "@,
            r.style@ == "bold blue"@,
            r.lua_binary@ == "lua"@,
            r.disabled == false,
    {
        LuaConfig {
            format: String::from_str("via [$symbol(v$version )]($style)"),
            symbol: String::from_str("\u{1f319} "),
            style: String::from_str("bold blue"),
            lua_binary: String::from_str("lua"),
            disabled: false,
        }
    }
}

/// The directory criteria under which the unit activates: a `.lua-version`
/// file, a `lua` folder, or any file with the `lua` extension.
pub open spec fn lua_criteria() -> ScanCriteriaModel {
    ScanCriteriaModel { files: seq![".lua-version"@], folders: seq!["lua"@], extensions: seq![
        "lua"@,
    ] }
}

/// What an interpreter run printed on its two output streams.
#[derive(Debug, PartialEq, Eq)]
pub struct CommandOutput {
    pub stdout: String,
    pub stderr: String,
}

/// The stream a version is read from: the interpreter's standard output,
/// unless that is empty (LuaJIT reports on standard error).
pub fn select_version_output(output: &CommandOutput) -> (r: &String)
    ensures
        r@ == spec_version_output(output),
{
    if output.stdout.as_str().is_empty() {
        &output.stderr
    } else {
        &output.stdout
    }
}

/// The text `select_version_output` picks.
pub open spec fn spec_version_output(output: &CommandOutput) -> Seq<char> {
    if output.stdout@.len() == 0 {
        output.stderr@
    } else {
        output.stdout@
    }
}

/// The `version` capture of the first match of the version pattern in a
/// report line, a function of the text alone.
pub uninterp spec fn lua_version_capture(s: Seq<char>) -> Option<Seq<char>>;

/// The version in the interpreter's report line ("Lua 5.4.0  Copyright ..."
/// reports "5.4.0", "LuaJIT 2.1.0-beta3 -- ..." reports "2.1.0-beta3").
///
/// Relies on `regex::Regex::new` and `regex::Regex::captures` with the
/// fixed pattern `(?P<version>[\d\.]+[a-z\-]*[1-9]*)[^\s]*`: the `version`
/// capture of the leftmost match depends on the text alone.
#[verifier::external_body]
pub fn format_lua_version(lua_stdout: &str) -> (r: Option<String>)
    ensures
        match r {
            Some(v) => lua_version_capture(lua_stdout@) == Some(v@),
            None => lua_version_capture(lua_stdout@) is None,
        },
{
    let re = regex::Regex::new("(?P<version>[\\d\\.]+[a-z\\-]*[1-9]*)[^\\s]*").ok()?;
    let captures = re.captures(lua_stdout)?;
    captures.name("version").map(|m| m.as_str().to_string())
}

/// The Lua unit's lookups: `symbol` as a meta variable, `style` as a style
/// variable, and `version` read from the interpreter's report when the
/// interpreter ran and its report holds a version.
pub struct LuaResolver<'a> {
    pub config: &'a LuaConfig,
    pub command: &'a Option<CommandOutput>,
}

impl<'a> Resolver for LuaResolver<'a> {
    open spec fn meta_spec(&self, name: Seq<char>) -> Option<Seq<char>> {
        if name == "symbol"@ {
            Some(self.config.symbol@)
        } else {
            None
        }
    }

    open spec fn style_spec(&self, name: Seq<char>) -> Option<Result<Style, Seq<char>>> {
        if name == "style"@ {
            Some(Ok(spec_style_of(self.config.style@)))
        } else {
            None
        }
    }

    open spec fn value_spec(&self, name: Seq<char>) -> Option<Result<Seq<char>, Seq<char>>> {
        if name == "version"@ {
            match *self.command {
                None => None,
                Some(out) => match lua_version_capture(spec_version_output(&out)) {
                    None => None,
                    Some(v) => Some(Ok(v)),
                },
            }
        } else {
            None
        }
    }

    fn lookup_meta(&self, name: &str) -> (r: Option<String>) {
        if str_eq(name, "symbol") {
            Some(self.config.symbol.clone())
        } else {
            None
        }
    }

    fn lookup_style(&self, name: &str) -> (r: Option<Result<Style, String>>) {
        if str_eq(name, "style") {
            Some(Ok(parse_style(self.config.style.as_str())))
        } else {
            None
        }
    }

    fn lookup_value(&self, name: &str) -> (r: Option<Result<String, String>>) {
        if str_eq(name, "version") {
            match self.command {
                None => None,
                Some(out) => {
                    let text = select_version_output(out);
                    match format_lua_version(text.as_str()) {
                        None => None,
                        Some(v) => Some(Ok(v)),
                    }
                },
            }
        } else {
            None
        }
    }
}

/// What the unit contributes once its directory matched: `None` when the
/// format fails to parse or render, otherwise the rendered segments.
pub open spec fn spec_lua_module(config: &LuaConfig, command: &Option<CommandOutput>) -> Option<
    Seq<SegmentModel>,
> {
    match spec_parse(config.format@) {
        Err(_) => None,
        Ok(ns) => match spec_render(ns, LuaResolver { config, command }) {
            Err(_) => None,
            Ok(segs) => Some(segs),
        },
    }
}

/// Builds the Lua unit's contribution.
///
/// `listing` holds the current directory's entries, `None` when the
/// directory could not be read; the unit activates only when the listing
/// matches `lua_criteria`. `command` is what running the configured
/// interpreter with `-v` printed, `None` when it could not be run.
pub fn module(
    config: &LuaConfig,
    listing: Option<&Vec<DirEntry>>,
    command: &Option<CommandOutput>,
) -> (r: Option<Module>)
    ensures
        ({
            let is_project = match listing {
                Some(l) => spec_matches(lua_criteria(), listing_model(l@)),
                None => false,
            };
            match r {
                Some(m) => is_project && spec_lua_module(config, command) == Some(
                    segs_model(m.segments@),
                ),
                None => !is_project || spec_lua_module(config, command) is None,
            }
        }),
{
    let is_project = match listing {
        Some(l) => {
            let mut files: Vec<String> = Vec::new();
            files.push(String::from_str(".lua-version"));
            let mut folders: Vec<String> = Vec::new();
            folders.push(String::from_str("lua"));
            let mut extensions: Vec<String> = Vec::new();
            extensions.push(String::from_str("lua"));
            let criteria = ScanCriteria::new().set_files(files).set_folders(folders).set_extensions(
                extensions,
            );
            proof {
                assert(criteria@.files =~= lua_criteria().files);
                assert(criteria@.folders =~= lua_criteria().folders);
                assert(criteria@.extensions =~= lua_criteria().extensions);
            }
            criteria.is_match(l)
        },
        None => false,
    };
    if !is_project {
        return None;
    }
    match Template::parse(config.format.as_str()) {
        Err(_) => None,
        Ok(t) => {
            let resolver = LuaResolver { config, command };
            match render(&t, &resolver) {
                Ok(segs) => Some(Module { segments: segs }),
                Err(_) => None,
            }
        },
    }
}

} // verus!
