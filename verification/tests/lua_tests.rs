use prompt_core::lua::{format_lua_version, module, CommandOutput, LuaConfig};
use prompt_core::render::Module;
use prompt_core::scan::DirEntry;
use prompt_core::style::{Color, Style};

fn ansi_color(c: Color) -> ansi_term::Color {
    match c {
        Color::Black => ansi_term::Color::Black,
        Color::Red => ansi_term::Color::Red,
        Color::Green => ansi_term::Color::Green,
        Color::Yellow => ansi_term::Color::Yellow,
        Color::Blue => ansi_term::Color::Blue,
        Color::Purple => ansi_term::Color::Purple,
        Color::Cyan => ansi_term::Color::Cyan,
        Color::White => ansi_term::Color::White,
        Color::Rgb(r, g, b) => ansi_term::Color::RGB(r, g, b),
    }
}

fn ansi_style(st: &Style) -> ansi_term::Style {
    let mut s = ansi_term::Style::new();
    if st.bold {
        s = s.bold();
    }
    if st.italic {
        s = s.italic();
    }
    if st.underline {
        s = s.underline();
    }
    if st.dimmed {
        s = s.dimmed();
    }
    if st.inverted {
        s = s.reverse();
    }
    if st.blink {
        s = s.blink();
    }
    if st.hidden {
        s = s.hidden();
    }
    if st.strikethrough {
        s = s.strikethrough();
    }
    if let Some(c) = st.fg {
        s = s.fg(ansi_color(c));
    }
    if let Some(c) = st.bg {
        s = s.on(ansi_color(c));
    }
    s
}

fn collect(m: Option<Module>) -> Option<String> {
    let m = m?;
    if m.segments.iter().all(|s| s.text.trim().is_empty()) {
        return None;
    }
    let strings: Vec<ansi_term::ANSIString> = m
        .segments
        .iter()
        .map(|s| ansi_style(&s.style).paint(s.text.as_str()))
        .collect();
    Some(ansi_term::ANSIStrings(&strings).to_string())
}

fn file(name: &str) -> DirEntry {
    DirEntry { name: String::from(name), is_dir: false }
}

fn folder(name: &str) -> DirEntry {
    DirEntry { name: String::from(name), is_dir: true }
}

fn lua_report() -> Option<CommandOutput> {
    Some(CommandOutput {
        stdout: String::from("Lua 5.4.0  Copyright (C) 1994-2020 Lua.org, PUC-Rio\n"),
        stderr: String::new(),
    })
}

fn luajit_report() -> Option<CommandOutput> {
    Some(CommandOutput {
        stdout: String::from(
            "LuaJIT 2.0.5 -- Copyright (C) 2005-2017 Mike Pall. http://luajit.org/\n",
        ),
        stderr: String::new(),
    })
}

fn moon_painted() -> Option<String> {
    Some(format!(
        "via {}",
        ansi_term::Color::Blue.bold().paint("\u{1f319} v5.4.0 ")
    ))
}

#[test]
fn test_format_lua_version() {
    let lua_input = "Lua 5.4.0  Copyright (C) 1994-2020 Lua.org, PUC-Rio";
    assert_eq!(format_lua_version(lua_input), Some("5.4.0".to_string()));

    let luajit_input =
        "LuaJIT 2.1.0-beta3 -- Copyright (C) 2005-2017 Mike Pall. http://luajit.org/";
    assert_eq!(
        format_lua_version(luajit_input),
        Some("2.1.0-beta3".to_string())
    );
}

#[test]
fn no_version_in_the_report_means_no_capture() {
    assert_eq!(format_lua_version("no digits here"), None);
}

#[test]
fn folder_without_lua_files() {
    let listing: Vec<DirEntry> = Vec::new();
    let actual = collect(module(&LuaConfig::default(), Some(&listing), &lua_report()));
    let expected = None;
    assert_eq!(expected, actual);
}

#[test]
fn folder_with_lua_file() {
    let listing = vec![file("main.lua")];
    let actual = collect(module(&LuaConfig::default(), Some(&listing), &lua_report()));
    assert_eq!(moon_painted(), actual);
}

#[test]
fn folder_with_lua_version() {
    let listing = vec![file(".lua-version")];
    let actual = collect(module(&LuaConfig::default(), Some(&listing), &lua_report()));
    assert_eq!(moon_painted(), actual);
}

#[test]
fn folder_with_lua_folder() {
    let listing = vec![folder("lua")];
    let actual = collect(module(&LuaConfig::default(), Some(&listing), &lua_report()));
    assert_eq!(moon_painted(), actual);
}

#[test]
fn lua_binary_is_luajit() {
    let listing = vec![file("main.lua")];
    let mut cfg = LuaConfig::default();
    cfg.lua_binary = String::from("luajit");
    let actual = collect(module(&cfg, Some(&listing), &luajit_report()));
    let expected = Some(format!(
        "via {}",
        ansi_term::Color::Blue.bold().paint("\u{1f319} v2.0.5 ")
    ));
    assert_eq!(expected, actual);
}

#[test]
fn lua_module_is_none_for_an_unreadable_directory() {
    let cfg = LuaConfig::default();
    assert!(module(&cfg, None, &lua_report()).is_none());
}

#[test]
fn lua_module_omits_the_version_group_without_a_report() {
    let listing = vec![file(".lua-version")];
    let cfg = LuaConfig::default();
    let m = module(&cfg, Some(&listing), &None).unwrap();
    let mut text = String::new();
    for s in &m.segments {
        text.push_str(&s.text);
    }
    assert_eq!(text, "via \u{1f319} ");
}

#[test]
fn luajit_reports_its_version_on_standard_error() {
    let listing = vec![file("main.lua")];
    let cfg = LuaConfig::default();
    let command = Some(CommandOutput {
        stdout: String::new(),
        stderr: String::from(
            "LuaJIT 2.0.5 -- Copyright (C) 2005-2017 Mike Pall. http://luajit.org/",
        ),
    });
    let m = module(&cfg, Some(&listing), &command).unwrap();
    let mut text = String::new();
    for s in &m.segments {
        text.push_str(&s.text);
    }
    assert_eq!(text, "via \u{1f319} v2.0.5 ");
}
