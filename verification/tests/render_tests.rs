use prompt_core::lua::{CommandOutput, LuaConfig, LuaResolver};
use prompt_core::render::{render, ResolutionError, Segment};
use prompt_core::style::{Color, Style};
use prompt_core::template::Template;

fn moon_config() -> LuaConfig {
    let mut cfg = LuaConfig::default();
    cfg.symbol = String::from("\u{1f319} ");
    cfg.style = String::from("bold blue");
    cfg
}

fn lua_report() -> Option<CommandOutput> {
    Some(CommandOutput {
        stdout: String::from("Lua 5.4.0  Copyright (C) 1994-2020 Lua.org, PUC-Rio"),
        stderr: String::new(),
    })
}

fn concat(segs: &[Segment]) -> String {
    let mut out = String::new();
    for s in segs {
        out.push_str(&s.text);
    }
    out
}

#[test]
fn group_with_absent_variable_is_silently_omitted() {
    let cfg = moon_config();
    let command = None;
    let resolver = LuaResolver { config: &cfg, command: &command };
    let template = Template::parse("$symbol($version )").unwrap();
    let segs = render(&template, &resolver).unwrap();
    assert_eq!(concat(&segs), "\u{1f319} ");
}

#[test]
fn group_with_present_variable_renders_with_its_style() {
    let cfg = moon_config();
    let command = lua_report();
    let resolver = LuaResolver { config: &cfg, command: &command };
    let template = Template::parse("$symbol[v$version ]($style)").unwrap();
    let segs = render(&template, &resolver).unwrap();
    assert_eq!(concat(&segs), "\u{1f319} v5.4.0 ");
    assert_eq!(segs[0].text, "\u{1f319} ");
    assert_eq!(segs[0].style, Style::plain());
    let mut styled = Style::plain();
    styled.bold = true;
    styled.fg = Some(Color::Blue);
    for seg in &segs[1..] {
        assert_eq!(seg.style, styled);
    }
}

#[test]
fn rest_of_template_is_unaffected_by_an_omitted_group() {
    let cfg = moon_config();
    let command = None;
    let resolver = LuaResolver { config: &cfg, command: &command };
    let template = Template::parse("a($version)b").unwrap();
    let segs = render(&template, &resolver).unwrap();
    assert_eq!(concat(&segs), "ab");
}

#[test]
fn fully_resolvable_template_substitutes_every_variable() {
    let cfg = moon_config();
    let command = lua_report();
    let resolver = LuaResolver { config: &cfg, command: &command };
    let template = Template::parse("via $symbol(v$version )done").unwrap();
    let segs = render(&template, &resolver).unwrap();
    assert_eq!(concat(&segs), "via \u{1f319} v5.4.0 done");
}

#[test]
fn unresolved_top_level_variable_is_a_hard_error() {
    let cfg = moon_config();
    let command = lua_report();
    let resolver = LuaResolver { config: &cfg, command: &command };
    let template = Template::parse("$symbol$nosuch tail").unwrap();
    let err = render(&template, &resolver).unwrap_err();
    assert_eq!(err, ResolutionError::UnknownVariable(String::from("nosuch")));
}

#[test]
fn absent_version_at_top_level_is_a_hard_error() {
    let cfg = moon_config();
    let command = None;
    let resolver = LuaResolver { config: &cfg, command: &command };
    let template = Template::parse("v$version").unwrap();
    let err = render(&template, &resolver).unwrap_err();
    assert_eq!(err, ResolutionError::UnknownVariable(String::from("version")));
}

#[test]
fn style_variable_in_style_position_styles_the_group() {
    let cfg = moon_config();
    let command = lua_report();
    let resolver = LuaResolver { config: &cfg, command: &command };
    let template = Template::parse("[x]($style)").unwrap();
    let segs = render(&template, &resolver).unwrap();
    let mut styled = Style::plain();
    styled.bold = true;
    styled.fg = Some(Color::Blue);
    assert_eq!(segs.len(), 1);
    assert_eq!(segs[0].text, "x");
    assert_eq!(segs[0].style, styled);
}

#[test]
fn group_with_unresolved_style_variable_is_omitted() {
    let cfg = moon_config();
    let command = lua_report();
    let resolver = LuaResolver { config: &cfg, command: &command };
    let template = Template::parse("a[x]($nostyle)b").unwrap();
    let segs = render(&template, &resolver).unwrap();
    assert_eq!(concat(&segs), "ab");
}

#[test]
fn inner_style_wins_and_outer_fills_the_gaps() {
    let cfg = moon_config();
    let command = lua_report();
    let resolver = LuaResolver { config: &cfg, command: &command };
    let template = Template::parse("[[x](red)](bold green)").unwrap();
    let segs = render(&template, &resolver).unwrap();
    let mut styled = Style::plain();
    styled.bold = true;
    styled.fg = Some(Color::Red);
    assert_eq!(segs.len(), 1);
    assert_eq!(segs[0].text, "x");
    assert_eq!(segs[0].style, styled);
}
