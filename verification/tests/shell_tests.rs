use prompt_core::render::Module;
use prompt_core::shell::{Shell, ShellConfig, ShellResolver};
use prompt_core::shell::module;
use prompt_core::style::{Color, Style};
use prompt_core::template::Template;

fn ansi_color(c: Color) -> ansi_term::Color {
    match c {
        Color::Black => ansi_term::Color::Black,
        Color::Red => ansi_term::Color::Red,
        Color::Green => ansi_term::Color::Green,
        Color::Yellow => ansi_term::Color::Yellow,
        Color::Blue => ansi_term::Color::Blue,
        Color::Purple => ansi_term::Color::Purple,
        Color::Cyan => ansi_term::Color::Cyan,
        Color::White => ansi_term::Color::White,
        Color::Rgb(r, g, b) => ansi_term::Color::RGB(r, g, b),
    }
}

fn ansi_style(st: &Style) -> ansi_term::Style {
    let mut s = ansi_term::Style::new();
    if st.bold {
        s = s.bold();
    }
    if st.italic {
        s = s.italic();
    }
    if st.underline {
        s = s.underline();
    }
    if st.dimmed {
        s = s.dimmed();
    }
    if st.inverted {
        s = s.reverse();
    }
    if st.blink {
        s = s.blink();
    }
    if st.hidden {
        s = s.hidden();
    }
    if st.strikethrough {
        s = s.strikethrough();
    }
    if let Some(c) = st.fg {
        s = s.fg(ansi_color(c));
    }
    if let Some(c) = st.bg {
        s = s.on(ansi_color(c));
    }
    s
}

fn collect(m: Option<Module>) -> Option<String> {
    let m = m?;
    if m.segments.iter().all(|s| s.text.trim().is_empty()) {
        return None;
    }
    let mut out = String::new();
    for seg in &m.segments {
        if seg.style == Style::plain() {
            out.push_str(&seg.text);
        } else {
            out.push_str(&ansi_style(&seg.style).paint(seg.text.as_str()).to_string());
        }
    }
    Some(out)
}

fn enabled_config() -> ShellConfig {
    let mut cfg = ShellConfig::default();
    cfg.disabled = false;
    cfg
}

#[test]
fn test_none_if_disabled() {
    let expected = None;
    let actual = collect(module(&ShellConfig::default(), Shell::Bash));

    assert_eq!(expected, actual);
}

#[test]
fn test_none_if_unknown_shell() {
    let expected = None;
    let actual = collect(module(&ShellConfig::default(), Shell::Unknown));

    assert_eq!(expected, actual);
}

#[test]
fn test_bash_default_format() {
    let expected = Some(format!("{} ", "bsh"));
    let actual = collect(module(&enabled_config(), Shell::Bash));

    assert_eq!(expected, actual);
}

#[test]
fn test_bash_custom_format() {
    let expected = Some(format!("{} ", ansi_term::Color::Cyan.bold().paint("bash")));
    let mut cfg = enabled_config();
    cfg.bash_indicator = String::from("[bash](bold cyan)");
    let actual = collect(module(&cfg, Shell::Bash));

    assert_eq!(expected, actual);
}

#[test]
fn test_fish_default_format() {
    let expected = Some(format!("{} ", "fsh"));
    let actual = collect(module(&enabled_config(), Shell::Fish));

    assert_eq!(expected, actual);
}

#[test]
fn test_fish_custom_format() {
    let expected = Some(format!("{} ", ansi_term::Color::Cyan.bold().paint("fish")));
    let mut cfg = enabled_config();
    cfg.fish_indicator = String::from("[fish](cyan bold)");
    let actual = collect(module(&cfg, Shell::Fish));

    assert_eq!(expected, actual);
}

#[test]
fn test_zsh_default_format() {
    let expected = Some(format!("{} ", "zsh"));
    let actual = collect(module(&enabled_config(), Shell::Zsh));

    assert_eq!(expected, actual);
}

#[test]
fn test_zsh_custom_format() {
    let expected = Some(format!("{} ", ansi_term::Color::Cyan.bold().paint("zsh")));
    let mut cfg = enabled_config();
    cfg.bash_indicator = String::from("[zsh](bold cyan)");
    let actual = collect(module(&cfg, Shell::Bash));

    assert_eq!(expected, actual);
}

#[test]
fn test_powershell_default_format() {
    let expected = Some(format!("{} ", "psh"));
    let actual = collect(module(&enabled_config(), Shell::PowerShell));

    assert_eq!(expected, actual);
}

#[test]
fn test_powershell_custom_format() {
    let expected = Some(format!("{} ", ansi_term::Color::Cyan.bold().paint("powershell")));
    let mut cfg = enabled_config();
    cfg.powershell_indicator = String::from("[powershell](bold cyan)");
    let actual = collect(module(&cfg, Shell::PowerShell));

    assert_eq!(expected, actual);
}

#[test]
fn test_ion_default_format() {
    let expected = Some(format!("{} ", "ion"));
    let actual = collect(module(&enabled_config(), Shell::Ion));

    assert_eq!(expected, actual);
}

#[test]
fn test_ion_custom_format() {
    let expected = Some(format!("{} ", ansi_term::Color::Cyan.bold().paint("ion")));
    let mut cfg = enabled_config();
    cfg.ion_indicator = String::from("[ion](bold cyan)");
    let actual = collect(module(&cfg, Shell::Ion));

    assert_eq!(expected, actual);
}

#[test]
fn test_elvish_default_format() {
    let expected = Some(format!("{} ", "esh"));
    let actual = collect(module(&enabled_config(), Shell::Elvish));

    assert_eq!(expected, actual);
}

#[test]
fn test_elvish_custom_format() {
    let expected = Some(format!("{} ", ansi_term::Color::Cyan.bold().paint("elvish")));
    let mut cfg = enabled_config();
    cfg.elvish_indicator = String::from("[elvish](bold cyan)");
    let actual = collect(module(&cfg, Shell::Elvish));

    assert_eq!(expected, actual);
}

#[test]
fn test_custom_format_conditional_indicator_match() {
    let expected = Some(format!("{} ", "B"));
    let mut cfg = enabled_config();
    cfg.bash_indicator = String::from("B");
    cfg.format = String::from("($bash_indicator )");
    let actual = collect(module(&cfg, Shell::Bash));

    assert_eq!(expected, actual);
}

#[test]
fn shell_meta_that_fails_to_parse_is_a_resolver_failure() {
    let mut cfg = enabled_config();
    cfg.bash_indicator = String::from("(");
    let template = Template::parse("$indicator").unwrap();
    let resolver = ShellResolver { config: &cfg, shell: Shell::Bash };
    let err = prompt_core::render::render(&template, &resolver).unwrap_err();
    assert_eq!(
        err,
        prompt_core::render::ResolutionError::ResolverFailed(
            String::from("indicator"),
            String::from("meta value failed to parse"),
        )
    );
}
