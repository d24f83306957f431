use prompt_core::crystal::{format_crystal_version, module, CrystalConfig};
use prompt_core::render::Module;
use prompt_core::scan::DirEntry;
use prompt_core::style::{Color, Style};

fn ansi_color(c: Color) -> ansi_term::Color {
    match c {
        Color::Black => ansi_term::Color::Black,
        Color::Red => ansi_term::Color::Red,
        Color::Green => ansi_term::Color::Green,
        Color::Yellow => ansi_term::Color::Yellow,
        Color::Blue => ansi_term::Color::Blue,
        Color::Purple => ansi_term::Color::Purple,
        Color::Cyan => ansi_term::Color::Cyan,
        Color::White => ansi_term::Color::White,
        Color::Rgb(r, g, b) => ansi_term::Color::RGB(r, g, b),
    }
}

fn ansi_style(st: &Style) -> ansi_term::Style {
    let mut s = ansi_term::Style::new();
    if st.bold {
        s = s.bold();
    }
    if st.italic {
        s = s.italic();
    }
    if st.underline {
        s = s.underline();
    }
    if st.dimmed {
        s = s.dimmed();
    }
    if st.inverted {
        s = s.reverse();
    }
    if st.blink {
        s = s.blink();
    }
    if st.hidden {
        s = s.hidden();
    }
    if st.strikethrough {
        s = s.strikethrough();
    }
    if let Some(c) = st.fg {
        s = s.fg(ansi_color(c));
    }
    if let Some(c) = st.bg {
        s = s.on(ansi_color(c));
    }
    s
}

fn collect(m: Option<Module>) -> Option<String> {
    let m = m?;
    if m.segments.iter().all(|s| s.text.trim().is_empty()) {
        return None;
    }
    let strings: Vec<ansi_term::ANSIString> = m
        .segments
        .iter()
        .map(|s| ansi_style(&s.style).paint(s.text.as_str()))
        .collect();
    Some(ansi_term::ANSIStrings(&strings).to_string())
}

fn file(name: &str) -> DirEntry {
    DirEntry { name: String::from(name), is_dir: false }
}

fn crystal_report() -> Option<String> {
    Some(String::from(
        "Crystal 0.35.1 (2020-06-19)\n\nLLVM: 10.0.0\nDefault target: x86_64-apple-macosx\n",
    ))
}

#[test]
fn crystal_version_is_the_second_word_of_the_report() {
    assert_eq!(
        format_crystal_version("Crystal 0.35.1 (2020-06-19)"),
        Some("0.35.1".to_string())
    );
    assert_eq!(format_crystal_version("Crystal"), None);
    assert_eq!(format_crystal_version(""), None);
    assert_eq!(
        format_crystal_version("  Crystal   0.36.0  "),
        Some("0.36.0".to_string())
    );
}

#[test]
fn folder_without_crystal_files() {
    let listing: Vec<DirEntry> = Vec::new();
    let actual = collect(module(&CrystalConfig::default(), Some(&listing), &crystal_report()));
    let expected = None;
    assert_eq!(expected, actual);
}

#[test]
fn folder_with_shard_file() {
    let listing = vec![file("shard.yml")];
    let actual = collect(module(&CrystalConfig::default(), Some(&listing), &crystal_report()));
    let expected = Some(format!(
        "via {}",
        ansi_term::Color::Red.bold().paint("\u{1f52e} v0.35.1 ")
    ));
    assert_eq!(expected, actual);
}

#[test]
fn folder_with_cr_file() {
    let listing = vec![file("main.cr")];
    let actual = collect(module(&CrystalConfig::default(), Some(&listing), &crystal_report()));
    let expected = Some(format!(
        "via {}",
        ansi_term::Color::Red.bold().paint("\u{1f52e} v0.35.1 ")
    ));
    assert_eq!(expected, actual);
}

#[test]
fn crystal_module_is_none_for_an_unreadable_directory() {
    let cfg = CrystalConfig::default();
    assert!(module(&cfg, None, &crystal_report()).is_none());
}

#[test]
fn crystal_module_omits_the_version_group_without_a_report() {
    let listing = vec![file("main.cr")];
    let cfg = CrystalConfig::default();
    let m = module(&cfg, Some(&listing), &None).unwrap();
    let mut text = String::new();
    for s in &m.segments {
        text.push_str(&s.text);
    }
    assert_eq!(text, "via \u{1f52e} ");
}
