use prompt_core::style::{parse_style, Color, Style};

#[test]
fn bold_red_sets_the_flag_and_the_foreground() {
    let mut expected = Style::plain();
    expected.bold = true;
    expected.fg = Some(Color::Red);
    assert_eq!(parse_style("bold red"), expected);
}

#[test]
fn none_clears_everything_accumulated_before_it() {
    let mut expected = Style::plain();
    expected.fg = Some(Color::Red);
    assert_eq!(parse_style("bold none red"), expected);
}

#[test]
fn trailing_none_clears_the_whole_descriptor() {
    assert_eq!(parse_style("bold red none"), Style::plain());
}

#[test]
fn background_colors_need_the_bg_prefix() {
    let mut expected = Style::plain();
    expected.fg = Some(Color::Cyan);
    expected.bg = Some(Color::Blue);
    assert_eq!(parse_style("cyan bg:blue"), expected);
}

#[test]
fn hex_colors_parse_to_rgb() {
    let mut expected = Style::plain();
    expected.fg = Some(Color::Rgb(0x1a, 0x2b, 0x3c));
    expected.bg = Some(Color::Rgb(0xff, 0x00, 0x7f));
    assert_eq!(parse_style("#1a2b3c bg:#FF007f"), expected);
}

#[test]
fn unknown_words_are_ignored() {
    let mut expected = Style::plain();
    expected.underline = true;
    assert_eq!(parse_style("underline sparkly"), expected);
}

#[test]
fn later_colors_override_earlier_ones() {
    let mut expected = Style::plain();
    expected.fg = Some(Color::Green);
    assert_eq!(parse_style("red green"), expected);
}

#[test]
fn every_attribute_keyword_sets_its_flag() {
    let st = parse_style("bold italic underline dimmed inverted blink hidden strikethrough");
    assert!(st.bold);
    assert!(st.italic);
    assert!(st.underline);
    assert!(st.dimmed);
    assert!(st.inverted);
    assert!(st.blink);
    assert!(st.hidden);
    assert!(st.strikethrough);
}

#[test]
fn empty_descriptor_is_the_plain_style() {
    assert_eq!(parse_style(""), Style::plain());
    assert_eq!(parse_style("   "), Style::plain());
}
