//! Style descriptors: parsing "bold red" into an attribute set, and
//! composing a group's style with an ambient one.

use vstd::prelude::*;
use crate::text::{is_space, char_is_space, word_end, str_to_chars, lemma_word_end_bounds};

verus! {

/// A terminal color: one of the eight base colors, or a 24-bit value.
#[derive(Clone, Copy, Debug, PartialEq, Eq, Structural)]
pub enum Color {
    Black,
    Red,
    Green,
    Yellow,
    Blue,
    Purple,
    Cyan,
    White,
    Rgb(u8, u8, u8),
}

/// An ordered attribute set: optional foreground and background colors and
/// the boolean text attributes.
#[derive(Clone, Copy, Debug, PartialEq, Eq)]
pub struct Style {
    pub fg: Option<Color>,
    pub bg: Option<Color>,
    pub bold: bool,
    pub italic: bool,
    pub underline: bool,
    pub dimmed: bool,
    pub inverted: bool,
    pub blink: bool,
    pub hidden: bool,
    pub strikethrough: bool,
}

/// The style with no attributes set: plain text.
pub open spec fn empty_style() -> Style {
    Style {
        fg: None,
        bg: None,
        bold: false,
        italic: false,
        underline: false,
        dimmed: false,
        inverted: false,
        blink: false,
        hidden: false,
        strikethrough: false,
    }
}

impl Style {
    /// The plain style, with no attributes set.
    pub fn plain() -> (r: Style)
        ensures
            r == empty_style(),
    {
        Style {
            fg: None,
            bg: None,
            bold: false,
            italic: false,
            underline: false,
            dimmed: false,
            inverted: false,
            blink: false,
            hidden: false,
            strikethrough: false,
        }
    }
}

impl Default for Style {
    fn default() -> (r: Style)
        ensures
            r == empty_style(),
    {
        Style::plain()
    }
}

/// Overlay of an inner style onto an outer one: the inner wins on every
/// attribute it sets, the outer fills the gaps.
pub open spec fn spec_compose(inner: Style, outer: Style) -> Style {
    Style {
        fg: if inner.fg is Some { inner.fg } else { outer.fg },
        bg: if inner.bg is Some { inner.bg } else { outer.bg },
        bold: inner.bold || outer.bold,
        italic: inner.italic || outer.italic,
        underline: inner.underline || outer.underline,
        dimmed: inner.dimmed || outer.dimmed,
        inverted: inner.inverted || outer.inverted,
        blink: inner.blink || outer.blink,
        hidden: inner.hidden || outer.hidden,
        strikethrough: inner.strikethrough || outer.strikethrough,
    }
}

/// Executable overlay matching `spec_compose`.
pub fn compose(inner: &Style, outer: &Style) -> (r: Style)
    ensures
        r == spec_compose(*inner, *outer),
{
    Style {
        fg: if inner.fg.is_some() { inner.fg } else { outer.fg },
        bg: if inner.bg.is_some() { inner.bg } else { outer.bg },
        bold: inner.bold || outer.bold,
        italic: inner.italic || outer.italic,
        underline: inner.underline || outer.underline,
        dimmed: inner.dimmed || outer.dimmed,
        inverted: inner.inverted || outer.inverted,
        blink: inner.blink || outer.blink,
        hidden: inner.hidden || outer.hidden,
        strikethrough: inner.strikethrough || outer.strikethrough,
    }
}

/// Whether `c` is a hexadecimal digit.
pub open spec fn is_hex_digit(c: char) -> bool {
    ('0' as u32 <= c as u32 && c as u32 <= '9' as u32) || ('a' as u32 <= c as u32 && c as u32
        <= 'f' as u32) || ('A' as u32 <= c as u32 && c as u32 <= 'F' as u32)
}

/// The value of a hexadecimal digit; 0 for any other character.
pub open spec fn hex_val(c: char) -> int {
    if '0' as u32 <= c as u32 && c as u32 <= '9' as u32 {
        c as u32 - '0' as u32
    } else if 'a' as u32 <= c as u32 && c as u32 <= 'f' as u32 {
        c as u32 - 'a' as u32 + 10
    } else if 'A' as u32 <= c as u32 && c as u32 <= 'F' as u32 {
        c as u32 - 'A' as u32 + 10
    } else {
        0
    }
}

/// The color a descriptor word names: one of the eight color names, or a
/// `#RRGGBB` value; `None` for any other word.
pub open spec fn color_of_word(w: Seq<char>) -> Option<Color> {
    if w == "black"@ {
        Some(Color::Black)
    } else if w == "red"@ {
        Some(Color::Red)
    } else if w == "green"@ {
        Some(Color::Green)
    } else if w == "yellow"@ {
        Some(Color::Yellow)
    } else if w == "blue"@ {
        Some(Color::Blue)
    } else if w == "purple"@ {
        Some(Color::Purple)
    } else if w == "cyan"@ {
        Some(Color::Cyan)
    } else if w == "white"@ {
        Some(Color::White)
    } else if w.len() == 7 && w[0] == '#' && is_hex_digit(w[1]) && is_hex_digit(w[2])
        && is_hex_digit(w[3]) && is_hex_digit(w[4]) && is_hex_digit(w[5]) && is_hex_digit(w[6]) {
        Some(
            Color::Rgb(
                (hex_val(w[1]) * 16 + hex_val(w[2])) as u8,
                (hex_val(w[3]) * 16 + hex_val(w[4])) as u8,
                (hex_val(w[5]) * 16 + hex_val(w[6])) as u8,
            ),
        )
    } else {
        None
    }
}

/// What one descriptor word does to the style accumulated so far: `none`
/// resets everything, an attribute keyword sets its flag, a color word sets
/// the foreground, a `bg:`-prefixed color sets the background, and any other
/// word is ignored.
pub open spec fn apply_word(st: Style, w: Seq<char>) -> Style {
    if w == "none"@ {
        empty_style()
    } else if w == "bold"@ {
        Style { bold: true, ..st }
    } else if w == "italic"@ {
        Style { italic: true, ..st }
    } else if w == "underline"@ {
        Style { underline: true, ..st }
    } else if w == "dimmed"@ {
        Style { dimmed: true, ..st }
    } else if w == "inverted"@ {
        Style { inverted: true, ..st }
    } else if w == "blink"@ {
        Style { blink: true, ..st }
    } else if w == "hidden"@ {
        Style { hidden: true, ..st }
    } else if w == "strikethrough"@ {
        Style { strikethrough: true, ..st }
    } else if w.len() >= 3 && w.subrange(0, 3) == "bg:"@ {
        match color_of_word(w.subrange(3, w.len() as int)) {
            Some(c) => Style { bg: Some(c), ..st },
            None => st,
        }
    } else {
        match color_of_word(w) {
            Some(c) => Style { fg: Some(c), ..st },
            None => st,
        }
    }
}

/// The style accumulated from the whitespace-separated words of `s` starting
/// at position `i`, beginning from `st`.
pub open spec fn style_from(s: Seq<char>, i: int, st: Style) -> Style
    decreases s.len() - i,
{
    if i < 0 || i >= s.len() {
        st
    } else if is_space(s[i]) {
        style_from(s, i + 1, st)
    } else {
        let j = word_end(s, i);
        let nx = if j < i + 1 {
            i + 1
        } else if j > s.len() {
            s.len() as int
        } else {
            j
        };
        style_from(s, nx, apply_word(st, s.subrange(i, j)))
    }
}

/// The style a whole descriptor denotes.
pub open spec fn spec_style_of(s: Seq<char>) -> Style {
    style_from(s, 0, empty_style())
}

/// Whether the characters of `v` equal those of `s`.
pub fn chars_eq_str(v: &[char], s: &str) -> (r: bool)
    ensures
        r == (v@ == s@),
{
    let n = s.unicode_len();
    if v.len() != n {
        proof {
            assert(v@ != s@) by {
                if v@ == s@ {
                    assert(v@.len() == s@.len());
                }
            }
        }
        return false;
    }
    let mut i: usize = 0;
    while i < n
        invariant
            n == s@.len(),
            n == v@.len(),
            i <= n,
            forall|k: int| 0 <= k < i ==> v@[k] == s@[k],
        decreases n - i,
    {
        if v[i] != s.get_char(i) {
            return false;
        }
        i = i + 1;
    }
    proof {
        assert(v@ =~= s@);
    }
    true
}

/// The value of a hexadecimal digit, matching `hex_val`.
fn hex_digit_val(c: char) -> (r: u32)
    ensures
        r == hex_val(c),
        is_hex_digit(c) ==> r < 16,
{
    let u = c as u32;
    if '0' as u32 <= u && u <= '9' as u32 {
        u - '0' as u32
    } else if 'a' as u32 <= u && u <= 'f' as u32 {
        u - 'a' as u32 + 10
    } else if 'A' as u32 <= u && u <= 'F' as u32 {
        u - 'A' as u32 + 10
    } else {
        0
    }
}

/// Executable test matching `is_hex_digit`.
fn char_is_hex_digit(c: char) -> (r: bool)
    ensures
        r == is_hex_digit(c),
{
    let u = c as u32;
    ('0' as u32 <= u && u <= '9' as u32) || ('a' as u32 <= u && u <= 'f' as u32) || ('A' as u32 <= u
        && u <= 'F' as u32)
}

/// The color named by the word `w`, matching `color_of_word`.
fn color_word(w: &[char]) -> (r: Option<Color>)
    ensures
        r == color_of_word(w@),
{
    if chars_eq_str(w, "black") {
        Some(Color::Black)
    } else if chars_eq_str(w, "red") {
        Some(Color::Red)
    } else if chars_eq_str(w, "green") {
        Some(Color::Green)
    } else if chars_eq_str(w, "yellow") {
        Some(Color::Yellow)
    } else if chars_eq_str(w, "blue") {
        Some(Color::Blue)
    } else if chars_eq_str(w, "purple") {
        Some(Color::Purple)
    } else if chars_eq_str(w, "cyan") {
        Some(Color::Cyan)
    } else if chars_eq_str(w, "white") {
        Some(Color::White)
    } else if w.len() == 7 && w[0] == '#' && char_is_hex_digit(w[1]) && char_is_hex_digit(w[2])
        && char_is_hex_digit(w[3]) && char_is_hex_digit(w[4]) && char_is_hex_digit(w[5])
        && char_is_hex_digit(w[6]) {
        Some(
            Color::Rgb(
                (hex_digit_val(w[1]) * 16 + hex_digit_val(w[2])) as u8,
                (hex_digit_val(w[3]) * 16 + hex_digit_val(w[4])) as u8,
                (hex_digit_val(w[5]) * 16 + hex_digit_val(w[6])) as u8,
            ),
        )
    } else {
        None
    }
}

/// Applies one descriptor word to the accumulated style, matching
/// `apply_word`.
fn apply_word_exec(st: Style, w: &Vec<char>) -> (r: Style)
    ensures
        r == apply_word(st, w@),
{
    if chars_eq_str(w.as_slice(), "none") {
        Style::plain()
    } else if chars_eq_str(w.as_slice(), "bold") {
        Style { bold: true, ..st }
    } else if chars_eq_str(w.as_slice(), "italic") {
        Style { italic: true, ..st }
    } else if chars_eq_str(w.as_slice(), "underline") {
        Style { underline: true, ..st }
    } else if chars_eq_str(w.as_slice(), "dimmed") {
        Style { dimmed: true, ..st }
    } else if chars_eq_str(w.as_slice(), "inverted") {
        Style { inverted: true, ..st }
    } else if chars_eq_str(w.as_slice(), "blink") {
        Style { blink: true, ..st }
    } else if chars_eq_str(w.as_slice(), "hidden") {
        Style { hidden: true, ..st }
    } else if chars_eq_str(w.as_slice(), "strikethrough") {
        Style { strikethrough: true, ..st }
    } else if w.len() >= 3 && w[0] == 'b' && w[1] == 'g' && w[2] == ':' {
        proof {
            reveal_strlit("bg:");
            assert(w@.subrange(0, 3) =~= "bg:"@);
        }
        let mut rest: Vec<char> = Vec::new();
        let mut k: usize = 3;
        while k < w.len()
            invariant
                3 <= k <= w@.len(),
                rest@ == w@.subrange(3, k as int),
            decreases w@.len() - k,
        {
            rest.push(w[k]);
            k = k + 1;
            proof {
                assert(rest@ =~= w@.subrange(3, k as int));
            }
        }
        match color_word(rest.as_slice()) {
            Some(c) => Style { bg: Some(c), ..st },
            None => st,
        }
    } else {
        proof {
            if w@.len() >= 3 && w@.subrange(0, 3) == "bg:"@ {
                reveal_strlit("bg:");
                assert(w@[0] == 'b' && w@[1] == 'g' && w@[2] == ':') by {
                    assert(w@.subrange(0, 3)[0] == 'b');
                    assert(w@.subrange(0, 3)[1] == 'g');
                    assert(w@.subrange(0, 3)[2] == ':');
                }
            }
        }
        match color_word(w.as_slice()) {
            Some(c) => Style { fg: Some(c), ..st },
            None => st,
        }
    }
}

/// Parses a whitespace-separated style descriptor into a `Style`.
///
/// Words act in order on an initially plain style: `none` clears everything
/// accumulated so far, attribute keywords set their flags, the color words
/// and `#RRGGBB` values set the foreground, `bg:`-prefixed colors set the
/// background, and unknown words are ignored.
pub fn parse_style(descriptor: &str) -> (r: Style)
    ensures
        r == spec_style_of(descriptor@),
{
    let cs = str_to_chars(descriptor);
    let n = cs.len();
    let mut st = Style::plain();
    let mut i: usize = 0;
    while i < n
        invariant
            n == cs@.len(),
            cs@ == descriptor@,
            i <= n,
            spec_style_of(descriptor@) == style_from(cs@, i as int, st),
        decreases n - i,
    {
        if char_is_space(cs[i]) {
            i = i + 1;
        } else {
            let mut j: usize = i;
            while j < n && !char_is_space(cs[j])
                invariant
                    n == cs@.len(),
                    i <= j <= n,
                    word_end(cs@, i as int) == word_end(cs@, j as int),
                decreases n - j,
            {
                j = j + 1;
            }
            proof {
                assert(word_end(cs@, j as int) == j);
                assert(word_end(cs@, i as int) == word_end(cs@, i as int + 1));
                lemma_word_end_bounds(cs@, i as int + 1);
            }
            let mut w: Vec<char> = Vec::new();
            let mut k: usize = i;
            while k < j
                invariant
                    i <= k <= j <= cs@.len(),
                    w@ == cs@.subrange(i as int, k as int),
                decreases j - k,
            {
                w.push(cs[k]);
                k = k + 1;
                proof {
                    assert(w@ =~= cs@.subrange(i as int, k as int));
                }
            }
            st = apply_word_exec(st, &w);
            i = j;
        }
    }
    st
}

} // verus!
