//! Terminal colour themes: colours as hex text or byte triples, the built-in
//! themes, and the palette of byte triples that a terminal is given.

use vstd::prelude::*;
use vstd::string::*;
use vstd::utf8::*;
use crate::text::str_eq;

verus! {

broadcast use vstd::string::group_string_axioms;

/// A colour, written as hex text (`#rrggbb`, the `#` optional) or as red,
/// green and blue bytes.
#[derive(Debug)]
pub enum Color {
    Hex(String),
    Rgb([u8; 3]),
}

/// A colour in contracts.
pub enum ColorView {
    Hex(Seq<char>),
    Rgb(Seq<u8>),
}

impl View for Color {
    type V = ColorView;

    open spec fn view(&self) -> ColorView {
        match self {
            Color::Hex(s) => ColorView::Hex(s@),
            Color::Rgb(v) => ColorView::Rgb(v@),
        }
    }
}

/// The value of a hex digit given as an ASCII byte.
pub open spec fn hex_digit(b: u8) -> Option<int> {
    if 0x30 <= b <= 0x39 {
        Some(b - 0x30)
    } else if 0x61 <= b <= 0x66 {
        Some(b - 0x61 + 10)
    } else if 0x41 <= b <= 0x46 {
        Some(b - 0x41 + 10)
    } else {
        None
    }
}

/// The number that two bytes of hex text stand for: two digits, or a plus
/// sign and one digit. Anything else counts as zero.
pub open spec fn hex_pair(hi: u8, lo: u8) -> int {
    match (hex_digit(hi), hex_digit(lo)) {
        (Some(h), Some(l)) => 16 * h + l,
        (None, Some(l)) => if hi == 0x2b {
            l
        } else {
            0
        },
        _ => 0,
    }
}

/// The number of `#` bytes at the head of `bytes`.
pub open spec fn leading_hashes(bytes: Seq<u8>) -> nat
    decreases bytes.len(),
{
    if bytes.len() > 0 && bytes[0] == 0x23 {
        1 + leading_hashes(bytes.skip(1))
    } else {
        0
    }
}

/// `bytes` without the `#` bytes at its head.
pub open spec fn strip_hashes(bytes: Seq<u8>) -> Seq<u8> {
    bytes.skip(leading_hashes(bytes) as int)
}

/// Whether UTF-8 text can be cut into three pairs of bytes: it has six bytes
/// or more, and none of the cuts falls inside a character.
pub open spec fn has_three_pairs(digits: Seq<u8>) -> bool {
    &&& digits.len() >= 6
    &&& !is_continuation_byte(digits[2])
    &&& !is_continuation_byte(digits[4])
    &&& digits.len() > 6 ==> !is_continuation_byte(digits[6])
}

/// Red, green and blue of hex text given as UTF-8 bytes: the `#` bytes at
/// the head are skipped and the next three pairs of bytes are read.
pub open spec fn hex_rgb(bytes: Seq<u8>) -> (u8, u8, u8) {
    let d = strip_hashes(bytes);
    (hex_pair(d[0], d[1]) as u8, hex_pair(d[2], d[3]) as u8, hex_pair(d[4], d[5]) as u8)
}

impl ColorView {
    /// Whether the colour can be converted: byte triples always, hex text
    /// where three pairs of bytes follow its leading `#`s.
    pub open spec fn valid(self) -> bool {
        match self {
            ColorView::Hex(s) => has_three_pairs(strip_hashes(encode_utf8(s))),
            ColorView::Rgb(v) => v.len() == 3,
        }
    }

    /// Red, green and blue of the colour.
    pub open spec fn rgb(self) -> (u8, u8, u8) {
        match self {
            ColorView::Hex(s) => hex_rgb(encode_utf8(s)),
            ColorView::Rgb(v) => (v[0], v[1], v[2]),
        }
    }
}

/// The value of a hex digit given as an ASCII byte.
fn hex_digit_value(b: u8) -> (r: Option<u8>)
    ensures
        match r {
            Some(v) => hex_digit(b) == Some(v as int) && v < 16,
            None => hex_digit(b) is None,
        },
{
    if 0x30 <= b && b <= 0x39 {
        Some(b - 0x30)
    } else if 0x61 <= b && b <= 0x66 {
        Some(b - 0x61 + 10)
    } else if 0x41 <= b && b <= 0x46 {
        Some(b - 0x41 + 10)
    } else {
        None
    }
}

/// The number that two bytes of hex text stand for.
fn hex_pair_value(hi: u8, lo: u8) -> (r: u8)
    ensures
        r == hex_pair(hi, lo),
{
    match hex_digit_value(lo) {
        Some(l) => match hex_digit_value(hi) {
            Some(h) => 16 * h + l,
            None => if hi == 0x2b {
                l
            } else {
                0
            },
        },
        None => 0,
    }
}

/// The number of `#` bytes at the head of `bytes`.
fn count_leading_hashes(bytes: &[u8]) -> (n: usize)
    ensures
        n == leading_hashes(bytes@),
        n <= bytes@.len(),
{
    let mut n: usize = 0;
    assert(bytes@.skip(0) =~= bytes@);
    while n < bytes.len() && bytes[n] == 0x23
        invariant
            n <= bytes@.len(),
            leading_hashes(bytes@) == n + leading_hashes(bytes@.skip(n as int)),
        decreases bytes@.len() - n,
    {
        proof {
            assert(bytes@.skip(n as int).skip(1) =~= bytes@.skip(n + 1));
        }
        n += 1;
    }
    n
}

impl Clone for Color {
    fn clone(&self) -> (r: Self)
        ensures
            r@ == self@,
    {
        match self {
            Color::Hex(s) => Color::Hex(s.clone()),
            Color::Rgb(v) => {
                let copy = [v[0], v[1], v[2]];
                assert(copy@ =~= v@);
                Color::Rgb(copy)
            },
        }
    }
}

impl Color {
    /// Whether the colour can be converted (see `ColorView::valid`).
    pub fn is_valid(&self) -> (b: bool)
        ensures
            b == self@.valid(),
    {
        match self {
            Color::Hex(s) => {
                let bytes = s.as_str().as_bytes();
                let k = count_leading_hashes(bytes);
                let n = bytes.len() - k;
                n >= 6 && !is_continuation(bytes[k + 2]) && !is_continuation(bytes[k + 4]) && (n
                    <= 6 || !is_continuation(bytes[k + 6]))
            },
            Color::Rgb(_) => true,
        }
    }

    /// Red, green and blue of the colour. Of hex text the leading `#`s are
    /// skipped and three pairs of hex digits are read; a pair that is not
    /// two hex digits (or a plus sign and one) counts as zero.
    pub fn to_rgb(&self) -> (rgb: (u8, u8, u8))
        requires
            self@.valid(),
        ensures
            rgb == self@.rgb(),
    {
        match self {
            Color::Hex(s) => {
                let bytes = s.as_str().as_bytes();
                let k = count_leading_hashes(bytes);
                (
                    hex_pair_value(bytes[k], bytes[k + 1]),
                    hex_pair_value(bytes[k + 2], bytes[k + 3]),
                    hex_pair_value(bytes[k + 4], bytes[k + 5]),
                )
            },
            Color::Rgb(v) => (v[0], v[1], v[2]),
        }
    }

    /// Red, green and blue of the colour, where it can be converted.
    pub fn try_to_rgb(&self) -> (r: Option<(u8, u8, u8)>)
        ensures
            r == if self@.valid() {
                Some(self@.rgb())
            } else {
                None
            },
    {
        if self.is_valid() {
            Some(self.to_rgb())
        } else {
            None
        }
    }
}

/// Whether a byte of UTF-8 text continues a character.
fn is_continuation(b: u8) -> (r: bool)
    ensures
        r == is_continuation_byte(b),
{
    0x80 <= b && b <= 0xbf
}

impl From<&str> for Color {
    /// The colour that hex text `s` writes.
    fn from(s: &str) -> (c: Color)
        ensures
            c@ == ColorView::Hex(s@),
    {
        Color::Hex(String::from_str(s))
    }
}

impl vstd::std_specs::convert::FromSpecImpl<&str> for Color {
    open spec fn obeys_from_spec() -> bool {
        false
    }

    open spec fn from_spec(s: &str) -> Color {
        arbitrary()
    }
}

/// Whether `s` is a `#` followed by six ASCII characters, the first of them not a `#`.
pub open spec fn is_hash_and_six(s: Seq<char>) -> bool {
    &&& s.len() == 7
    &&& s[0] == '#'
    &&& s[1] != '#'
    &&& is_ascii_chars(s)
}

/// Hex text made of a `#` and six ASCII characters can be converted.
pub proof fn lemma_hash_and_six_valid(s: Seq<char>)
    requires
        is_hash_and_six(s),
    ensures
        ColorView::Hex(s).valid(),
{
    is_ascii_chars_encode_utf8(s);
    let b = encode_utf8(s);
    assert(b[0] == 0x23u8);
    assert(b[1] != 0x23u8) by {
        assert(s[1] as u8 == b[1]);
        assert(s[1] as u32 != 0x23);
    }
    assert(b.skip(1).len() == 6);
    assert(b.skip(1)[0] == b[1]);
    assert(leading_hashes(b.skip(1)) == 0);
    assert(leading_hashes(b) == 1);
    let d = strip_hashes(b);
    assert(d.len() == 6);
    assert forall|i: int| 0 <= i < 6 implies !is_continuation_byte(#[trigger] d[i]) by {
        assert(d[i] == b[i + 1]);
        assert(s[i + 1] as u8 == b[i + 1]);
    }
}

/// A terminal colour theme: background, text and cursor, the eight normal
/// and the eight bright colours.
#[derive(Debug)]
pub struct TerminalTheme {
    pub background: Color,
    pub foreground: Color,
    pub cursor: Color,
    pub black: Color,
    pub red: Color,
    pub green: Color,
    pub yellow: Color,
    pub blue: Color,
    pub magenta: Color,
    pub cyan: Color,
    pub white: Color,
    pub bright_black: Color,
    pub bright_red: Color,
    pub bright_green: Color,
    pub bright_yellow: Color,
    pub bright_blue: Color,
    pub bright_magenta: Color,
    pub bright_cyan: Color,
    pub bright_white: Color,
}

/// A theme in contracts.
pub struct ThemeView {
    pub background: ColorView,
    pub foreground: ColorView,
    pub cursor: ColorView,
    pub black: ColorView,
    pub red: ColorView,
    pub green: ColorView,
    pub yellow: ColorView,
    pub blue: ColorView,
    pub magenta: ColorView,
    pub cyan: ColorView,
    pub white: ColorView,
    pub bright_black: ColorView,
    pub bright_red: ColorView,
    pub bright_green: ColorView,
    pub bright_yellow: ColorView,
    pub bright_blue: ColorView,
    pub bright_magenta: ColorView,
    pub bright_cyan: ColorView,
    pub bright_white: ColorView,
}

impl View for TerminalTheme {
    type V = ThemeView;

    open spec fn view(&self) -> ThemeView {
        ThemeView {
            background: self.background@,
            foreground: self.foreground@,
            cursor: self.cursor@,
            black: self.black@,
            red: self.red@,
            green: self.green@,
            yellow: self.yellow@,
            blue: self.blue@,
            magenta: self.magenta@,
            cyan: self.cyan@,
            white: self.white@,
            bright_black: self.bright_black@,
            bright_red: self.bright_red@,
            bright_green: self.bright_green@,
            bright_yellow: self.bright_yellow@,
            bright_blue: self.bright_blue@,
            bright_magenta: self.bright_magenta@,
            bright_cyan: self.bright_cyan@,
            bright_white: self.bright_white@,
        }
    }
}

/// The colours a terminal is given, each as red, green and blue.
#[derive(Debug, Clone, Copy, PartialEq, Eq)]
pub struct Palette {
    pub background: (u8, u8, u8),
    pub foreground: (u8, u8, u8),
    pub cursor: (u8, u8, u8),
    pub black: (u8, u8, u8),
    pub red: (u8, u8, u8),
    pub green: (u8, u8, u8),
    pub yellow: (u8, u8, u8),
    pub blue: (u8, u8, u8),
    pub magenta: (u8, u8, u8),
    pub cyan: (u8, u8, u8),
    pub white: (u8, u8, u8),
    pub bright_black: (u8, u8, u8),
    pub bright_red: (u8, u8, u8),
    pub bright_green: (u8, u8, u8),
    pub bright_yellow: (u8, u8, u8),
    pub bright_blue: (u8, u8, u8),
    pub bright_magenta: (u8, u8, u8),
    pub bright_cyan: (u8, u8, u8),
    pub bright_white: (u8, u8, u8),
}

impl ThemeView {
    /// Whether every colour of the theme can be converted.
    pub open spec fn valid(self) -> bool {
        &&& self.background.valid()
        &&& self.foreground.valid()
        &&& self.cursor.valid()
        &&& self.black.valid()
        &&& self.red.valid()
        &&& self.green.valid()
        &&& self.yellow.valid()
        &&& self.blue.valid()
        &&& self.magenta.valid()
        &&& self.cyan.valid()
        &&& self.white.valid()
        &&& self.bright_black.valid()
        &&& self.bright_red.valid()
        &&& self.bright_green.valid()
        &&& self.bright_yellow.valid()
        &&& self.bright_blue.valid()
        &&& self.bright_magenta.valid()
        &&& self.bright_cyan.valid()
        &&& self.bright_white.valid()
    }

    /// The theme's colours as red, green and blue.
    pub open spec fn palette(self) -> Palette {
        Palette {
            background: self.background.rgb(),
            foreground: self.foreground.rgb(),
            cursor: self.cursor.rgb(),
            black: self.black.rgb(),
            red: self.red.rgb(),
            green: self.green.rgb(),
            yellow: self.yellow.rgb(),
            blue: self.blue.rgb(),
            magenta: self.magenta.rgb(),
            cyan: self.cyan.rgb(),
            white: self.white.rgb(),
            bright_black: self.bright_black.rgb(),
            bright_red: self.bright_red.rgb(),
            bright_green: self.bright_green.rgb(),
            bright_yellow: self.bright_yellow.rgb(),
            bright_blue: self.bright_blue.rgb(),
            bright_magenta: self.bright_magenta.rgb(),
            bright_cyan: self.bright_cyan.rgb(),
            bright_white: self.bright_white.rgb(),
        }
    }

    /// A theme whose colours are written by the hex texts of `table`, in the
    /// order of the theme's fields.
    pub open spec fn of_table(table: Seq<Seq<char>>) -> ThemeView {
        ThemeView {
            background: ColorView::Hex(table[0]),
            foreground: ColorView::Hex(table[1]),
            cursor: ColorView::Hex(table[2]),
            black: ColorView::Hex(table[3]),
            red: ColorView::Hex(table[4]),
            green: ColorView::Hex(table[5]),
            yellow: ColorView::Hex(table[6]),
            blue: ColorView::Hex(table[7]),
            magenta: ColorView::Hex(table[8]),
            cyan: ColorView::Hex(table[9]),
            white: ColorView::Hex(table[10]),
            bright_black: ColorView::Hex(table[11]),
            bright_red: ColorView::Hex(table[12]),
            bright_green: ColorView::Hex(table[13]),
            bright_yellow: ColorView::Hex(table[14]),
            bright_blue: ColorView::Hex(table[15]),
            bright_magenta: ColorView::Hex(table[16]),
            bright_cyan: ColorView::Hex(table[17]),
            bright_white: ColorView::Hex(table[18]),
        }
    }

    /// Tokyo Night, a dark theme.
    pub open spec fn tokyo_night() -> ThemeView {
        Self::of_table(
            seq![
                "#1a1b26"@,
                "#c0caf5"@,
                "#c0caf5"@,
                "#15161e"@,
                "#f7768e"@,
                "#9ece6a"@,
                "#e0af68"@,
                "#7aa2f7"@,
                "#bb9af7"@,
                "#7dcfff"@,
                "#a9b1d6"@,
                "#414868"@,
                "#f7768e"@,
                "#9ece6a"@,
                "#e0af68"@,
                "#7aa2f7"@,
                "#bb9af7"@,
                "#7dcfff"@,
                "#c0caf5"@,
            ],
        )
    }

    /// Gruvbox Dark.
    pub open spec fn gruvbox_dark() -> ThemeView {
        Self::of_table(
            seq![
                "#282828"@,
                "#ebdbb2"@,
                "#ebdbb2"@,
                "#282828"@,
                "#cc241d"@,
                "#98971a"@,
                "#d79921"@,
                "#458588"@,
                "#b16286"@,
                "#689d6a"@,
                "#a89984"@,
                "#928374"@,
                "#fb4934"@,
                "#b8bb26"@,
                "#fabd2f"@,
                "#83a598"@,
                "#d3869b"@,
                "#8ec07c"@,
                "#ebdbb2"@,
            ],
        )
    }

    /// Catppuccin Mocha.
    pub open spec fn catppuccin_mocha() -> ThemeView {
        Self::of_table(
            seq![
                "#1e1e2e"@,
                "#cdd6f4"@,
                "#f5e0dc"@,
                "#45475a"@,
                "#f38ba8"@,
                "#a6e3a1"@,
                "#f9e2af"@,
                "#89b4fa"@,
                "#f5c2e7"@,
                "#94e2d5"@,
                "#bac2de"@,
                "#585b70"@,
                "#f38ba8"@,
                "#a6e3a1"@,
                "#f9e2af"@,
                "#89b4fa"@,
                "#f5c2e7"@,
                "#94e2d5"@,
                "#a6adc8"@,
            ],
        )
    }

    /// The built-in theme of a name in lower case; Tokyo Night for a name
    /// that is none of theirs.
    pub open spec fn named(lower: Seq<char>) -> ThemeView {
        if lower == "gruvbox"@ || lower == "gruvbox-dark"@ {
            Self::gruvbox_dark()
        } else if lower == "catppuccin"@ || lower == "catppuccin-mocha"@ {
            Self::catppuccin_mocha()
        } else {
            Self::tokyo_night()
        }
    }
}

/// `name` with every character in lower case, as `str::to_lowercase` gives it.
pub uninterp spec fn lowercase(name: Seq<char>) -> Seq<char>;

/// `str::to_lowercase`: the lower-case form of a string by the Unicode
/// tables of the standard library, which are not written out here.
#[verifier::external_body]
fn to_lowercase(name: &str) -> (lower: String)
    ensures
        lower@ == lowercase(name@),
{
    name.to_lowercase()
}

impl Clone for TerminalTheme {
    fn clone(&self) -> (r: Self)
        ensures
            r@ == self@,
    {
        TerminalTheme {
            background: self.background.clone(),
            foreground: self.foreground.clone(),
            cursor: self.cursor.clone(),
            black: self.black.clone(),
            red: self.red.clone(),
            green: self.green.clone(),
            yellow: self.yellow.clone(),
            blue: self.blue.clone(),
            magenta: self.magenta.clone(),
            cyan: self.cyan.clone(),
            white: self.white.clone(),
            bright_black: self.bright_black.clone(),
            bright_red: self.bright_red.clone(),
            bright_green: self.bright_green.clone(),
            bright_yellow: self.bright_yellow.clone(),
            bright_blue: self.bright_blue.clone(),
            bright_magenta: self.bright_magenta.clone(),
            bright_cyan: self.bright_cyan.clone(),
            bright_white: self.bright_white.clone(),
        }
    }
}

impl Default for TerminalTheme {
    fn default() -> (r: Self)
        ensures
            r@ == ThemeView::tokyo_night(),
            r@.valid(),
    {
        TerminalTheme::tokyo_night()
    }
}

impl TerminalTheme {
    /// The built-in theme called `name`, in any mix of cases; Tokyo Night
    /// for a name that is none of theirs.
    pub fn from_name(name: &str) -> (r: Self)
        ensures
            r@ == ThemeView::named(lowercase(name@)),
            r@.valid(),
    {
        let lower = to_lowercase(name);
        TerminalTheme::from_lowercase_name(lower.as_str())
    }

    /// The built-in theme whose name in lower case is `lower`; Tokyo Night
    /// for a name that is none of theirs.
    pub fn from_lowercase_name(lower: &str) -> (r: Self)
        ensures
            r@ == ThemeView::named(lower@),
            r@.valid(),
    {
        if str_eq(lower, "gruvbox") || str_eq(lower, "gruvbox-dark") {
            TerminalTheme::gruvbox_dark()
        } else if str_eq(lower, "catppuccin") || str_eq(lower, "catppuccin-mocha") {
            TerminalTheme::catppuccin_mocha()
        } else {
            TerminalTheme::tokyo_night()
        }
    }

    /// Tokyo Night, a dark theme.
    pub fn tokyo_night() -> (r: Self)
        ensures
            r@ == ThemeView::tokyo_night(),
            r@.valid(),
    {
        proof {
            reveal_strlit("#15161e");
            lemma_hash_and_six_valid("#15161e"@);
            reveal_strlit("#1a1b26");
            lemma_hash_and_six_valid("#1a1b26"@);
            reveal_strlit("#414868");
            lemma_hash_and_six_valid("#414868"@);
            reveal_strlit("#7aa2f7");
            lemma_hash_and_six_valid("#7aa2f7"@);
            reveal_strlit("#7dcfff");
            lemma_hash_and_six_valid("#7dcfff"@);
            reveal_strlit("#9ece6a");
            lemma_hash_and_six_valid("#9ece6a"@);
            reveal_strlit("#a9b1d6");
            lemma_hash_and_six_valid("#a9b1d6"@);
            reveal_strlit("#bb9af7");
            lemma_hash_and_six_valid("#bb9af7"@);
            reveal_strlit("#c0caf5");
            lemma_hash_and_six_valid("#c0caf5"@);
            reveal_strlit("#e0af68");
            lemma_hash_and_six_valid("#e0af68"@);
            reveal_strlit("#f7768e");
            lemma_hash_and_six_valid("#f7768e"@);
        }
        TerminalTheme {
            background: Color::from("#1a1b26"),
            foreground: Color::from("#c0caf5"),
            cursor: Color::from("#c0caf5"),
            black: Color::from("#15161e"),
            red: Color::from("#f7768e"),
            green: Color::from("#9ece6a"),
            yellow: Color::from("#e0af68"),
            blue: Color::from("#7aa2f7"),
            magenta: Color::from("#bb9af7"),
            cyan: Color::from("#7dcfff"),
            white: Color::from("#a9b1d6"),
            bright_black: Color::from("#414868"),
            bright_red: Color::from("#f7768e"),
            bright_green: Color::from("#9ece6a"),
            bright_yellow: Color::from("#e0af68"),
            bright_blue: Color::from("#7aa2f7"),
            bright_magenta: Color::from("#bb9af7"),
            bright_cyan: Color::from("#7dcfff"),
            bright_white: Color::from("#c0caf5"),
        }
    }

    /// Gruvbox Dark.
    pub fn gruvbox_dark() -> (r: Self)
        ensures
            r@ == ThemeView::gruvbox_dark(),
            r@.valid(),
    {
        proof {
            reveal_strlit("#282828");
            lemma_hash_and_six_valid("#282828"@);
            reveal_strlit("#458588");
            lemma_hash_and_six_valid("#458588"@);
            reveal_strlit("#689d6a");
            lemma_hash_and_six_valid("#689d6a"@);
            reveal_strlit("#83a598");
            lemma_hash_and_six_valid("#83a598"@);
            reveal_strlit("#8ec07c");
            lemma_hash_and_six_valid("#8ec07c"@);
            reveal_strlit("#928374");
            lemma_hash_and_six_valid("#928374"@);
            reveal_strlit("#98971a");
            lemma_hash_and_six_valid("#98971a"@);
            reveal_strlit("#a89984");
            lemma_hash_and_six_valid("#a89984"@);
            reveal_strlit("#b16286");
            lemma_hash_and_six_valid("#b16286"@);
            reveal_strlit("#b8bb26");
            lemma_hash_and_six_valid("#b8bb26"@);
            reveal_strlit("#cc241d");
            lemma_hash_and_six_valid("#cc241d"@);
            reveal_strlit("#d3869b");
            lemma_hash_and_six_valid("#d3869b"@);
            reveal_strlit("#d79921");
            lemma_hash_and_six_valid("#d79921"@);
            reveal_strlit("#ebdbb2");
            lemma_hash_and_six_valid("#ebdbb2"@);
            reveal_strlit("#fabd2f");
            lemma_hash_and_six_valid("#fabd2f"@);
            reveal_strlit("#fb4934");
            lemma_hash_and_six_valid("#fb4934"@);
        }
        TerminalTheme {
            background: Color::from("#282828"),
            foreground: Color::from("#ebdbb2"),
            cursor: Color::from("#ebdbb2"),
            black: Color::from("#282828"),
            red: Color::from("#cc241d"),
            green: Color::from("#98971a"),
            yellow: Color::from("#d79921"),
            blue: Color::from("#458588"),
            magenta: Color::from("#b16286"),
            cyan: Color::from("#689d6a"),
            white: Color::from("#a89984"),
            bright_black: Color::from("#928374"),
            bright_red: Color::from("#fb4934"),
            bright_green: Color::from("#b8bb26"),
            bright_yellow: Color::from("#fabd2f"),
            bright_blue: Color::from("#83a598"),
            bright_magenta: Color::from("#d3869b"),
            bright_cyan: Color::from("#8ec07c"),
            bright_white: Color::from("#ebdbb2"),
        }
    }

    /// Catppuccin Mocha.
    pub fn catppuccin_mocha() -> (r: Self)
        ensures
            r@ == ThemeView::catppuccin_mocha(),
            r@.valid(),
    {
        proof {
            reveal_strlit("#1e1e2e");
            lemma_hash_and_six_valid("#1e1e2e"@);
            reveal_strlit("#45475a");
            lemma_hash_and_six_valid("#45475a"@);
            reveal_strlit("#585b70");
            lemma_hash_and_six_valid("#585b70"@);
            reveal_strlit("#89b4fa");
            lemma_hash_and_six_valid("#89b4fa"@);
            reveal_strlit("#94e2d5");
            lemma_hash_and_six_valid("#94e2d5"@);
            reveal_strlit("#a6adc8");
            lemma_hash_and_six_valid("#a6adc8"@);
            reveal_strlit("#a6e3a1");
            lemma_hash_and_six_valid("#a6e3a1"@);
            reveal_strlit("#bac2de");
            lemma_hash_and_six_valid("#bac2de"@);
            reveal_strlit("#cdd6f4");
            lemma_hash_and_six_valid("#cdd6f4"@);
            reveal_strlit("#f38ba8");
            lemma_hash_and_six_valid("#f38ba8"@);
            reveal_strlit("#f5c2e7");
            lemma_hash_and_six_valid("#f5c2e7"@);
            reveal_strlit("#f5e0dc");
            lemma_hash_and_six_valid("#f5e0dc"@);
            reveal_strlit("#f9e2af");
            lemma_hash_and_six_valid("#f9e2af"@);
        }
        TerminalTheme {
            background: Color::from("#1e1e2e"),
            foreground: Color::from("#cdd6f4"),
            cursor: Color::from("#f5e0dc"),
            black: Color::from("#45475a"),
            red: Color::from("#f38ba8"),
            green: Color::from("#a6e3a1"),
            yellow: Color::from("#f9e2af"),
            blue: Color::from("#89b4fa"),
            magenta: Color::from("#f5c2e7"),
            cyan: Color::from("#94e2d5"),
            white: Color::from("#bac2de"),
            bright_black: Color::from("#585b70"),
            bright_red: Color::from("#f38ba8"),
            bright_green: Color::from("#a6e3a1"),
            bright_yellow: Color::from("#f9e2af"),
            bright_blue: Color::from("#89b4fa"),
            bright_magenta: Color::from("#f5c2e7"),
            bright_cyan: Color::from("#94e2d5"),
            bright_white: Color::from("#a6adc8"),
        }
    }

    /// Whether every colour of the theme can be converted.
    pub fn is_valid(&self) -> (b: bool)
        ensures
            b == self@.valid(),
    {
        self.background.is_valid()
            && self.foreground.is_valid()
            && self.cursor.is_valid()
            && self.black.is_valid()
            && self.red.is_valid()
            && self.green.is_valid()
            && self.yellow.is_valid()
            && self.blue.is_valid()
            && self.magenta.is_valid()
            && self.cyan.is_valid()
            && self.white.is_valid()
            && self.bright_black.is_valid()
            && self.bright_red.is_valid()
            && self.bright_green.is_valid()
            && self.bright_yellow.is_valid()
            && self.bright_blue.is_valid()
            && self.bright_magenta.is_valid()
            && self.bright_cyan.is_valid()
            && self.bright_white.is_valid()
    }

    /// The theme's colours as red, green and blue.
    pub fn to_color_palette(&self) -> (p: Palette)
        requires
            self@.valid(),
        ensures
            p == self@.palette(),
    {
        Palette {
            background: self.background.to_rgb(),
            foreground: self.foreground.to_rgb(),
            cursor: self.cursor.to_rgb(),
            black: self.black.to_rgb(),
            red: self.red.to_rgb(),
            green: self.green.to_rgb(),
            yellow: self.yellow.to_rgb(),
            blue: self.blue.to_rgb(),
            magenta: self.magenta.to_rgb(),
            cyan: self.cyan.to_rgb(),
            white: self.white.to_rgb(),
            bright_black: self.bright_black.to_rgb(),
            bright_red: self.bright_red.to_rgb(),
            bright_green: self.bright_green.to_rgb(),
            bright_yellow: self.bright_yellow.to_rgb(),
            bright_blue: self.bright_blue.to_rgb(),
            bright_magenta: self.bright_magenta.to_rgb(),
            bright_cyan: self.bright_cyan.to_rgb(),
            bright_white: self.bright_white.to_rgb(),
        }
    }
}

/// The theme a terminal is configured with: a built-in theme by name, or
/// the colours themselves.
#[derive(Debug)]
pub enum TerminalThemeConfig {
    Named(String),
    Custom(TerminalTheme),
}

/// A theme configuration in contracts.
pub enum ThemeConfigView {
    Named(Seq<char>),
    Custom(ThemeView),
}

impl View for TerminalThemeConfig {
    type V = ThemeConfigView;

    open spec fn view(&self) -> ThemeConfigView {
        match self {
            TerminalThemeConfig::Named(n) => ThemeConfigView::Named(n@),
            TerminalThemeConfig::Custom(t) => ThemeConfigView::Custom(t@),
        }
    }
}

impl ThemeConfigView {
    /// The theme that the configuration stands for.
    pub open spec fn theme(self) -> ThemeView {
        match self {
            ThemeConfigView::Named(n) => ThemeView::named(lowercase(n)),
            ThemeConfigView::Custom(t) => t,
        }
    }

    /// Whether the configuration's colours can be converted: always for a
    /// built-in theme.
    pub open spec fn valid(self) -> bool {
        match self {
            ThemeConfigView::Named(_) => true,
            ThemeConfigView::Custom(t) => t.valid(),
        }
    }

    /// The name the theme selector shows as chosen: the configured name, or
    /// none for colours given themselves.
    pub open spec fn selected_name(self) -> Seq<char> {
        match self {
            ThemeConfigView::Named(n) => n,
            ThemeConfigView::Custom(_) => Seq::empty(),
        }
    }
}

impl Clone for TerminalThemeConfig {
    fn clone(&self) -> (r: Self)
        ensures
            r@ == self@,
    {
        match self {
            TerminalThemeConfig::Named(n) => TerminalThemeConfig::Named(n.clone()),
            TerminalThemeConfig::Custom(t) => TerminalThemeConfig::Custom(t.clone()),
        }
    }
}

impl Default for TerminalThemeConfig {
    fn default() -> (r: Self)
        ensures
            r@ == ThemeConfigView::Named("tokyo-night"@),
    {
        TerminalThemeConfig::Named(String::from_str("tokyo-night"))
    }
}

impl TerminalThemeConfig {
    /// Whether the configuration's colours can be converted.
    pub fn is_valid(&self) -> (b: bool)
        ensures
            b == self@.valid(),
    {
        match self {
            TerminalThemeConfig::Named(_) => true,
            TerminalThemeConfig::Custom(t) => t.is_valid(),
        }
    }

    /// The colours of the configured theme as red, green and blue.
    pub fn to_color_palette(&self) -> (p: Palette)
        requires
            self@.valid(),
        ensures
            p == self@.theme().palette(),
    {
        match self {
            TerminalThemeConfig::Named(n) => TerminalTheme::from_name(n.as_str()).to_color_palette(),
            TerminalThemeConfig::Custom(t) => t.to_color_palette(),
        }
    }
}

} // verus!
