//! Accent colours: the RGB triple behind the app's theme, its `#RRGGBB`
//! text form, the parser that reads such text back, and the theme that
//! carries an accent.
use crate::text::{is_unicode_whitespace, lemma_trim_identity, push_char, trim_str, trim_whitespace};
use vstd::prelude::*;
use vstd::string::*;
use vstd::utf8::*;

verus! {

/// An opaque RGB accent colour.
#[derive(Debug, Clone, Copy, PartialEq, Eq, Structural)]
pub struct AccentColor {
    red: u8,
    green: u8,
    blue: u8,
}

impl View for AccentColor {
    type V = (u8, u8, u8);

    closed spec fn view(&self) -> (u8, u8, u8) {
        (self.red, self.green, self.blue)
    }
}

/// Two accent colours are equal exactly when their channels are.
pub proof fn lemma_accent_view_injective(a: AccentColor, b: AccentColor)
    ensures
        (a@ == b@) <==> (a == b),
{
}

/// The upper-case hexadecimal digit for a value below 16.
pub open spec fn hex_digit_char(n: int) -> char {
    if n < 10 {
        (0x30 + n) as char
    } else {
        (0x41 + n - 10) as char
    }
}

/// The two upper-case hexadecimal digits of a byte.
pub open spec fn byte_hex_chars(b: u8) -> Seq<char> {
    seq![hex_digit_char((b / 16) as int), hex_digit_char((b % 16) as int)]
}

/// `#RRGGBB` with upper-case digits.
pub open spec fn hex_text(rgb: (u8, u8, u8)) -> Seq<char> {
    seq!['#'] + byte_hex_chars(rgb.0) + byte_hex_chars(rgb.1) + byte_hex_chars(rgb.2)
}

/// The value of a byte read as one hexadecimal digit (either case).
pub open spec fn hex_digit_value(b: u8) -> Option<u8> {
    if 0x30 <= b <= 0x39 {
        Some((b - 0x30) as u8)
    } else if 0x41 <= b <= 0x46 {
        Some((b - 0x41 + 10) as u8)
    } else if 0x61 <= b <= 0x66 {
        Some((b - 0x61 + 10) as u8)
    } else {
        None
    }
}

/// What `u8::from_str_radix(text, 16)` gives for a two-byte text: an
/// optional leading `+` followed by hexadecimal digits.
pub open spec fn radix16_pair(b0: u8, b1: u8) -> Option<u8> {
    if b0 == 0x2b {
        hex_digit_value(b1)
    } else {
        match (hex_digit_value(b0), hex_digit_value(b1)) {
            (Some(h), Some(l)) => Some((16 * h + l) as u8),
            _ => None,
        }
    }
}

/// `s` without its leading `#` characters.
pub open spec fn strip_leading_hashes(s: Seq<char>) -> Seq<char>
    decreases s.len(),
{
    if s.len() > 0 && s[0] == '#' {
        strip_leading_hashes(s.drop_first())
    } else {
        s
    }
}

/// The UTF-8 bytes that the parser reads: the text trimmed of whitespace,
/// then of leading `#` characters.
pub open spec fn hex_body(s: Seq<char>) -> Seq<u8> {
    encode_utf8(strip_leading_hashes(trim_whitespace(s)))
}

/// The colour that the text `s` denotes: its body must be six bytes, each
/// pair of which reads as a byte in base 16.
pub open spec fn parse_hex_rgb(s: Seq<char>) -> Option<(u8, u8, u8)> {
    let b = hex_body(s);
    if b.len() != 6 {
        None
    } else {
        match (radix16_pair(b[0], b[1]), radix16_pair(b[2], b[3]), radix16_pair(b[4], b[5])) {
            (Some(r), Some(g), Some(bl)) => Some((r, g, bl)),
            _ => None,
        }
    }
}

/// The texts on which reading the channels slices the body off a character
/// boundary: the red pair is cut at byte 2 first, and only when it reads as
/// a number is the green pair cut at byte 4.
pub open spec fn hex_slicing_panics(s: Seq<char>) -> bool {
    let b = hex_body(s);
    &&& b.len() == 6
    &&& (!is_char_boundary(b, 2) || (radix16_pair(b[0], b[1]) is Some && !is_char_boundary(b, 4)))
}

/// The name of the theme built around an accent: `Plume Dark (#RRGGBB)`.
pub open spec fn theme_name_text(rgb: (u8, u8, u8)) -> Seq<char> {
    seq!['P', 'l', 'u', 'm', 'e', ' ', 'D', 'a', 'r', 'k', ' ', '('] + hex_text(rgb) + seq![')']
}

fn hex_digit(n: u8) -> (c: char)
    requires
        n < 16,
    ensures
        c == hex_digit_char(n as int),
{
    if n < 10 {
        (0x30u8 + n) as char
    } else {
        (0x41u8 + n - 10) as char
    }
}

fn hex_digit_byte_value(b: u8) -> (r: Option<u8>)
    ensures
        r == hex_digit_value(b),
{
    if 0x30 <= b && b <= 0x39 {
        Some(b - 0x30)
    } else if 0x41 <= b && b <= 0x46 {
        Some(b - 0x41 + 10)
    } else if 0x61 <= b && b <= 0x66 {
        Some(b - 0x61 + 10)
    } else {
        None
    }
}

fn read_radix16_pair(b0: u8, b1: u8) -> (r: Option<u8>)
    ensures
        r == radix16_pair(b0, b1),
{
    if b0 == 0x2b {
        hex_digit_byte_value(b1)
    } else {
        match (hex_digit_byte_value(b0), hex_digit_byte_value(b1)) {
            (Some(h), Some(l)) => Some(16 * h + l),
            _ => None,
        }
    }
}

proof fn lemma_strip_step(s: Seq<char>, k: int)
    requires
        0 <= k < s.len(),
        s[k] == '#',
    ensures
        strip_leading_hashes(s.skip(k)) == strip_leading_hashes(s.skip(k + 1)),
{
    assert(s.skip(k).drop_first() =~= s.skip(k + 1));
}

/// The body of `s` (see `hex_body`) as a slice of the trimmed text.
fn hex_body_str(s: &str) -> (r: &str)
    ensures
        r@ == strip_leading_hashes(trim_whitespace(s@)),
{
    let trimmed = trim_str(s);
    let n = trimmed.unicode_len();
    let mut k: usize = 0;
    assert(trimmed@.skip(0) =~= trimmed@);
    loop
        invariant
            k <= n,
            n == trimmed@.len(),
            strip_leading_hashes(trimmed@) == strip_leading_hashes(trimmed@.skip(k as int)),
        ensures
            k <= n,
            n == trimmed@.len(),
            strip_leading_hashes(trimmed@) == strip_leading_hashes(trimmed@.skip(k as int)),
            k == n || trimmed@[k as int] != '#',
        decreases n - k,
    {
        if k >= n {
            break;
        }
        let c = trimmed.get_char(k);
        if c != '#' {
            break;
        }
        proof {
            lemma_strip_step(trimmed@, k as int);
        }
        k = k + 1;
    }
    let body = trimmed.substring_char(k, n);
    assert(body@ =~= trimmed@.skip(k as int));
    assert(strip_leading_hashes(body@) == body@);
    body
}


/// Facts about one upper-case hexadecimal digit character.
proof fn lemma_hex_digit_char(n: int)
    requires
        0 <= n < 16,
    ensures
        hex_digit_value(hex_digit_char(n) as u8) == Some(n as u8),
        hex_digit_char(n) as u8 != 0x2b,
        hex_digit_char(n) as u8 == hex_digit_char(n) as u32,
        !is_unicode_whitespace(hex_digit_char(n)),
        hex_digit_char(n) != '#',
        '\0' <= hex_digit_char(n) <= '\u{7f}',
        '0' <= hex_digit_char(n) <= '9' || 'A' <= hex_digit_char(n) <= 'F',
{
}

/// Facts about the text `#RRGGBB` of a colour: it is ASCII, has no
/// surrounding whitespace, and its body is the six digits.
pub proof fn lemma_hex_text_shape(rgb: (u8, u8, u8))
    ensures
        hex_text(rgb).len() == 7,
        hex_text(rgb)[0] == '#',
        is_ascii_chars(hex_text(rgb)),
        trim_whitespace(hex_text(rgb)) == hex_text(rgb),
        strip_leading_hashes(hex_text(rgb)) == hex_text(rgb).drop_first(),
        forall|i: int|
            1 <= i < 7 ==> ('0' <= #[trigger] hex_text(rgb)[i] <= '9' || 'A' <= hex_text(rgb)[i]
                <= 'F'),
{
    let t = hex_text(rgb);
    lemma_hex_digit_char((rgb.0 / 16) as int);
    lemma_hex_digit_char((rgb.0 % 16) as int);
    lemma_hex_digit_char((rgb.1 / 16) as int);
    lemma_hex_digit_char((rgb.1 % 16) as int);
    lemma_hex_digit_char((rgb.2 / 16) as int);
    lemma_hex_digit_char((rgb.2 % 16) as int);
    assert(t.len() == 7);
    assert(t[1] == hex_digit_char((rgb.0 / 16) as int));
    assert(t[2] == hex_digit_char((rgb.0 % 16) as int));
    assert(t[3] == hex_digit_char((rgb.1 / 16) as int));
    assert(t[4] == hex_digit_char((rgb.1 % 16) as int));
    assert(t[5] == hex_digit_char((rgb.2 / 16) as int));
    assert(t[6] == hex_digit_char((rgb.2 % 16) as int));
    lemma_trim_identity(t);
    let d = t.drop_first();
    assert(d[0] == t[1]);
    assert(strip_leading_hashes(d) == d);
    assert(strip_leading_hashes(t) == strip_leading_hashes(d));
}

/// Reading back the text of a colour gives the colour: for every colour
/// `c`, `AccentColor::from_str(&c.to_hex())` is `Ok(c)`, and the reading
/// never cuts the text off a character boundary.
pub proof fn lemma_hex_round_trip(rgb: (u8, u8, u8))
    ensures
        !hex_slicing_panics(hex_text(rgb)),
        parse_hex_rgb(hex_text(rgb)) == Some(rgb),
{
    let t = hex_text(rgb);
    lemma_hex_text_shape(rgb);
    lemma_hex_digit_char((rgb.0 / 16) as int);
    lemma_hex_digit_char((rgb.0 % 16) as int);
    lemma_hex_digit_char((rgb.1 / 16) as int);
    lemma_hex_digit_char((rgb.1 % 16) as int);
    lemma_hex_digit_char((rgb.2 / 16) as int);
    lemma_hex_digit_char((rgb.2 % 16) as int);
    let d = t.drop_first();
    assert(is_ascii_chars(d));
    is_ascii_chars_encode_utf8(d);
    let b = encode_utf8(d);
    assert(hex_body(t) == b);
    assert(b.len() == 6);
    assert(b[0] == d[0] as u8);
    assert(b[1] == d[1] as u8);
    assert(b[2] == d[2] as u8);
    assert(b[3] == d[3] as u8);
    assert(b[4] == d[4] as u8);
    assert(b[5] == d[5] as u8);
    assert(d[0] == hex_digit_char((rgb.0 / 16) as int));
    assert(d[1] == hex_digit_char((rgb.0 % 16) as int));
    assert(d[2] == hex_digit_char((rgb.1 / 16) as int));
    assert(d[3] == hex_digit_char((rgb.1 % 16) as int));
    assert(d[4] == hex_digit_char((rgb.2 / 16) as int));
    assert(d[5] == hex_digit_char((rgb.2 % 16) as int));
    assert(radix16_pair(b[0], b[1]) == Some(rgb.0));
    assert(radix16_pair(b[2], b[3]) == Some(rgb.1));
    assert(radix16_pair(b[4], b[5]) == Some(rgb.2));
    encode_utf8_valid_utf8(d);
    is_char_boundary_iff_not_is_continuation_byte(b, 2);
    is_char_boundary_iff_not_is_continuation_byte(b, 4);
}

/// The digits `to_hex` writes are `0123456789ABCDEF`, in that order.
pub proof fn lemma_hex_digit_chars(n: int)
    requires
        0 <= n < 16,
    ensures
        hex_digit_char(n) == seq![
            '0', '1', '2', '3', '4', '5', '6', '7', '8', '9', 'A', 'B', 'C', 'D', 'E', 'F',
        ][n],
{
}

/// A pair of digits reads as `16 * high + low`, in either case, and a pair
/// `+d` reads as the single digit `d`; a pair starting with `-` is refused.
pub proof fn lemma_radix16_pair_reads_digits(n: int, m: int, b: u8)
    requires
        0 <= n < 16,
        0 <= m < 16,
    ensures
        radix16_pair(hex_digit_char(n) as u8, hex_digit_char(m) as u8) == Some((16 * n + m) as u8),
        n >= 10 && m >= 10 ==> radix16_pair(
            (hex_digit_char(n) as u8 + 32) as u8,
            (hex_digit_char(m) as u8 + 32) as u8,
        ) == Some((16 * n + m) as u8),
        radix16_pair(0x2b, hex_digit_char(m) as u8) == Some(m as u8),
        radix16_pair(0x2d, b) is None,
{
    lemma_hex_digit_char(n);
    lemma_hex_digit_char(m);
}

/// Different colours have different texts: `a.to_hex() == b.to_hex()` only
/// when `a == b`.
pub proof fn lemma_hex_text_injective(a: AccentColor, b: AccentColor)
    ensures
        hex_text(a@) == hex_text(b@) ==> a == b,
{
    lemma_hex_round_trip(a@);
    lemma_hex_round_trip(b@);
    lemma_accent_view_injective(a, b);
}

impl AccentColor {
    /// The colour with the given channels.
    pub fn new(red: u8, green: u8, blue: u8) -> (c: Self)
        ensures
            c@ == (red, green, blue),
    {
        Self { red, green, blue }
    }

    /// The red channel.
    pub fn red(self) -> (r: u8)
        ensures
            r == self@.0,
    {
        self.red
    }

    /// The green channel.
    pub fn green(self) -> (g: u8)
        ensures
            g == self@.1,
    {
        self.green
    }

    /// The blue channel.
    pub fn blue(self) -> (b: u8)
        ensures
            b == self@.2,
    {
        self.blue
    }

    /// `#RRGGBB` with upper-case hexadecimal digits.
    pub fn to_hex(self) -> (s: String)
        ensures
            s@ == hex_text(self@),
    {
        let mut s = String::new();
        push_char(&mut s, '#');
        push_char(&mut s, hex_digit(self.red / 16));
        push_char(&mut s, hex_digit(self.red % 16));
        push_char(&mut s, hex_digit(self.green / 16));
        push_char(&mut s, hex_digit(self.green % 16));
        push_char(&mut s, hex_digit(self.blue / 16));
        push_char(&mut s, hex_digit(self.blue % 16));
        assert(s@ =~= hex_text(self@));
        s
    }

    /// Reads a colour from text: surrounding whitespace and any number of
    /// leading `#` are skipped, and the remaining six bytes are read as three
    /// base-16 bytes. Every other text is refused with `Err(())`.
    pub fn from_str(s: &str) -> (r: Result<AccentColor, ()>)
        requires
            !hex_slicing_panics(s@),
        ensures
            match parse_hex_rgb(s@) {
                Some(rgb) => r matches Ok(c) && c@ == rgb,
                None => r is Err,
            },
    {
        let body = hex_body_str(s);
        let bytes = body.as_bytes();
        if bytes.len() != 6 {
            return Err(());
        }
        let red = match read_radix16_pair(bytes[0], bytes[1]) {
            Some(v) => v,
            None => return Err(()),
        };
        let green = match read_radix16_pair(bytes[2], bytes[3]) {
            Some(v) => v,
            None => return Err(()),
        };
        let blue = match read_radix16_pair(bytes[4], bytes[5]) {
            Some(v) => v,
            None => return Err(()),
        };
        Ok(Self::new(red, green, blue))
    }

    /// Whether reading `s` as a colour would cut its body off a character
    /// boundary (see `hex_slicing_panics`); `from_str` is defined on every
    /// other text.
    pub fn from_str_would_panic(s: &str) -> (r: bool)
        ensures
            r == hex_slicing_panics(s@),
    {
        let body = hex_body_str(s);
        let bytes = body.as_bytes();
        if bytes.len() != 6 {
            return false;
        }
        if !body.is_char_boundary(2) {
            return true;
        }
        match read_radix16_pair(bytes[0], bytes[1]) {
            Some(_) => !body.is_char_boundary(4),
            None => false,
        }
    }
}

impl Default for AccentColor {
    fn default() -> (c: Self)
        ensures
            c@ == (0xE8u8, 0x8Au8, 0xABu8),
    {
        Self::new(0xE8, 0x8A, 0xAB)
    }
}

/// The theme of the app: a dark palette around one accent colour.
#[derive(Debug, Clone, Copy, PartialEq, Eq, Structural)]
pub struct PlumeTheme {
    accent: AccentColor,
}

impl PlumeTheme {
    /// The theme around `accent`.
    pub fn new(accent: AccentColor) -> (t: Self)
        ensures
            t.accent_spec() == accent,
    {
        Self { accent }
    }

    /// The accent colour of the theme.
    pub closed spec fn accent_spec(self) -> AccentColor {
        self.accent
    }

    /// The accent colour of the theme.
    pub fn accent(self) -> (a: AccentColor)
        ensures
            a == self.accent_spec(),
    {
        self.accent
    }

    /// The theme's name, `Plume Dark (#RRGGBB)` with the accent's hex text.
    pub fn theme_name(self) -> (s: String)
        ensures
            s@ == theme_name_text(self.accent_spec()@),
    {
        let mut s = String::new();
        push_char(&mut s, 'P');
        push_char(&mut s, 'l');
        push_char(&mut s, 'u');
        push_char(&mut s, 'm');
        push_char(&mut s, 'e');
        push_char(&mut s, ' ');
        push_char(&mut s, 'D');
        push_char(&mut s, 'a');
        push_char(&mut s, 'r');
        push_char(&mut s, 'k');
        push_char(&mut s, ' ');
        push_char(&mut s, '(');
        let hex = self.accent.to_hex();
        s.append(hex.as_str());
        push_char(&mut s, ')');
        assert(s@ =~= theme_name_text(self.accent@));
        s
    }
}

/// A theme is determined by its accent: two themes are equal exactly when
/// their accents are, so `PlumeTheme::new(a) == PlumeTheme::new(b)` exactly
/// when `a == b`, and `PlumeTheme::default()` is the theme around
/// `AccentColor::default()`.
pub proof fn lemma_theme_determined_by_accent(a: PlumeTheme, b: PlumeTheme)
    ensures
        (a == b) <==> (a.accent_spec() == b.accent_spec()),
        (a == b) <==> (a.accent_spec()@ == b.accent_spec()@),
{
    lemma_accent_view_injective(a.accent_spec(), b.accent_spec());
}

impl Default for PlumeTheme {
    fn default() -> (t: Self)
        ensures
            t.accent_spec()@ == (0xE8u8, 0x8Au8, 0xABu8),
    {
        Self::new(AccentColor::default())
    }
}

} // verus!
