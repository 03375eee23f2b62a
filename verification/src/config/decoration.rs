//! What windows are decorated with.
use colors_transform::{AlphaColor, Color, Hsl, Rgb};
use vstd::prelude::*;

verus! {

/// A number that the library hands on without looking at it, by the bits of its single precision
/// representation.
#[derive(Clone, Copy, Debug, PartialEq, Eq, Structural)]
pub struct Single {
    pub bits: u32,
}

/// The bits of zero.
pub const ZERO_BITS: u32 = 0;

/// The bits of one half.
pub const HALF_BITS: u32 = 0x3f00_0000;

/// The bits of one.
pub const ONE_BITS: u32 = 0x3f80_0000;

/// The bits of ten.
pub const TEN_BITS: u32 = 0x4120_0000;

/// A color by its components.
#[derive(Clone, Copy, Debug, PartialEq, Eq, Structural)]
pub struct Rgba {
    pub red: Single,
    pub green: Single,
    pub blue: Single,
    pub alpha: Single,
}

/// What something is colored with.
#[derive(Clone, Copy, Debug, PartialEq, Eq, Structural)]
pub enum ColorConfig {
    Solid(Rgba),
    Gradient { start: Rgba, end: Rgba, angle: Single },
}

impl ColorConfig {
    /// The components of the color, of the first one in a gradient.
    pub fn components(&self) -> (color: Rgba)
        ensures
            color == match *self {
                ColorConfig::Solid(color) => color,
                ColorConfig::Gradient { start, .. } => start,
            },
    {
        match self {
            ColorConfig::Solid(color) => *color,
            ColorConfig::Gradient { start, .. } => *start,
        }
    }
}

/// The thickness of a border unless configured otherwise.
pub fn default_thickness() -> (thickness: u8)
    ensures
        thickness == 2,
{
    2
}

/// The radius of a border unless configured otherwise.
pub fn default_radius() -> (radius: Single)
    ensures
        radius.bits == TEN_BITS,
{
    Single { bits: TEN_BITS }
}

/// The opacity of a window unless configured otherwise.
pub fn default_window_opacity() -> (opacity: Single)
    ensures
        opacity.bits == ONE_BITS,
{
    Single { bits: ONE_BITS }
}

/// The border of a window.
#[derive(Clone, Copy, Debug, PartialEq, Eq, Structural)]
pub struct BorderConfig {
    pub focused_color: ColorConfig,
    pub normal_color: ColorConfig,
    pub thickness: u8,
    pub radius: Single,
}

/// The color with these bits.
pub open spec fn color_of(red: u32, green: u32, blue: u32, alpha: u32) -> ColorConfig {
    ColorConfig::Solid(
        Rgba {
            red: Single { bits: red },
            green: Single { bits: green },
            blue: Single { bits: blue },
            alpha: Single { bits: alpha },
        },
    )
}

/// A border that is not configured: red with the focus, half transparent gray without.
pub open spec fn default_border() -> BorderConfig {
    BorderConfig {
        focused_color: color_of(ONE_BITS, ZERO_BITS, ZERO_BITS, ONE_BITS),
        normal_color: color_of(HALF_BITS, HALF_BITS, HALF_BITS, HALF_BITS),
        thickness: 2,
        radius: Single { bits: TEN_BITS },
    }
}

fn solid(red: u32, green: u32, blue: u32, alpha: u32) -> (color: ColorConfig)
    ensures
        color == color_of(red, green, blue, alpha),
{
    ColorConfig::Solid(
        Rgba {
            red: Single { bits: red },
            green: Single { bits: green },
            blue: Single { bits: blue },
            alpha: Single { bits: alpha },
        },
    )
}

impl Default for BorderConfig {
    fn default() -> (border: BorderConfig)
        ensures
            border == default_border(),
    {
        BorderConfig {
            focused_color: solid(ONE_BITS, ZERO_BITS, ZERO_BITS, ONE_BITS),
            normal_color: solid(HALF_BITS, HALF_BITS, HALF_BITS, HALF_BITS),
            thickness: default_thickness(),
            radius: default_radius(),
        }
    }
}

/// The decorations of windows.
#[derive(Clone, Copy, Debug, PartialEq, Eq, Structural)]
pub struct DecorationConfig {
    pub border: BorderConfig,
    pub focused_window_opacity: Single,
    pub normal_window_opacity: Single,
    /// Whether windows may draw their own decorations.
    pub allow_csd: bool,
}

/// Decorations that are not configured.
pub open spec fn default_decoration() -> DecorationConfig {
    DecorationConfig {
        border: default_border(),
        focused_window_opacity: Single { bits: ONE_BITS },
        normal_window_opacity: Single { bits: ONE_BITS },
        allow_csd: false,
    }
}

impl Default for DecorationConfig {
    fn default() -> (config: DecorationConfig)
        ensures
            config == default_decoration(),
    {
        DecorationConfig {
            border: BorderConfig::default(),
            focused_window_opacity: default_window_opacity(),
            normal_window_opacity: default_window_opacity(),
            allow_csd: false,
        }
    }
}

/// The components of a color, as a parser gives them: the first three on a scale up to 255, the
/// last one on a scale up to 1. All by their bits.
#[derive(Clone, Copy, Debug, PartialEq, Eq, Structural)]
pub struct ParsedColor {
    pub red: u32,
    pub green: u32,
    pub blue: u32,
    pub alpha: u32,
}

/// A text that is not a color.
#[derive(Clone, Copy, Debug, PartialEq, Eq, Structural)]
pub struct InvalidColor;

/// Whether bits stand for something that is not a number.
pub open spec fn not_a_number(bits: u32) -> bool {
    bits % 0x8000_0000 > 0x7f80_0000
}

/// Whether bits stand for the same number, or both for none: what is not a number has no bits of
/// its own.
pub open spec fn same_number(a: u32, b: u32) -> bool {
    a == b || (not_a_number(a) && not_a_number(b))
}

impl ParsedColor {
    /// Whether two colors have the same components.
    pub open spec fn same(self, other: ParsedColor) -> bool {
        &&& same_number(self.red, other.red)
        &&& same_number(self.green, other.green)
        &&& same_number(self.blue, other.blue)
        &&& same_number(self.alpha, other.alpha)
    }
}

/// Whether two attempts to read a color come to the same.
pub open spec fn same_attempt(a: Option<ParsedColor>, b: Option<ParsedColor>) -> bool {
    match (a, b) {
        (Some(a), Some(b)) => a.same(b),
        (None, None) => true,
        _ => false,
    }
}

/// The color that a text describes in hexadecimal digits, as `Rgb::from_hex_str` of
/// `colors_transform` reads it.
pub uninterp spec fn hex_color(text: Seq<char>) -> Option<ParsedColor>;

/// The color that a text describes by red, green and blue, as the parser of `Rgb` of
/// `colors_transform` reads it.
pub uninterp spec fn rgb_color(text: Seq<char>) -> Option<ParsedColor>;

/// The color that a text describes by hue, saturation and lightness, as the parser of `Hsl` of
/// `colors_transform` reads it and its `to_rgb` converts it.
pub uninterp spec fn hsl_color(text: Seq<char>) -> Option<ParsedColor>;

/// Whether a character has the Unicode property `White_Space`.
pub open spec fn is_white_space(c: char) -> bool {
    let code = c as u32;
    ||| 0x9 <= code <= 0xd
    ||| code == 0x20
    ||| code == 0x85
    ||| code == 0xa0
    ||| code == 0x1680
    ||| 0x2000 <= code <= 0x200a
    ||| code == 0x2028
    ||| code == 0x2029
    ||| code == 0x202f
    ||| code == 0x205f
    ||| code == 0x3000
}

/// A text without the white space at its start.
pub open spec fn without_leading_space(text: Seq<char>) -> Seq<char>
    decreases text.len(),
{
    if text.len() > 0 && is_white_space(text[0]) {
        without_leading_space(text.drop_first())
    } else {
        text
    }
}

/// A text without the white space at its end.
pub open spec fn without_trailing_space(text: Seq<char>) -> Seq<char>
    decreases text.len(),
{
    if text.len() > 0 && is_white_space(text.last()) {
        without_trailing_space(text.drop_last())
    } else {
        text
    }
}

/// A text without the white space around it.
pub open spec fn trimmed(text: Seq<char>) -> Seq<char> {
    without_trailing_space(without_leading_space(text))
}

/// `colors_transform::Rgb::from_hex_str`: the result goes by the name [`hex_color`], `None` for
/// an error.
#[verifier::external_body]
fn parse_hex(text: &str) -> (color: Option<ParsedColor>)
    ensures
        color == hex_color(text@),
{
    let rgb = Rgb::from_hex_str(text).ok()?;
    Some(ParsedColor {
        red: rgb.get_red().to_bits(),
        green: rgb.get_green().to_bits(),
        blue: rgb.get_blue().to_bits(),
        alpha: rgb.get_alpha().to_bits(),
    })
}

/// The `FromStr` of `colors_transform::Rgb`: the result goes by the name [`rgb_color`], `None` for
/// an error. Which bits a component has that is not a number is left open.
#[verifier::external_body]
fn parse_rgb(text: &str) -> (color: Option<ParsedColor>)
    ensures
        same_attempt(color, rgb_color(text@)),
{
    let rgb = text.parse::<Rgb>().ok()?;
    Some(ParsedColor {
        red: rgb.get_red().to_bits(),
        green: rgb.get_green().to_bits(),
        blue: rgb.get_blue().to_bits(),
        alpha: rgb.get_alpha().to_bits(),
    })
}

/// The `FromStr` of `colors_transform::Hsl`, and its `to_rgb`: the result goes by the name
/// [`hsl_color`], `None` for an error. Which bits a component has that is not a number is left
/// open.
#[verifier::external_body]
fn parse_hsl(text: &str) -> (color: Option<ParsedColor>)
    ensures
        same_attempt(color, hsl_color(text@)),
{
    let rgb = text.parse::<Hsl>().ok()?.to_rgb();
    Some(ParsedColor {
        red: rgb.get_red().to_bits(),
        green: rgb.get_green().to_bits(),
        blue: rgb.get_blue().to_bits(),
        alpha: rgb.get_alpha().to_bits(),
    })
}

/// `str::trim`: the text without the characters at its start and at its end that have the Unicode
/// property `White_Space`.
#[verifier::external_body]
fn trim(text: &str) -> (r: &str)
    ensures
        r@ == trimmed(text@),
{
    text.trim()
}

/// Whether a text names hue, saturation and lightness: it starts with `hsl`, in letters of either
/// case.
pub open spec fn names_hsl(text: Seq<char>) -> bool {
    &&& text.len() >= 3
    &&& text[0] == 'h' || text[0] == 'H'
    &&& text[1] == 's' || text[1] == 'S'
    &&& text[2] == 'l' || text[2] == 'L'
}

fn is_hsl(text: &str) -> (b: bool)
    ensures
        b == names_hsl(text@),
{
    if text.unicode_len() < 3 {
        return false;
    }
    let (h, s, l) = (text.get_char(0), text.get_char(1), text.get_char(2));
    (h == 'h' || h == 'H') && (s == 's' || s == 'S') && (l == 'l' || l == 'L')
}

/// The color that attempts to read a text come to: hexadecimal digits come first, then what the
/// text names, `named_hsl` telling whether that is hue, saturation and lightness.
pub fn choose_color(
    hex: Option<ParsedColor>,
    named_hsl: bool,
    rgb: Option<ParsedColor>,
    hsl: Option<ParsedColor>,
) -> (color: Result<ParsedColor, InvalidColor>)
    ensures
        color == match (hex, named_hsl, rgb, hsl) {
            (Some(color), _, _, _) => Ok(color),
            (None, true, _, Some(color)) => Ok(color),
            (None, false, Some(color), _) => Ok(color),
            _ => Err(InvalidColor),
        },
{
    match (hex, named_hsl, rgb, hsl) {
        (Some(color), _, _, _) => Ok(color),
        (None, true, _, Some(color)) => Ok(color),
        (None, false, Some(color), _) => Ok(color),
        _ => Err(InvalidColor),
    }
}

/// Read a color from a text: hexadecimal digits, else three numbers, with white space around them
/// or not. The numbers are hue, saturation and lightness where the text names those, and red,
/// green and blue otherwise.
pub fn deserialize(text: &str) -> (color: Result<ParsedColor, InvalidColor>)
    ensures
        match hex_color(text@) {
            Some(hex) => color == Ok::<ParsedColor, InvalidColor>(hex),
            None => match if names_hsl(trimmed(text@)) {
                hsl_color(trimmed(text@))
            } else {
                rgb_color(trimmed(text@))
            } {
                Some(named) => color matches Ok(c) && c.same(named),
                None => color == Err::<ParsedColor, InvalidColor>(InvalidColor),
            },
        },
{
    let hex = parse_hex(text);
    if hex.is_some() {
        return choose_color(hex, false, None, None);
    }
    let text = trim(text);
    if is_hsl(text) {
        choose_color(None, true, None, parse_hsl(text))
    } else {
        choose_color(None, false, parse_rgb(text), None)
    }
}

/// A text that is a color in hexadecimal digits is that color, whatever else it may be. Of any other
/// text the white space around it does not count; if it starts with `hsl` it is read as hue,
/// saturation and lightness, and only as that, and else as red, green and blue.
pub proof fn colors_are_read_as_what_they_name(
    text: &str,
    color: Result<ParsedColor, InvalidColor>,
)
    requires
        call_ensures(deserialize, (text,), color),
    ensures
        hex_color(text@) matches Some(hex) ==> color == Ok::<ParsedColor, InvalidColor>(hex),
        hex_color(text@) is None ==> {
            let inner = trimmed(text@);
            let hsl = inner.len() >= 3 && (inner[0] == 'h' || inner[0] == 'H') && (inner[1] == 's'
                || inner[1] == 'S') && (inner[2] == 'l' || inner[2] == 'L');
            &&& hsl ==> (color is Ok <==> hsl_color(inner) is Some)
            &&& !hsl ==> (color is Ok <==> rgb_color(inner) is Some)
            &&& hsl && color is Ok ==> same_number(color->Ok_0.red, hsl_color(inner)->0.red)
                && same_number(color->Ok_0.green, hsl_color(inner)->0.green) && same_number(
                color->Ok_0.blue,
                hsl_color(inner)->0.blue,
            ) && same_number(color->Ok_0.alpha, hsl_color(inner)->0.alpha)
            &&& !hsl && color is Ok ==> same_number(color->Ok_0.red, rgb_color(inner)->0.red)
                && same_number(color->Ok_0.green, rgb_color(inner)->0.green) && same_number(
                color->Ok_0.blue,
                rgb_color(inner)->0.blue,
            ) && same_number(color->Ok_0.alpha, rgb_color(inner)->0.alpha)
        },
{
}

/// Of several attempts to read a color, hexadecimal digits count first, then the one that the text
/// names; the other one never counts.
pub proof fn named_colors_come_after_digits(
    hex: Option<ParsedColor>,
    named_hsl: bool,
    rgb: Option<ParsedColor>,
    hsl: Option<ParsedColor>,
    color: Result<ParsedColor, InvalidColor>,
)
    requires
        call_ensures(choose_color, (hex, named_hsl, rgb, hsl), color),
    ensures
        hex matches Some(first) ==> color == Ok::<ParsedColor, InvalidColor>(first),
        hex is None ==> match if named_hsl {
            hsl
        } else {
            rgb
        } {
            Some(named) => color == Ok::<ParsedColor, InvalidColor>(named),
            None => color is Err,
        },
{
}

proof fn lemma_leading_space(text: Seq<char>, k: int)
    requires
        0 <= k <= text.len(),
        forall|i: int| 0 <= i < k ==> is_white_space(#[trigger] text[i]),
        k < text.len() ==> !is_white_space(text[k]),
    ensures
        without_leading_space(text) == text.skip(k),
    decreases k,
{
    if k == 0 {
        assert(text.skip(0) =~= text);
    } else {
        let rest = text.drop_first();
        assert forall|i: int| 0 <= i < k - 1 implies is_white_space(#[trigger] rest[i]) by {
            assert(rest[i] == text[i + 1]);
        }
        assert(is_white_space(text[0]));
        lemma_leading_space(rest, k - 1);
        assert(rest.skip(k - 1) =~= text.skip(k));
    }
}

proof fn lemma_trailing_space(text: Seq<char>, k: int)
    requires
        0 <= k <= text.len(),
        forall|i: int| k <= i < text.len() ==> is_white_space(#[trigger] text[i]),
        k > 0 ==> !is_white_space(text[k - 1]),
    ensures
        without_trailing_space(text) == text.take(k),
    decreases text.len() - k,
{
    if k == text.len() {
        assert(text.take(k) =~= text);
    } else {
        let rest = text.drop_last();
        assert(is_white_space(text[text.len() - 1]));
        assert forall|i: int| k <= i < rest.len() implies is_white_space(#[trigger] rest[i]) by {
            assert(rest[i] == text[i]);
        }
        lemma_trailing_space(rest, k);
        assert(rest.take(k) =~= text.take(k));
    }
}

/// White space around a text does not count: between the first and the last character that is none,
/// everything stays, blanks as well.
pub proof fn only_outer_space_is_trimmed(text: Seq<char>, first: int, last: int)
    requires
        0 <= first <= last < text.len(),
        !is_white_space(text[first]),
        !is_white_space(text[last]),
        forall|i: int| 0 <= i < first ==> is_white_space(#[trigger] text[i]),
        forall|i: int| last < i < text.len() ==> is_white_space(#[trigger] text[i]),
    ensures
        trimmed(text) == text.subrange(first, last + 1),
        is_white_space(' '),
        !is_white_space('h'),
{
    lemma_leading_space(text, first);
    let rest = text.skip(first);
    assert forall|i: int| last + 1 - first <= i < rest.len() implies is_white_space(
        #[trigger] rest[i],
    ) by {
        assert(rest[i] == text[first + i]);
    }
    assert(rest[last - first] == text[last]);
    lemma_trailing_space(rest, last + 1 - first);
    assert(rest.take(last + 1 - first) =~= text.subrange(first, last + 1));
}

/// The components of a color are its own, and those of a gradient are those that it starts with.
pub proof fn gradients_start_with_their_first_color(config: &ColorConfig, color: Rgba)
    requires
        call_ensures(ColorConfig::components, (config,), color),
    ensures
        *config matches ColorConfig::Solid(solid) ==> color == solid,
        *config matches ColorConfig::Gradient { start, .. } ==> color == start,
{
}

/// Windows are decorated with a border of two pixels and a radius of ten, red with the focus and half
/// gray without, are opaque, and do not decorate themselves, unless configured otherwise.
pub proof fn decorations_have_defaults(config: DecorationConfig)
    requires
        config == default_decoration(),
    ensures
        config.border.thickness == 2,
        config.border.radius.bits == 0x4120_0000,
        config.focused_window_opacity.bits == 0x3f80_0000,
        config.normal_window_opacity.bits == 0x3f80_0000,
        !config.allow_csd,
        config.border.focused_color is Solid,
        config.border.focused_color->Solid_0.red.bits == 0x3f80_0000,
        config.border.focused_color->Solid_0.green.bits == 0,
        config.border.focused_color->Solid_0.blue.bits == 0,
        config.border.focused_color->Solid_0.alpha.bits == 0x3f80_0000,
        config.border.normal_color is Solid,
        config.border.normal_color->Solid_0.red.bits == 0x3f00_0000,
        config.border.normal_color->Solid_0.green.bits == 0x3f00_0000,
        config.border.normal_color->Solid_0.blue.bits == 0x3f00_0000,
        config.border.normal_color->Solid_0.alpha.bits == 0x3f00_0000,
{
}

} // verus!
