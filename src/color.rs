//! Terminal colors in four capability tiers, and the downgrade of a color to a
//! less capable tier.
use vstd::prelude::*;
use vstd::string::StringExecFns;
use crate::digits::{decimal, hex_pair, push_decimal, push_hex_pair};

verus! {

/// An RGB value with 8-bit channels.
#[derive(Clone, Copy, Debug, PartialEq, Eq, Structural)]
pub struct ColorTriplet {
    pub red: u8,
    pub green: u8,
    pub blue: u8,
}

/// `#` followed by two lower-case hexadecimal digits per channel.
pub open spec fn hex_name(t: ColorTriplet) -> Seq<char> {
    seq!['#'] + hex_pair(t.red) + hex_pair(t.green) + hex_pair(t.blue)
}

impl ColorTriplet {
    pub fn new(red: u8, green: u8, blue: u8) -> (r: Self)
        ensures
            r == (ColorTriplet { red, green, blue }),
    {
        ColorTriplet { red, green, blue }
    }

    /// The color as `#rrggbb`.
    pub fn to_hex(&self) -> (r: String)
        ensures
            r@ == hex_name(*self),
    {
        let mut out = String::from_str("#");
        proof {
            reveal_strlit("#");
        }
        push_hex_pair(&mut out, self.red);
        push_hex_pair(&mut out, self.green);
        push_hex_pair(&mut out, self.blue);
        assert(out@ =~= hex_name(*self));
        out
    }
}

/// The capability tier of a terminal.
#[derive(Clone, Copy, Debug, PartialEq, Eq, Structural)]
pub enum ColorSystem {
    Standard,
    EightBit,
    TrueColor,
    Windows,
}

/// Capability rank of a tier: Standard is the least capable.
pub open spec fn rank(s: ColorSystem) -> int {
    match s {
        ColorSystem::Standard => 1,
        ColorSystem::EightBit => 2,
        ColorSystem::TrueColor => 3,
        ColorSystem::Windows => 4,
    }
}

impl ColorSystem {
    pub open spec fn spec_to_type(self) -> ColorType {
        match self {
            ColorSystem::Standard => ColorType::Standard,
            ColorSystem::EightBit => ColorType::EightBit,
            ColorSystem::TrueColor => ColorType::TrueColor,
            ColorSystem::Windows => ColorType::Windows,
        }
    }

    /// The color representation native to this tier.
    pub fn to_type(&self) -> (r: ColorType)
        ensures
            r == self.spec_to_type(),
    {
        match self {
            ColorSystem::Standard => ColorType::Standard,
            ColorSystem::EightBit => ColorType::EightBit,
            ColorSystem::TrueColor => ColorType::TrueColor,
            ColorSystem::Windows => ColorType::Windows,
        }
    }

    /// Capability rank of this tier (Standard 1, EightBit 2, TrueColor 3, Windows 4).
    pub fn rank(&self) -> (r: u8)
        ensures
            r as int == rank(*self),
    {
        match self {
            ColorSystem::Standard => 1,
            ColorSystem::EightBit => 2,
            ColorSystem::TrueColor => 3,
            ColorSystem::Windows => 4,
        }
    }
}

/// Which representation a `Color` holds.
#[derive(Clone, Copy, Debug, PartialEq, Eq, Structural)]
pub enum ColorType {
    Default,
    Standard,
    EightBit,
    TrueColor,
    Windows,
}

impl ColorType {
    pub open spec fn spec_to_system(self) -> ColorSystem {
        match self {
            ColorType::Default | ColorType::Standard => ColorSystem::Standard,
            ColorType::EightBit => ColorSystem::EightBit,
            ColorType::TrueColor => ColorSystem::TrueColor,
            ColorType::Windows => ColorSystem::Windows,
        }
    }

    /// The tier this representation belongs to.
    pub fn to_system(&self) -> (r: ColorSystem)
        ensures
            r == self.spec_to_system(),
    {
        match self {
            ColorType::Default | ColorType::Standard => ColorSystem::Standard,
            ColorType::EightBit => ColorSystem::EightBit,
            ColorType::TrueColor => ColorSystem::TrueColor,
            ColorType::Windows => ColorSystem::Windows,
        }
    }
}

impl Default for ColorType {
    fn default() -> (r: Self)
        ensures
            r == ColorType::Default,
    {
        ColorType::Default
    }
}


/// A terminal color: the terminal's default, a palette index, an RGB value, or
/// the Windows console reset.
#[derive(Debug, PartialEq)]
pub struct Color {
    pub name: String,
    pub ctype: ColorType,
    pub number: Option<u8>,
    pub triplet: Option<ColorTriplet>,
}

/// The value of a `Color`, with its name as characters.
pub struct ColorModel {
    pub name: Seq<char>,
    pub ctype: ColorType,
    pub number: Option<u8>,
    pub triplet: Option<ColorTriplet>,
}

impl View for Color {
    type V = ColorModel;

    open spec fn view(&self) -> ColorModel {
        ColorModel {
            name: self.name@,
            ctype: self.ctype,
            number: self.number,
            triplet: self.triplet,
        }
    }
}

impl ColorModel {
    pub open spec fn system(self) -> ColorSystem {
        self.ctype.spec_to_system()
    }

    /// The payload fields agree with the representation.
    pub open spec fn wf(self) -> bool {
        match self.ctype {
            ColorType::Default | ColorType::Windows => self.number is None && self.triplet is None,
            ColorType::Standard => self.triplet is None && self.number is Some
                && self.number->0 < 16,
            ColorType::EightBit => self.triplet is None && self.number is Some,
            ColorType::TrueColor => self.number is None && self.triplet is Some,
        }
    }
}

/// The terminal's default color.
pub open spec fn default_color() -> ColorModel {
    ColorModel {
        name: seq!['d', 'e', 'f', 'a', 'u', 'l', 't'],
        ctype: ColorType::Default,
        number: None,
        triplet: None,
    }
}

/// The palette color of an index: Standard below sixteen, EightBit from there on.
pub open spec fn indexed_color(n: u8) -> ColorModel {
    ColorModel {
        name: seq!['c', 'o', 'l', 'o', 'r', '('] + decimal(n as nat) + seq![')'],
        ctype: if n < 16 {
            ColorType::Standard
        } else {
            ColorType::EightBit
        },
        number: Some(n),
        triplet: None,
    }
}

/// The true color of an RGB value, named by its hex spelling.
pub open spec fn rgb_color(t: ColorTriplet) -> ColorModel {
    ColorModel { name: hex_name(t), ctype: ColorType::TrueColor, number: None, triplet: Some(t) }
}

/// Largest channel of an RGB value.
pub open spec fn channel_max(t: ColorTriplet) -> int {
    if t.red >= t.green && t.red >= t.blue {
        t.red as int
    } else if t.green >= t.blue {
        t.green as int
    } else {
        t.blue as int
    }
}

/// Smallest channel of an RGB value.
pub open spec fn channel_min(t: ColorTriplet) -> int {
    if t.red <= t.green && t.red <= t.blue {
        t.red as int
    } else if t.green <= t.blue {
        t.green as int
    } else {
        t.blue as int
    }
}

/// HSL saturation of `t` is below 1/10. With channels scaled to `[0, 1]`,
/// lightness is `(max + min) / 2` and saturation is `(max - min) / (max + min)`
/// up to lightness one half, `(max - min) / (2 - max - min)` above it; both
/// sides are multiplied out here over the 0..255 channel values.
pub open spec fn is_grayish(t: ColorTriplet) -> bool {
    let d = channel_max(t) - channel_min(t);
    let sum = channel_max(t) + channel_min(t);
    if d == 0 {
        true
    } else if sum > 255 {
        10 * d < 510 - sum
    } else {
        10 * d < sum
    }
}

/// HSL lightness on a 0..25 scale, rounded half up: `round(25 * (max + min) / 510)`.
pub open spec fn gray_level(t: ColorTriplet) -> int {
    (10 * (channel_max(t) + channel_min(t)) + 102) / 204
}

/// A channel quantized to the six levels of the color cube: `round(5 * c / 255)`.
pub open spec fn cube_level(c: u8) -> int {
    (10 * c + 255) / 510
}

/// The 256-color palette index of an RGB value: the gray ramp for a
/// near-gray value (index 16 for black, 231 for white, `231 + level` between),
/// else the entry `16 + 36 r + 6 g + b` of the 6x6x6 color cube.
pub open spec fn eight_bit_index(t: ColorTriplet) -> int {
    if is_grayish(t) {
        let g = gray_level(t);
        if g == 0 {
            16
        } else if g == 25 {
            231
        } else {
            231 + g
        }
    } else {
        16 + 36 * cube_level(t.red) + 6 * cube_level(t.green) + cube_level(t.blue)
    }
}

/// What `downgrade` gives: a true color taken to EightBit is mapped to its
/// palette index; every other color and target pair keeps the color.
pub open spec fn downgrade_spec(c: ColorModel, target: ColorSystem) -> ColorModel {
    if c.ctype == ColorType::TrueColor && target == ColorSystem::EightBit && c.triplet is Some {
        indexed_color(eight_bit_index(c.triplet->0) as u8)
    } else {
        c
    }
}

impl Clone for Color {
    fn clone(&self) -> (r: Self)
        ensures
            r@ == self@,
    {
        Color {
            name: self.name.clone(),
            ctype: self.ctype,
            number: self.number,
            triplet: self.triplet,
        }
    }
}

impl Default for Color {
    fn default() -> (r: Self)
        ensures
            r@ == default_color(),
    {
        let name = String::from_str("default");
        proof {
            reveal_strlit("default");
        }
        assert(name@ =~= default_color().name);
        Color { name, ctype: ColorType::Default, number: None, triplet: None }
    }
}

impl Color {
    /// The palette color of an index: Standard below sixteen, else EightBit.
    pub fn from_index(num: u8) -> (r: Color)
        ensures
            r@ == indexed_color(num),
            r@.wf(),
    {
        let ctype = if num < 16 {
            ColorType::Standard
        } else {
            ColorType::EightBit
        };
        let mut name = String::from_str("color(");
        proof {
            reveal_strlit("color(");
            reveal_strlit(")");
        }
        push_decimal(&mut name, num as u64);
        name.append(")");
        assert(name@ =~= indexed_color(num).name);
        Color { name, ctype, number: Some(num), triplet: None }
    }

    /// The true color of an RGB value.
    pub fn from_triplet(t: ColorTriplet) -> (r: Color)
        ensures
            r@ == rgb_color(t),
            r@.wf(),
    {
        Color { name: t.to_hex(), ctype: ColorType::TrueColor, number: None, triplet: Some(t) }
    }

    /// The tier implied by the representation.
    pub fn system(&self) -> (r: ColorSystem)
        ensures
            r == self@.system(),
    {
        self.ctype.to_system()
    }

    /// True when the color's meaning depends on the terminal's own palette
    /// (Default, Standard, Windows), false for EightBit and TrueColor.
    pub fn is_system_defined(&self) -> (r: bool)
        ensures
            r == !(self@.system() == ColorSystem::EightBit || self@.system()
                == ColorSystem::TrueColor),
    {
        match self.system() {
            ColorSystem::EightBit | ColorSystem::TrueColor => false,
            _ => true,
        }
    }

    pub fn is_default(&self) -> (r: bool)
        ensures
            r == (self.ctype == ColorType::Default),
    {
        self.ctype == ColorType::Default
    }

    pub fn from_rgb(red: u8, green: u8, blue: u8) -> (r: Self)
        ensures
            r@ == rgb_color(ColorTriplet { red, green, blue }),
    {
        Self::from_triplet(ColorTriplet::new(red, green, blue))
    }
}

/// The SGR parameters of a color in its own tier: `39`/`49` for the default,
/// `0` for Windows, `30+n`/`40+n` for Standard, `38;5;n`/`48;5;n` for
/// EightBit, `38;2;r;g;b`/`48;2;r;g;b` for TrueColor. A missing index counts
/// as 0 and a missing RGB value as black.
pub open spec fn color_codes(c: ColorModel, foreground: bool) -> Seq<char> {
    let n: nat = if c.number is Some {
        c.number->0 as nat
    } else {
        0
    };
    let t = if c.triplet is Some {
        c.triplet->0
    } else {
        ColorTriplet { red: 0, green: 0, blue: 0 }
    };
    let lead = if foreground {
        '3'
    } else {
        '4'
    };
    match c.ctype {
        ColorType::Default => seq![lead, '9'],
        ColorType::Windows => seq!['0'],
        ColorType::Standard => decimal(
            if foreground {
                30 + n
            } else {
                40 + n
            },
        ),
        ColorType::EightBit => seq![lead, '8', ';', '5', ';'] + decimal(n),
        ColorType::TrueColor => seq![lead, '8', ';', '2', ';'] + decimal(t.red as nat) + seq![';']
            + decimal(t.green as nat) + seq![';'] + decimal(t.blue as nat),
    }
}

/// Appends `;` to `out`.
fn push_semicolon(out: &mut String)
    ensures
        final(out)@ == old(out)@ + seq![';'],
{
    out.append(";");
    proof {
        reveal_strlit(";");
    }
    assert(final(out)@ =~= old(out)@ + seq![';']);
}

impl Color {
    /// The SGR parameters of this color in its own tier, with no downgrade.
    pub fn get_ansi_codes(&self, foreground: bool) -> (r: String)
        ensures
            r@ == color_codes(self@, foreground),
    {
        let n: u8 = match self.number {
            Some(n) => n,
            None => 0,
        };
        let t = match self.triplet {
            Some(t) => t,
            None => ColorTriplet { red: 0, green: 0, blue: 0 },
        };
        proof {
            reveal_strlit("39");
            reveal_strlit("49");
            reveal_strlit("0");
            reveal_strlit("38;5;");
            reveal_strlit("48;5;");
            reveal_strlit("38;2;");
            reveal_strlit("48;2;");
        }
        let mut out = String::new();
        match self.ctype {
            ColorType::Default => {
                out.append(
                    if foreground {
                        "39"
                    } else {
                        "49"
                    },
                );
            },
            ColorType::Windows => {
                out.append("0");
            },
            ColorType::Standard => {
                let base: u64 = if foreground {
                    30
                } else {
                    40
                };
                push_decimal(&mut out, base + n as u64);
            },
            ColorType::EightBit => {
                out.append(
                    if foreground {
                        "38;5;"
                    } else {
                        "48;5;"
                    },
                );
                push_decimal(&mut out, n as u64);
            },
            ColorType::TrueColor => {
                out.append(
                    if foreground {
                        "38;2;"
                    } else {
                        "48;2;"
                    },
                );
                push_decimal(&mut out, t.red as u64);
                push_semicolon(&mut out);
                push_decimal(&mut out, t.green as u64);
                push_semicolon(&mut out);
                push_decimal(&mut out, t.blue as u64);
            },
        }
        assert(out@ =~= color_codes(self@, foreground));
        out
    }
}

/// The palette index `eight_bit_index(t)`, computed over the channel values.
pub fn eight_bit_index_of(t: ColorTriplet) -> (r: u8)
    ensures
        r as int == eight_bit_index(t),
        16 <= r,
{
    let (r, g, b) = (t.red as u32, t.green as u32, t.blue as u32);
    let mx: u32 = if r >= g && r >= b {
        r
    } else if g >= b {
        g
    } else {
        b
    };
    let mn: u32 = if r <= g && r <= b {
        r
    } else if g <= b {
        g
    } else {
        b
    };
    let d = mx - mn;
    let sum = mx + mn;
    let grayish = if d == 0 {
        true
    } else if sum > 255 {
        10 * d < 510 - sum
    } else {
        10 * d < sum
    };
    if grayish {
        let level = (10 * sum + 102) / 204;
        assert(level <= 25) by (nonlinear_arith)
            requires
                sum <= 510,
                level == (10 * sum + 102) / 204,
        ;
        if level == 0 {
            16
        } else if level == 25 {
            231
        } else {
            (231 + level) as u8
        }
    } else {
        let lr = (10 * r + 255) / 510;
        let lg = (10 * g + 255) / 510;
        let lb = (10 * b + 255) / 510;
        assert(lr <= 5 && lg <= 5 && lb <= 5) by (nonlinear_arith)
            requires
                r <= 255,
                g <= 255,
                b <= 255,
                lr == (10 * r + 255) / 510,
                lg == (10 * g + 255) / 510,
                lb == (10 * b + 255) / 510,
        ;
        (16 + 36 * lr + 6 * lg + lb) as u8
    }
}

impl Color {
    /// A color renderable at `downto`: a true color taken to EightBit becomes
    /// its palette entry (gray ramp or color cube); any other pair, including
    /// the Standard tier, for which no mapping is defined, keeps the color.
    pub fn downgrade(&self, downto: ColorSystem) -> (r: Self)
        ensures
            r@ == downgrade_spec(self@, downto),
    {
        if self.system() == ColorSystem::TrueColor && downto == ColorSystem::EightBit {
            if let Some(t) = self.triplet {
                return Color::from_index(eight_bit_index_of(t));
            }
        }
        self.clone()
    }
}

impl From<u8> for Color {
    fn from(num: u8) -> (r: Self)
        ensures
            r@ == indexed_color(num),
    {
        Color::from_index(num)
    }
}

impl vstd::std_specs::convert::FromSpecImpl<u8> for Color {
    open spec fn obeys_from_spec() -> bool {
        false
    }

    open spec fn from_spec(v: u8) -> Self {
        arbitrary()
    }
}

impl From<ColorTriplet> for Color {
    fn from(t: ColorTriplet) -> (r: Self)
        ensures
            r@ == rgb_color(t),
    {
        Color::from_triplet(t)
    }
}

impl vstd::std_specs::convert::FromSpecImpl<ColorTriplet> for Color {
    open spec fn obeys_from_spec() -> bool {
        false
    }

    open spec fn from_spec(v: ColorTriplet) -> Self {
        arbitrary()
    }
}

/// Downgrading a color to the tier it already belongs to gives it back unchanged.
pub proof fn lemma_downgrade_same_tier(c: ColorModel, target: ColorSystem)
    requires
        c.system() == target,
    ensures
        downgrade_spec(c, target) == c,
{
}

/// Downgrading twice to the same tier gives what downgrading once gives.
pub proof fn lemma_downgrade_idempotent(c: ColorModel, target: ColorSystem)
    ensures
        downgrade_spec(downgrade_spec(c, target), target) == downgrade_spec(c, target),
{
    if c.ctype == ColorType::TrueColor && target == ColorSystem::EightBit && c.triplet is Some {
        lemma_eight_bit_index_range(c.triplet->0);
    }
}

/// A near-gray RGB value lands on the gray ramp: index 16 for black, 231 for
/// white, `231 + level` in 232..=255 between.
pub proof fn lemma_gray_ramp(t: ColorTriplet)
    requires
        is_grayish(t),
    ensures
        0 <= gray_level(t) <= 25,
        gray_level(t) == 0 ==> eight_bit_index(t) == 16,
        gray_level(t) == 25 ==> eight_bit_index(t) == 231,
        0 < gray_level(t) < 25 ==> eight_bit_index(t) == 231 + gray_level(t),
        eight_bit_index(t) == 16 || eight_bit_index(t) == 231 || 232 <= eight_bit_index(t)
            <= 255,
{
    let sum = channel_max(t) + channel_min(t);
    assert(0 <= (10 * sum + 102) / 204 <= 25) by (nonlinear_arith)
        requires
            0 <= sum <= 510,
    ;
}

/// A chromatic RGB value lands in the 6x6x6 color cube, indices 16..=231.
pub proof fn lemma_color_cube(t: ColorTriplet)
    requires
        !is_grayish(t),
    ensures
        eight_bit_index(t) == 16 + 36 * cube_level(t.red) + 6 * cube_level(t.green) + cube_level(
            t.blue,
        ),
        16 <= eight_bit_index(t) <= 231,
{
    lemma_cube_level_range(t.red);
    lemma_cube_level_range(t.green);
    lemma_cube_level_range(t.blue);
}

proof fn lemma_cube_level_range(c: u8)
    ensures
        0 <= cube_level(c) <= 5,
{
    assert(0 <= (10 * c + 255) / 510 <= 5) by (nonlinear_arith)
        requires
            0 <= c <= 255,
    ;
}

/// Every palette index of an RGB value is at least 16, and fits a byte.
pub proof fn lemma_eight_bit_index_range(t: ColorTriplet)
    ensures
        16 <= eight_bit_index(t) <= 255,
{
    if is_grayish(t) {
        lemma_gray_ramp(t);
    } else {
        lemma_color_cube(t);
    }
}

} // verus!
