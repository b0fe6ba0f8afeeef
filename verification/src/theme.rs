//! Catppuccin Mocha palette and the threshold → colour rules of the
//! dashboards (battery gauge, RSSI chip, sensor health chips).

use vstd::prelude::*;

use crate::text::{push_char, hex_byte, hex_digit_char};

verus! {

/// A 24-bit RGB colour.
#[derive(Clone, Copy, Debug, PartialEq, Eq, Structural)]
pub struct Rgb {
    /// Red channel.
    pub r: u8,
    /// Green channel.
    pub g: u8,
    /// Blue channel.
    pub b: u8,
}

/// The named colours of the Catppuccin Mocha palette used by the dashboards.
#[derive(Clone, Copy, Debug, PartialEq, Eq, Structural)]
pub enum Swatch {
    /// App background.
    Base,
    /// Panel fill.
    Mantle,
    /// Tracks / wells (chart backgrounds).
    Crust,
    /// Panel outline.
    Border,
    /// Chip frame / separators.
    Surface0,
    /// X-axis / faint strokes.
    Surface2,
    /// Values / clock.
    Text,
    /// Sensor names.
    Subtext1,
    /// Panel titles / cardinals.
    Subtext0,
    /// Section labels / units / dew point.
    Overlay2,
    /// Min / max axes / maintenance.
    Overlay1,
    /// Dimmed labels.
    Overlay0,
    /// Air temperature.
    Peach,
    /// Sky temperature.
    Lavender,
    /// Pressure / battery gauge / gust.
    Teal,
    /// Humidity.
    Sapphire,
    /// Luminosity / solar / warn.
    Yellow,
    /// Rain.
    Blue,
    /// Wind / compass.
    Sky,
    /// Battery / charging / OK.
    Green,
    /// Load draw.
    Mauve,
    /// Fault / North marker.
    Red,
}

/// The RGB value of each swatch.
pub open spec fn swatch_rgb(w: Swatch) -> Rgb {
    match w {
        Swatch::Base => Rgb { r: 0x1e, g: 0x1e, b: 0x2e },
        Swatch::Mantle => Rgb { r: 0x18, g: 0x18, b: 0x25 },
        Swatch::Crust => Rgb { r: 0x11, g: 0x11, b: 0x1b },
        Swatch::Border => Rgb { r: 0x2a, g: 0x2a, b: 0x3c },
        Swatch::Surface0 => Rgb { r: 0x31, g: 0x32, b: 0x44 },
        Swatch::Surface2 => Rgb { r: 0x58, g: 0x5b, b: 0x70 },
        Swatch::Text => Rgb { r: 0xcd, g: 0xd6, b: 0xf4 },
        Swatch::Subtext1 => Rgb { r: 0xba, g: 0xc2, b: 0xde },
        Swatch::Subtext0 => Rgb { r: 0xa6, g: 0xad, b: 0xc8 },
        Swatch::Overlay2 => Rgb { r: 0x93, g: 0x99, b: 0xb2 },
        Swatch::Overlay1 => Rgb { r: 0x7f, g: 0x84, b: 0x9c },
        Swatch::Overlay0 => Rgb { r: 0x6c, g: 0x70, b: 0x86 },
        Swatch::Peach => Rgb { r: 0xfa, g: 0xb3, b: 0x87 },
        Swatch::Lavender => Rgb { r: 0xb4, g: 0xbe, b: 0xfe },
        Swatch::Teal => Rgb { r: 0x94, g: 0xe2, b: 0xd5 },
        Swatch::Sapphire => Rgb { r: 0x74, g: 0xc7, b: 0xec },
        Swatch::Yellow => Rgb { r: 0xf9, g: 0xe2, b: 0xaf },
        Swatch::Blue => Rgb { r: 0x89, g: 0xb4, b: 0xfa },
        Swatch::Sky => Rgb { r: 0x89, g: 0xdc, b: 0xeb },
        Swatch::Green => Rgb { r: 0xa6, g: 0xe3, b: 0xa1 },
        Swatch::Mauve => Rgb { r: 0xcb, g: 0xa6, b: 0xf7 },
        Swatch::Red => Rgb { r: 0xf3, g: 0x8b, b: 0xa8 },
    }
}

impl Swatch {
    /// The RGB value of this swatch.
    pub fn rgb(self) -> (c: Rgb)
        ensures
            c == swatch_rgb(self),
    {
        match self {
            Swatch::Base => Rgb { r: 0x1e, g: 0x1e, b: 0x2e },
            Swatch::Mantle => Rgb { r: 0x18, g: 0x18, b: 0x25 },
            Swatch::Crust => Rgb { r: 0x11, g: 0x11, b: 0x1b },
            Swatch::Border => Rgb { r: 0x2a, g: 0x2a, b: 0x3c },
            Swatch::Surface0 => Rgb { r: 0x31, g: 0x32, b: 0x44 },
            Swatch::Surface2 => Rgb { r: 0x58, g: 0x5b, b: 0x70 },
            Swatch::Text => Rgb { r: 0xcd, g: 0xd6, b: 0xf4 },
            Swatch::Subtext1 => Rgb { r: 0xba, g: 0xc2, b: 0xde },
            Swatch::Subtext0 => Rgb { r: 0xa6, g: 0xad, b: 0xc8 },
            Swatch::Overlay2 => Rgb { r: 0x93, g: 0x99, b: 0xb2 },
            Swatch::Overlay1 => Rgb { r: 0x7f, g: 0x84, b: 0x9c },
            Swatch::Overlay0 => Rgb { r: 0x6c, g: 0x70, b: 0x86 },
            Swatch::Peach => Rgb { r: 0xfa, g: 0xb3, b: 0x87 },
            Swatch::Lavender => Rgb { r: 0xb4, g: 0xbe, b: 0xfe },
            Swatch::Teal => Rgb { r: 0x94, g: 0xe2, b: 0xd5 },
            Swatch::Sapphire => Rgb { r: 0x74, g: 0xc7, b: 0xec },
            Swatch::Yellow => Rgb { r: 0xf9, g: 0xe2, b: 0xaf },
            Swatch::Blue => Rgb { r: 0x89, g: 0xb4, b: 0xfa },
            Swatch::Sky => Rgb { r: 0x89, g: 0xdc, b: 0xeb },
            Swatch::Green => Rgb { r: 0xa6, g: 0xe3, b: 0xa1 },
            Swatch::Mauve => Rgb { r: 0xcb, g: 0xa6, b: 0xf7 },
            Swatch::Red => Rgb { r: 0xf3, g: 0x8b, b: 0xa8 },
        }
    }
}

/// Battery state-of-charge → gauge colour: green from 50 %, yellow from
/// 20 %, red below.
pub open spec fn battery_color_spec(pct: u8) -> Swatch {
    if pct >= 50 {
        Swatch::Green
    } else if pct >= 20 {
        Swatch::Yellow
    } else {
        Swatch::Red
    }
}

/// Battery state-of-charge → gauge/percent colour.
pub fn battery_color(pct: u8) -> (c: Swatch)
    ensures
        c == battery_color_spec(pct),
{
    if pct >= 50 {
        Swatch::Green
    } else if pct >= 20 {
        Swatch::Yellow
    } else {
        Swatch::Red
    }
}

/// RSSI → chip colour: green from -70 dBm, yellow from -90 dBm, red below.
pub open spec fn rssi_color_spec(dbm: i16) -> Swatch {
    if dbm >= -70 {
        Swatch::Green
    } else if dbm >= -90 {
        Swatch::Yellow
    } else {
        Swatch::Red
    }
}

/// BLE RSSI dBm → chip colour.
pub fn rssi_color(dbm: i16) -> (c: Swatch)
    ensures
        c == rssi_color_spec(dbm),
{
    if dbm >= -70 {
        Swatch::Green
    } else if dbm >= -90 {
        Swatch::Yellow
    } else {
        Swatch::Red
    }
}

/// Health of one sensor chip in the diagnostics bar.
#[derive(Clone, Copy, Debug, PartialEq, Eq, Structural)]
pub enum Health {
    /// Sensor reports normally.
    Good,
    /// Sensor works but flags a warning (divergence, occlusion).
    Alert,
    /// Sensor reports a fault.
    Fault,
}

/// A chip's health from its fault flag and its warning flag: a fault wins
/// over a warning.
pub fn chip_health(fault: bool, warning: bool) -> (h: Health)
    ensures
        fault ==> h == Health::Fault,
        !fault && warning ==> h == Health::Alert,
        !fault && !warning ==> h == Health::Good,
{
    if fault {
        Health::Fault
    } else if warning {
        Health::Alert
    } else {
        Health::Good
    }
}

/// Legend colour of a health state: green, yellow, red.
pub open spec fn health_color_spec(h: Health) -> Swatch {
    match h {
        Health::Good => Swatch::Green,
        Health::Alert => Swatch::Yellow,
        Health::Fault => Swatch::Red,
    }
}

/// Legend colour of a health state (`● ok  ● alerte  ● panne`).
pub fn health_color(h: Health) -> (c: Swatch)
    ensures
        c == health_color_spec(h),
{
    match h {
        Health::Good => Swatch::Green,
        Health::Alert => Swatch::Yellow,
        Health::Fault => Swatch::Red,
    }
}

/// The CSS form `#rrggbb` of a colour, lower-case hex.
pub open spec fn css_text(c: Rgb) -> Seq<char> {
    seq!['#', hex_digit_char((c.r / 16) as nat), hex_digit_char((c.r % 16) as nat),
        hex_digit_char((c.g / 16) as nat), hex_digit_char((c.g % 16) as nat),
        hex_digit_char((c.b / 16) as nat), hex_digit_char((c.b % 16) as nat)]
}

/// CSS hex colour string `#rrggbb` for a palette entry.
pub fn css(c: Rgb) -> (s: String)
    ensures
        s@ == css_text(c),
{
    let mut s = String::new();
    push_char(&mut s, '#');
    hex_byte(&mut s, c.r);
    hex_byte(&mut s, c.g);
    hex_byte(&mut s, c.b);
    s
}

/// CSS custom-property name of a swatch (`--base`, `--peach`, ...).
pub open spec fn swatch_name_spec(w: Swatch) -> Seq<char> {
    match w {
        Swatch::Base => "base"@,
        Swatch::Mantle => "mantle"@,
        Swatch::Crust => "crust"@,
        Swatch::Border => "border"@,
        Swatch::Surface0 => "surface0"@,
        Swatch::Surface2 => "surface2"@,
        Swatch::Text => "text"@,
        Swatch::Subtext1 => "subtext1"@,
        Swatch::Subtext0 => "subtext0"@,
        Swatch::Overlay2 => "overlay2"@,
        Swatch::Overlay1 => "overlay1"@,
        Swatch::Overlay0 => "overlay0"@,
        Swatch::Peach => "peach"@,
        Swatch::Lavender => "lavender"@,
        Swatch::Teal => "teal"@,
        Swatch::Sapphire => "sapphire"@,
        Swatch::Yellow => "yellow"@,
        Swatch::Blue => "blue"@,
        Swatch::Sky => "sky"@,
        Swatch::Green => "green"@,
        Swatch::Mauve => "mauve"@,
        Swatch::Red => "red"@,
    }
}

/// CSS custom-property name of a swatch, without the leading dashes.
pub fn swatch_name(w: Swatch) -> (s: &'static str)
    ensures
        s@ == swatch_name_spec(w),
{
    match w {
        Swatch::Base => "base",
        Swatch::Mantle => "mantle",
        Swatch::Crust => "crust",
        Swatch::Border => "border",
        Swatch::Surface0 => "surface0",
        Swatch::Surface2 => "surface2",
        Swatch::Text => "text",
        Swatch::Subtext1 => "subtext1",
        Swatch::Subtext0 => "subtext0",
        Swatch::Overlay2 => "overlay2",
        Swatch::Overlay1 => "overlay1",
        Swatch::Overlay0 => "overlay0",
        Swatch::Peach => "peach",
        Swatch::Lavender => "lavender",
        Swatch::Teal => "teal",
        Swatch::Sapphire => "sapphire",
        Swatch::Yellow => "yellow",
        Swatch::Blue => "blue",
        Swatch::Sky => "sky",
        Swatch::Green => "green",
        Swatch::Mauve => "mauve",
        Swatch::Red => "red",
    }
}

/// The 22 swatches in stylesheet order.
pub open spec fn palette_order() -> Seq<Swatch> {
    seq![Swatch::Base, Swatch::Mantle, Swatch::Crust, Swatch::Border, Swatch::Surface0, Swatch::Surface2, Swatch::Text, Swatch::Subtext1, Swatch::Subtext0, Swatch::Overlay2, Swatch::Overlay1, Swatch::Overlay0, Swatch::Peach, Swatch::Lavender, Swatch::Teal, Swatch::Sapphire, Swatch::Yellow, Swatch::Blue, Swatch::Sky, Swatch::Green, Swatch::Mauve, Swatch::Red]
}

/// The swatches in stylesheet order.
pub fn palette_swatches() -> (v: Vec<Swatch>)
    ensures
        v@ == palette_order(),
{
    let v = vec![Swatch::Base, Swatch::Mantle, Swatch::Crust, Swatch::Border, Swatch::Surface0, Swatch::Surface2, Swatch::Text, Swatch::Subtext1, Swatch::Subtext0, Swatch::Overlay2, Swatch::Overlay1, Swatch::Overlay0, Swatch::Peach, Swatch::Lavender, Swatch::Teal, Swatch::Sapphire, Swatch::Yellow, Swatch::Blue, Swatch::Sky, Swatch::Green, Swatch::Mauve, Swatch::Red];
    assert(v@ =~= palette_order());
    v
}

/// One stylesheet line declaring a swatch: `    --name: #rrggbb;` and a newline.
pub open spec fn scss_line(w: Swatch) -> Seq<char> {
    "    --"@ + swatch_name_spec(w) + ": "@ + css_text(swatch_rgb(w)) + ";\n"@
}

/// The declaration lines of `ws`, in order.
pub open spec fn scss_lines(ws: Seq<Swatch>) -> Seq<char>
    decreases ws.len(),
{
    if ws.len() == 0 {
        Seq::empty()
    } else {
        scss_lines(ws.drop_last()) + scss_line(ws.last())
    }
}

/// The generated stylesheet: one `:root` block declaring every swatch.
pub open spec fn palette_scss_text() -> Seq<char> {
    ":root {\n"@ + scss_lines(palette_order()) + "}\n"@
}

/// Appends the stylesheet line declaring `w`.
fn push_scss_line(s: &mut String, w: Swatch)
    ensures
        final(s)@ == old(s)@ + scss_line(w),
{
    s.append("    --");
    s.append(swatch_name(w));
    s.append(": ");
    let c = css(w.rgb());
    s.append(c.as_str());
    s.append(";\n");
}

/// Generate the `_palette.scss` stylesheet, so CSS variables stay in sync
/// with the palette.
pub fn palette_scss() -> (s: String)
    ensures
        s@ == palette_scss_text(),
{
    let ws = palette_swatches();
    let mut s = String::new();
    s.append(":root {\n");
    let ghost head = ":root {\n"@;
    let mut i: usize = 0;
    while i < ws.len()
        invariant
            ws@ == palette_order(),
            i <= ws.len(),
            s@ == head + scss_lines(ws@.take(i as int)),
        decreases ws.len() - i,
    {
        let w = ws[i];
        push_scss_line(&mut s, w);
        proof {
            let t = ws@.take(i as int + 1);
            assert(t.drop_last() == ws@.take(i as int));
            assert(t.last() == w);
            assert(scss_lines(t) == scss_lines(ws@.take(i as int)) + scss_line(w));
        }
        i += 1;
    }
    assert(ws@.take(ws.len() as int) == ws@);
    s.append("}\n");
    s
}

/// Severity rank of a status colour: green 0, yellow 1, anything else 2.
pub open spec fn severity(c: Swatch) -> int {
    if c == Swatch::Green {
        0
    } else if c == Swatch::Yellow {
        1
    } else {
        2
    }
}

/// The battery and RSSI colours are monotone: more charge, or a stronger
/// signal, never yields a more severe colour.
pub proof fn lemma_thresholds_monotone(p1: u8, p2: u8, d1: i16, d2: i16)
    ensures
        p1 <= p2 ==> severity(battery_color_spec(p2)) <= severity(battery_color_spec(p1)),
        d1 <= d2 ==> severity(rssi_color_spec(d2)) <= severity(rssi_color_spec(d1)),
{
}

} // verus!
