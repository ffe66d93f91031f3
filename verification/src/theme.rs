//! The two color themes and the palette each one assigns to the widget
//! roles. The presentation layer applies a [`Palette`] to its style; which
//! color fills which role is decided, and verified, here.

use vstd::prelude::*;

verus! {

/// The closed set of themes.
#[derive(Debug, Clone, Copy, PartialEq, Eq, Structural)]
pub enum GruvboxTheme {
    Dark,
    Light,
}

impl Default for GruvboxTheme {
    fn default() -> (t: Self)
        ensures
            t == GruvboxTheme::Dark,
    {
        GruvboxTheme::Dark
    }
}

impl GruvboxTheme {
    /// The label the theme toggle shows.
    pub fn display_name(&self) -> (r: &'static str)
        ensures
            r@ == self.spec_display_name(),
    {
        proof {
            reveal_strlit("Dark");
            reveal_strlit("Light");
        }
        match self {
            GruvboxTheme::Dark => "Dark",
            GruvboxTheme::Light => "Light",
        }
    }

    pub open spec fn spec_display_name(self) -> Seq<char> {
        match self {
            GruvboxTheme::Dark => "Dark"@,
            GruvboxTheme::Light => "Light"@,
        }
    }

    /// The other theme.
    pub fn toggled(&self) -> (t: GruvboxTheme)
        ensures
            t == self.spec_toggled(),
    {
        match self {
            GruvboxTheme::Dark => GruvboxTheme::Light,
            GruvboxTheme::Light => GruvboxTheme::Dark,
        }
    }

    pub open spec fn spec_toggled(self) -> GruvboxTheme {
        match self {
            GruvboxTheme::Dark => GruvboxTheme::Light,
            GruvboxTheme::Light => GruvboxTheme::Dark,
        }
    }
}

/// One color, as the red, green and blue bytes.
#[derive(Debug, Clone, Copy, PartialEq, Eq, Structural)]
pub struct Rgb {
    pub r: u8,
    pub g: u8,
    pub b: u8,
}

/// A theme's named colors.
#[derive(Debug, Clone, Copy, PartialEq, Eq, Structural)]
pub struct ColorSet {
    pub bg: Rgb,
    pub bg0: Rgb,
    pub bg1: Rgb,
    pub bg2: Rgb,
    pub bg3: Rgb,
    pub bg4: Rgb,
    pub fg: Rgb,
    pub fg0: Rgb,
    pub fg2: Rgb,
    pub fg3: Rgb,
    pub fg4: Rgb,
    pub red: Rgb,
    pub green: Rgb,
    pub yellow: Rgb,
    pub blue: Rgb,
    pub purple: Rgb,
    pub aqua: Rgb,
    pub orange: Rgb,
    pub gray: Rgb,
}

/// The dark theme's colors.
pub open spec fn spec_dark_colors() -> ColorSet {
    ColorSet {
        bg: (Rgb { r: 0x28, g: 0x28, b: 0x28 }),
        bg0: (Rgb { r: 0x1c, g: 0x1c, b: 0x1c }),
        bg1: (Rgb { r: 0x3c, g: 0x38, b: 0x36 }),
        bg2: (Rgb { r: 0x50, g: 0x49, b: 0x45 }),
        bg3: (Rgb { r: 0x66, g: 0x5c, b: 0x54 }),
        bg4: (Rgb { r: 0x7c, g: 0x6f, b: 0x64 }),
        fg: (Rgb { r: 0xeb, g: 0xdb, b: 0xb2 }),
        fg0: (Rgb { r: 0xfb, g: 0xf1, b: 0xc7 }),
        fg2: (Rgb { r: 0xd5, g: 0xc4, b: 0xa1 }),
        fg3: (Rgb { r: 0xbd, g: 0xae, b: 0x93 }),
        fg4: (Rgb { r: 0xa8, g: 0x99, b: 0x84 }),
        red: (Rgb { r: 0xfb, g: 0x49, b: 0x34 }),
        green: (Rgb { r: 0xb8, g: 0xbb, b: 0x26 }),
        yellow: (Rgb { r: 0xfa, g: 0xbd, b: 0x2f }),
        blue: (Rgb { r: 0x83, g: 0xa5, b: 0x98 }),
        purple: (Rgb { r: 0xd3, g: 0x86, b: 0x9b }),
        aqua: (Rgb { r: 0x8e, g: 0xc0, b: 0x7c }),
        orange: (Rgb { r: 0xfe, g: 0x80, b: 0x19 }),
        gray: (Rgb { r: 0x92, g: 0x83, b: 0x74 }),
    }
}

/// The light theme's colors.
pub open spec fn spec_light_colors() -> ColorSet {
    ColorSet {
        bg: (Rgb { r: 0xfb, g: 0xf1, b: 0xc7 }),
        bg0: (Rgb { r: 0xf2, g: 0xe5, b: 0xbc }),
        bg1: (Rgb { r: 0xeb, g: 0xdb, b: 0xb2 }),
        bg2: (Rgb { r: 0xd5, g: 0xc4, b: 0xa1 }),
        bg3: (Rgb { r: 0xbd, g: 0xae, b: 0x93 }),
        bg4: (Rgb { r: 0xa8, g: 0x99, b: 0x84 }),
        fg: (Rgb { r: 0x3c, g: 0x38, b: 0x36 }),
        fg0: (Rgb { r: 0x1d, g: 0x20, b: 0x21 }),
        fg2: (Rgb { r: 0x50, g: 0x49, b: 0x45 }),
        fg3: (Rgb { r: 0x66, g: 0x5c, b: 0x54 }),
        fg4: (Rgb { r: 0x7c, g: 0x6f, b: 0x64 }),
        red: (Rgb { r: 0x9d, g: 0x00, b: 0x06 }),
        green: (Rgb { r: 0x79, g: 0x74, b: 0x0e }),
        yellow: (Rgb { r: 0xb5, g: 0x76, b: 0x14 }),
        blue: (Rgb { r: 0x07, g: 0x66, b: 0x78 }),
        purple: (Rgb { r: 0x8f, g: 0x3f, b: 0x71 }),
        aqua: (Rgb { r: 0x42, g: 0x7b, b: 0x58 }),
        orange: (Rgb { r: 0xaf, g: 0x3a, b: 0x03 }),
        gray: (Rgb { r: 0x7c, g: 0x6f, b: 0x64 }),
    }
}

/// The dark theme's color table.
pub struct GruvboxDark;

impl GruvboxDark {
    pub fn colors() -> (c: ColorSet)
        ensures
            c == spec_dark_colors(),
    {
        ColorSet {
            bg: Rgb { r: 0x28, g: 0x28, b: 0x28 },
            bg0: Rgb { r: 0x1c, g: 0x1c, b: 0x1c },
            bg1: Rgb { r: 0x3c, g: 0x38, b: 0x36 },
            bg2: Rgb { r: 0x50, g: 0x49, b: 0x45 },
            bg3: Rgb { r: 0x66, g: 0x5c, b: 0x54 },
            bg4: Rgb { r: 0x7c, g: 0x6f, b: 0x64 },
            fg: Rgb { r: 0xeb, g: 0xdb, b: 0xb2 },
            fg0: Rgb { r: 0xfb, g: 0xf1, b: 0xc7 },
            fg2: Rgb { r: 0xd5, g: 0xc4, b: 0xa1 },
            fg3: Rgb { r: 0xbd, g: 0xae, b: 0x93 },
            fg4: Rgb { r: 0xa8, g: 0x99, b: 0x84 },
            red: Rgb { r: 0xfb, g: 0x49, b: 0x34 },
            green: Rgb { r: 0xb8, g: 0xbb, b: 0x26 },
            yellow: Rgb { r: 0xfa, g: 0xbd, b: 0x2f },
            blue: Rgb { r: 0x83, g: 0xa5, b: 0x98 },
            purple: Rgb { r: 0xd3, g: 0x86, b: 0x9b },
            aqua: Rgb { r: 0x8e, g: 0xc0, b: 0x7c },
            orange: Rgb { r: 0xfe, g: 0x80, b: 0x19 },
            gray: Rgb { r: 0x92, g: 0x83, b: 0x74 },
        }
    }
}

/// The light theme's color table.
pub struct GruvboxLight;

impl GruvboxLight {
    pub fn colors() -> (c: ColorSet)
        ensures
            c == spec_light_colors(),
    {
        ColorSet {
            bg: Rgb { r: 0xfb, g: 0xf1, b: 0xc7 },
            bg0: Rgb { r: 0xf2, g: 0xe5, b: 0xbc },
            bg1: Rgb { r: 0xeb, g: 0xdb, b: 0xb2 },
            bg2: Rgb { r: 0xd5, g: 0xc4, b: 0xa1 },
            bg3: Rgb { r: 0xbd, g: 0xae, b: 0x93 },
            bg4: Rgb { r: 0xa8, g: 0x99, b: 0x84 },
            fg: Rgb { r: 0x3c, g: 0x38, b: 0x36 },
            fg0: Rgb { r: 0x1d, g: 0x20, b: 0x21 },
            fg2: Rgb { r: 0x50, g: 0x49, b: 0x45 },
            fg3: Rgb { r: 0x66, g: 0x5c, b: 0x54 },
            fg4: Rgb { r: 0x7c, g: 0x6f, b: 0x64 },
            red: Rgb { r: 0x9d, g: 0x00, b: 0x06 },
            green: Rgb { r: 0x79, g: 0x74, b: 0x0e },
            yellow: Rgb { r: 0xb5, g: 0x76, b: 0x14 },
            blue: Rgb { r: 0x07, g: 0x66, b: 0x78 },
            purple: Rgb { r: 0x8f, g: 0x3f, b: 0x71 },
            aqua: Rgb { r: 0x42, g: 0x7b, b: 0x58 },
            orange: Rgb { r: 0xaf, g: 0x3a, b: 0x03 },
            gray: Rgb { r: 0x7c, g: 0x6f, b: 0x64 },
        }
    }
}

/// The colors a style pass assigns to each widget role.
#[derive(Debug, Clone, Copy, PartialEq, Eq, Structural)]
pub struct Palette {
    pub dark_mode: bool,
    pub panel_fill: Rgb,
    pub faint_bg: Rgb,
    pub extreme_bg: Rgb,
    pub code_bg: Rgb,
    pub warn_fg: Rgb,
    pub error_fg: Rgb,
    pub selection_bg: Rgb,
    pub selection_stroke: Rgb,
    pub hyperlink: Rgb,
    pub text: Rgb,
    pub active_bg: Rgb,
    pub hovered_bg: Rgb,
    pub inactive_bg: Rgb,
    pub active_fg: Rgb,
    pub hovered_fg: Rgb,
    pub inactive_fg: Rgb,
    pub noninteractive_bg: Rgb,
    pub noninteractive_fg: Rgb,
}

/// Which color fills which role under a theme.
pub open spec fn spec_palette(t: GruvboxTheme) -> Palette {
    let c = if t is Dark {
        spec_dark_colors()
    } else {
        spec_light_colors()
    };
    Palette {
        dark_mode: t is Dark,
        panel_fill: c.bg,
        faint_bg: c.bg1,
        extreme_bg: c.bg0,
        code_bg: c.bg1,
        warn_fg: c.orange,
        error_fg: c.red,
        selection_bg: c.blue,
        selection_stroke: c.blue,
        hyperlink: c.blue,
        text: c.fg,
        active_bg: c.bg2,
        hovered_bg: c.bg1,
        inactive_bg: c.bg,
        active_fg: c.fg,
        hovered_fg: c.fg,
        inactive_fg: c.fg3,
        noninteractive_bg: c.bg,
        noninteractive_fg: c.fg3,
    }
}

/// The palette a render pass applies for the chosen theme.
pub fn palette(theme: &GruvboxTheme) -> (p: Palette)
    ensures
        p == spec_palette(*theme),
{
    let c = match theme {
        GruvboxTheme::Dark => GruvboxDark::colors(),
        GruvboxTheme::Light => GruvboxLight::colors(),
    };
    Palette {
        dark_mode: matches!(theme, GruvboxTheme::Dark),
        panel_fill: c.bg,
        faint_bg: c.bg1,
        extreme_bg: c.bg0,
        code_bg: c.bg1,
        warn_fg: c.orange,
        error_fg: c.red,
        selection_bg: c.blue,
        selection_stroke: c.blue,
        hyperlink: c.blue,
        text: c.fg,
        active_bg: c.bg2,
        hovered_bg: c.bg1,
        inactive_bg: c.bg,
        active_fg: c.fg,
        hovered_fg: c.fg,
        inactive_fg: c.fg3,
        noninteractive_bg: c.bg,
        noninteractive_fg: c.fg3,
    }
}

} // verus!
