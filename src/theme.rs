//! The two colour schemes of the reader and the type scale they share.

use vstd::prelude::*;

verus! {

/// Which colour scheme is shown.
#[derive(Debug, Clone, Copy, PartialEq, Eq, Structural)]
pub enum ThemeMode {
    Light,
    Dark,
}

impl Default for ThemeMode {
    fn default() -> (r: ThemeMode)
        ensures
            r == ThemeMode::Light,
    {
        ThemeMode::Light
    }
}

impl ThemeMode {
    /// The other scheme.
    pub fn toggled(self) -> (r: ThemeMode)
        ensures
            r != self,
    {
        match self {
            ThemeMode::Light => ThemeMode::Dark,
            ThemeMode::Dark => ThemeMode::Light,
        }
    }
}

/// Font family names.
#[derive(Debug, Clone, PartialEq)]
pub struct FontTheme {
    pub sans: &'static str,
    pub serif: &'static str,
    pub mono: &'static str,
}

/// Font weights.
#[derive(Debug, Clone, PartialEq)]
pub struct FontWeightTheme {
    pub regular: &'static str,
    pub semibold: &'static str,
    pub bold: &'static str,
}

/// Font sizes, from the smallest to the header.
#[derive(Debug, Clone, PartialEq)]
pub struct SizeTheme {
    pub text_xs: &'static str,
    pub text_s: &'static str,
    pub text_m: &'static str,
    pub text_l: &'static str,
    pub text_xl: &'static str,
    pub text_xxl: &'static str,
    pub text_header: &'static str,
}

/// Colours.
#[derive(Debug, Clone, PartialEq)]
pub struct ColorTheme {
    pub base: &'static str,
    pub text: &'static str,
    pub text_alt: &'static str,
    pub accent: &'static str,
    pub accent_text: &'static str,
    pub link: &'static str,
    pub background_card: &'static str,
    pub background_page: &'static str,
    pub border: &'static str,
    pub tab_background_active: &'static str,
    pub tab_background_hover: &'static str,
    pub tab_text_active: &'static str,
    pub tab_text_inactive: &'static str,
}

/// Everything the views style themselves with.
#[derive(Debug, Clone, PartialEq)]
pub struct Theme {
    pub font: FontTheme,
    pub font_weight: FontWeightTheme,
    pub size: SizeTheme,
    pub color: ColorTheme,
}

impl Theme {
    /// The fonts, weights and sizes that both schemes use.
    pub open spec fn has_shared_type(self) -> bool {
        &&& self.font.sans@ == "IBM Plex Sans"@
        &&& self.font.serif@ == "IBM Plex Serif"@
        &&& self.font.mono@ == "IBM Plex Mono"@
        &&& self.font_weight.regular@ == "normal"@
        &&& self.font_weight.semibold@ == "semibold"@
        &&& self.font_weight.bold@ == "bold"@
        &&& self.size.text_xs@ == "12"@
        &&& self.size.text_s@ == "13"@
        &&& self.size.text_m@ == "14"@
        &&& self.size.text_l@ == "16"@
        &&& self.size.text_xl@ == "20"@
        &&& self.size.text_xxl@ == "22"@
        &&& self.size.text_header@ == "24"@
    }

    /// The light scheme.
    pub open spec fn is_light(self) -> bool {
        &&& self.has_shared_type()
        &&& self.color.base@ == "black"@
        &&& self.color.text@ == "rgb(50, 50, 50)"@
        &&& self.color.text_alt@ == "rgb(80, 80, 80)"@
        &&& self.color.accent@ == "rgb(255, 102, 0)"@
        &&& self.color.accent_text@ == "white"@
        &&& self.color.link@ == "rgb(0, 0, 200)"@
        &&& self.color.background_card@ == "white"@
        &&& self.color.background_page@ == "rgb(246, 246, 239)"@
        &&& self.color.border@ == "rgb(230, 230, 230)"@
        &&& self.color.tab_background_active@ == "rgb(220, 235, 255)"@
        &&& self.color.tab_background_hover@ == "rgb(235, 245, 255)"@
        &&& self.color.tab_text_active@ == "rgb(0, 50, 100)"@
        &&& self.color.tab_text_inactive@ == "rgb(50, 50, 50)"@
    }

    /// The high-contrast dark scheme.
    pub open spec fn is_dark(self) -> bool {
        &&& self.has_shared_type()
        &&& self.color.base@ == "rgb(235, 235, 235)"@
        &&& self.color.text@ == "rgb(205, 205, 205)"@
        &&& self.color.text_alt@ == "rgb(150, 150, 150)"@
        &&& self.color.accent@ == "rgb(255, 102, 0)"@
        &&& self.color.accent_text@ == "white"@
        &&& self.color.link@ == "rgb(100, 150, 255)"@
        &&& self.color.background_card@ == "rgb(28, 28, 32)"@
        &&& self.color.background_page@ == "rgb(18, 18, 20)"@
        &&& self.color.border@ == "rgb(50, 50, 55)"@
        &&& self.color.tab_background_active@ == "rgb(255, 200, 80)"@
        &&& self.color.tab_background_hover@ == "rgb(40, 40, 45)"@
        &&& self.color.tab_text_active@ == "rgb(20, 20, 20)"@
        &&& self.color.tab_text_inactive@ == "rgb(150, 150, 150)"@
    }

    /// The light theme.
    pub fn light() -> (r: Theme)
        ensures
            r.is_light(),
    {
        Theme {
            font: FontTheme {
                sans: "IBM Plex Sans",
                serif: "IBM Plex Serif",
                mono: "IBM Plex Mono",
            },
            font_weight: FontWeightTheme {
                regular: "normal",
                semibold: "semibold",
                bold: "bold",
            },
            size: SizeTheme {
                text_xs: "12",
                text_s: "13",
                text_m: "14",
                text_l: "16",
                text_xl: "20",
                text_xxl: "22",
                text_header: "24",
            },
            color: ColorTheme {
                base: "black",
                text: "rgb(50, 50, 50)",
                text_alt: "rgb(80, 80, 80)",
                accent: "rgb(255, 102, 0)",
                accent_text: "white",
                link: "rgb(0, 0, 200)",
                background_card: "white",
                background_page: "rgb(246, 246, 239)",
                border: "rgb(230, 230, 230)",
                tab_background_active: "rgb(220, 235, 255)",
                tab_background_hover: "rgb(235, 245, 255)",
                tab_text_active: "rgb(0, 50, 100)",
                tab_text_inactive: "rgb(50, 50, 50)",
            },
        }
    }

    /// The high-contrast dark theme.
    pub fn dark() -> (r: Theme)
        ensures
            r.is_dark(),
    {
        Theme {
            font: FontTheme {
                sans: "IBM Plex Sans",
                serif: "IBM Plex Serif",
                mono: "IBM Plex Mono",
            },
            font_weight: FontWeightTheme {
                regular: "normal",
                semibold: "semibold",
                bold: "bold",
            },
            size: SizeTheme {
                text_xs: "12",
                text_s: "13",
                text_m: "14",
                text_l: "16",
                text_xl: "20",
                text_xxl: "22",
                text_header: "24",
            },
            color: ColorTheme {
                base: "rgb(235, 235, 235)",
                text: "rgb(205, 205, 205)",
                text_alt: "rgb(150, 150, 150)",
                accent: "rgb(255, 102, 0)",
                accent_text: "white",
                link: "rgb(100, 150, 255)",
                background_card: "rgb(28, 28, 32)",
                background_page: "rgb(18, 18, 20)",
                border: "rgb(50, 50, 55)",
                tab_background_active: "rgb(255, 200, 80)",
                tab_background_hover: "rgb(40, 40, 45)",
                tab_text_active: "rgb(20, 20, 20)",
                tab_text_inactive: "rgb(150, 150, 150)",
            },
        }
    }

    /// The theme of a scheme.
    pub fn for_mode(mode: ThemeMode) -> (r: Theme)
        ensures
            mode == ThemeMode::Light ==> r.is_light(),
            mode == ThemeMode::Dark ==> r.is_dark(),
    {
        match mode {
            ThemeMode::Light => Theme::light(),
            ThemeMode::Dark => Theme::dark(),
        }
    }
}

} // verus!
