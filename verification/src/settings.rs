//! Window settings, and the window configuration that they resolve to.
use vstd::prelude::*;

verus! {

/// Font size used when the settings name none.
pub const DEFAULT_FONT_SIZE: u8 = 14;

/// Window width used when the settings name no size.
pub const DEFAULT_WIDTH: i32 = 400;

/// Window height used when the settings name no size.
pub const DEFAULT_HEIGHT: i32 = 640;

/// Window class and title used when the settings name none.
pub const DEFAULT_CLASS: &'static str = "FLTK";

/// Font that Windows builds look up by name.
pub const WINDOWS_FONT: &'static str = "BCascadia Mono";

/// A font of the toolkit's font table, by its index.
#[derive(Clone, Copy, Debug, PartialEq, Eq, Structural)]
pub struct FontId(pub i32);

/// Index of the bold Courier font in the toolkit's font table.
pub const COURIER_BOLD: i32 = 5;

/// The system the application runs on, as far as the library cares.
#[derive(Clone, Copy, Debug, PartialEq, Eq, Structural)]
pub enum Platform {
    Windows,
    Other,
}

/// How the application font is chosen.
#[derive(Clone, Copy, Debug)]
pub enum FontSpec {
    /// Look a font up by its name.
    Named(&'static str),
    /// Take a font of the toolkit's table.
    Id(FontId),
}

/// Settings of the main window; every field left out takes a default.
#[derive(Debug)]
pub struct Settings {
    pub fullscreen: bool,
    /// Width and height.
    pub size: Option<(i32, i32)>,
    pub font_size: Option<u8>,
    pub font: Option<FontId>,
    /// Window class, also used as the window title.
    pub xclass: Option<&'static str>,
    /// Window icon, as the text of an SVG document.
    pub icon: Option<String>,
}

/// The main window's configuration, every default resolved.
#[derive(Debug)]
pub struct WindowConfig {
    pub font: FontSpec,
    pub font_size: u8,
    pub width: i32,
    pub height: i32,
    /// The window cannot be made smaller than `min_width` by `min_height`.
    pub min_width: i32,
    pub min_height: i32,
    pub xclass: &'static str,
    pub label: &'static str,
    pub fullscreen: bool,
    pub icon: Option<String>,
}

impl Default for Settings {
    fn default() -> (s: Settings)
        ensures
            !s.fullscreen,
            s.size is None,
            s.font_size is None,
            s.font is None,
            s.xclass is None,
            s.icon is None,
    {
        Settings { fullscreen: false, size: None, font_size: None, font: None, xclass: None, icon: None }
    }
}

/// `o`'s value, or `d` where it has none.
pub open spec fn or_default<T>(o: Option<T>, d: T) -> T {
    match o {
        Some(v) => v,
        None => d,
    }
}

/// A setting that is given wins over its default.
pub proof fn given_beats_default<T>(v: T, d: T)
    ensures
        or_default(Some(v), d) == v,
        or_default(None::<T>, d) == d,
{
}

/// On Windows the window font is Cascadia Mono, looked up by name,
/// whatever the settings say; elsewhere it is the font the settings name,
/// or bold Courier when they name none.
pub proof fn font_choice(s: Settings, platform: Platform)
    ensures
        platform == Platform::Windows ==> s.spec_font(platform) == FontSpec::Named(WINDOWS_FONT),
        platform == Platform::Other ==> s.spec_font(platform) == FontSpec::Id(
            match s.font {
                Some(f) => f,
                None => FontId(5),
            },
        ),
{
}

impl Settings {
    /// The font that the window uses on `platform`.
    pub open spec fn spec_font(self, platform: Platform) -> FontSpec {
        match platform {
            Platform::Windows => FontSpec::Named(WINDOWS_FONT),
            Platform::Other => FontSpec::Id(or_default(self.font, FontId(COURIER_BOLD))),
        }
    }

    /// Resolves the settings into the window's configuration on `platform`:
    /// size 400 by 640, font size 14, class and title "FLTK" unless given;
    /// the size given is also the smallest the window may take; on Windows
    /// the font is Cascadia Mono whatever the settings say.
    pub fn config(&self, platform: Platform) -> (c: WindowConfig)
        ensures
            c.font == self.spec_font(platform),
            platform == Platform::Windows ==> c.font == FontSpec::Named(WINDOWS_FONT),
            c.font_size == or_default(self.font_size, DEFAULT_FONT_SIZE),
            (c.width, c.height) == or_default(self.size, (DEFAULT_WIDTH, DEFAULT_HEIGHT)),
            c.min_width == c.width,
            c.min_height == c.height,
            c.xclass == or_default(self.xclass, DEFAULT_CLASS),
            c.label == c.xclass,
            c.fullscreen == self.fullscreen,
            c.icon == self.icon,
    {
        let font = match platform {
            Platform::Windows => FontSpec::Named(WINDOWS_FONT),
            Platform::Other => FontSpec::Id(
                match self.font {
                    Some(f) => f,
                    None => FontId(COURIER_BOLD),
                },
            ),
        };
        let font_size = match self.font_size {
            Some(n) => n,
            None => DEFAULT_FONT_SIZE,
        };
        let (width, height) = match self.size {
            Some(wh) => wh,
            None => (DEFAULT_WIDTH, DEFAULT_HEIGHT),
        };
        let xclass = match self.xclass {
            Some(x) => x,
            None => DEFAULT_CLASS,
        };
        let icon = match &self.icon {
            Some(svg) => Some(svg.clone()),
            None => None,
        };
        WindowConfig {
            font,
            font_size,
            width,
            height,
            min_width: width,
            min_height: height,
            xclass,
            label: xclass,
            fullscreen: self.fullscreen,
            icon,
        }
    }
}

} // verus!
