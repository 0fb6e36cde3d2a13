use crate::text::{find_first_sep, lemma_first_sep_bounds, str_eq, str_eq_nocase, trim};
use crate::text::{spec_first_sep, spec_lower, spec_strip_all, spec_trim, strip_suffix_all};
use vstd::prelude::*;
use vstd::string::{StrSliceExecFns, StringExecFns};

verus! {

/// The hinting algorithm the rasterizer is asked to load glyphs with.
#[derive(Clone, Copy, Debug, PartialEq, Eq, Structural, Hash)]
pub enum FreeTypeLoadTarget {
    /// The default hinting algorithm, for standard gray-level
    /// rendering.
    Normal,
    /// A lighter hinting algorithm for non-monochrome modes; fuzzier
    /// glyphs that better keep their original shape.
    Light,
    /// A strong hinting algorithm for monochrome output only.
    Mono,
    /// A variant of `Normal` for horizontally decimated LCD displays.
    HorizontalLcd,
    /// A variant of `Normal` for vertically decimated LCD displays.
    VerticalLcd,
}

impl Default for FreeTypeLoadTarget {
    /// The default load target is standard gray-level hinting.
    fn default() -> (r: Self)
        ensures
            r is Normal,
    {
        Self::Normal
    }
}

/// The glyph-loading flags handed to the rasterizer, kept as an explicit
/// set of named flags with a fixed bit encoding.
#[derive(Clone, Copy, Debug, PartialEq, Eq, Structural, Default, Hash)]
pub struct FreeTypeLoadFlags {
    /// Disable hinting; generally a blurrier glyph in anti-aliased
    /// modes.
    pub no_hinting: bool,
    pub no_bitmap: bool,
    /// Prefer the auto-hinter over the font's native hinter.
    pub force_autohint: bool,
    pub monochrome: bool,
    /// Disable the auto-hinter.
    pub no_autohint: bool,
}

/// A token of the pipe-delimited flag encoding that names no known flag.
#[derive(Clone, Debug, PartialEq, Eq)]
pub struct FlagParseError {
    /// The first unknown token, already trimmed.
    pub token: String,
}

/// The set with no flags.
pub open spec fn spec_no_flags() -> FreeTypeLoadFlags {
    FreeTypeLoadFlags {
        no_hinting: false,
        no_bitmap: false,
        force_autohint: false,
        monochrome: false,
        no_autohint: false,
    }
}

/// Flag-wise union of two sets.
pub open spec fn spec_flags_union(a: FreeTypeLoadFlags, b: FreeTypeLoadFlags) -> FreeTypeLoadFlags {
    FreeTypeLoadFlags {
        no_hinting: a.no_hinting || b.no_hinting,
        no_bitmap: a.no_bitmap || b.no_bitmap,
        force_autohint: a.force_autohint || b.force_autohint,
        monochrome: a.monochrome || b.monochrome,
        no_autohint: a.no_autohint || b.no_autohint,
    }
}

/// The flag a token names, over the exhaustive name table; `DEFAULT`
/// names the empty set, and an unknown token names nothing.
pub open spec fn spec_flag_of_name(name: Seq<char>) -> Option<FreeTypeLoadFlags> {
    if name == "DEFAULT"@ {
        Some(spec_no_flags())
    } else if name == "NO_HINTING"@ {
        Some(FreeTypeLoadFlags { no_hinting: true, ..spec_no_flags() })
    } else if name == "NO_BITMAP"@ {
        Some(FreeTypeLoadFlags { no_bitmap: true, ..spec_no_flags() })
    } else if name == "FORCE_AUTOHINT"@ {
        Some(FreeTypeLoadFlags { force_autohint: true, ..spec_no_flags() })
    } else if name == "MONOCHROME"@ {
        Some(FreeTypeLoadFlags { monochrome: true, ..spec_no_flags() })
    } else if name == "NO_AUTOHINT"@ {
        Some(FreeTypeLoadFlags { no_autohint: true, ..spec_no_flags() })
    } else {
        None
    }
}

/// The pipe-delimited encoding parsed fail-closed: every token is
/// trimmed and looked up in the name table; the union of the named
/// flags is the result, and the first unknown token is the error.
pub open spec fn spec_parse_flags(s: Seq<char>) -> Result<FreeTypeLoadFlags, Seq<char>>
    decreases s.len(),
{
    let i = spec_first_sep(s, '|');
    let tok = spec_trim(s.subrange(0, i as int));
    match spec_flag_of_name(tok) {
        None => Err(tok),
        Some(f) => {
            if i >= s.len() {
                Ok(f)
            } else {
                match spec_parse_flags(s.subrange(i + 1 as int, s.len() as int)) {
                    Ok(rest) => Ok(spec_flags_union(f, rest)),
                    Err(t) => Err(t),
                }
            }
        },
    }
}

/// The flag a token names, over the exhaustive name table.
fn flag_of_name(name: &str) -> (r: Option<FreeTypeLoadFlags>)
    ensures
        r == spec_flag_of_name(name@),
{
    if str_eq(name, "DEFAULT") {
        Some(FreeTypeLoadFlags::empty())
    } else if str_eq(name, "NO_HINTING") {
        Some(FreeTypeLoadFlags { no_hinting: true, ..FreeTypeLoadFlags::empty() })
    } else if str_eq(name, "NO_BITMAP") {
        Some(FreeTypeLoadFlags { no_bitmap: true, ..FreeTypeLoadFlags::empty() })
    } else if str_eq(name, "FORCE_AUTOHINT") {
        Some(FreeTypeLoadFlags { force_autohint: true, ..FreeTypeLoadFlags::empty() })
    } else if str_eq(name, "MONOCHROME") {
        Some(FreeTypeLoadFlags { monochrome: true, ..FreeTypeLoadFlags::empty() })
    } else if str_eq(name, "NO_AUTOHINT") {
        Some(FreeTypeLoadFlags { no_autohint: true, ..FreeTypeLoadFlags::empty() })
    } else {
        None
    }
}

impl FreeTypeLoadFlags {
    /// The set with no flags.
    pub fn empty() -> (r: FreeTypeLoadFlags)
        ensures
            r == spec_no_flags(),
    {
        FreeTypeLoadFlags {
            no_hinting: false,
            no_bitmap: false,
            force_autohint: false,
            monochrome: false,
            no_autohint: false,
        }
    }

    /// Flag-wise union with another set.
    pub fn union(self, other: FreeTypeLoadFlags) -> (r: FreeTypeLoadFlags)
        ensures
            r == spec_flags_union(self, other),
    {
        FreeTypeLoadFlags {
            no_hinting: self.no_hinting || other.no_hinting,
            no_bitmap: self.no_bitmap || other.no_bitmap,
            force_autohint: self.force_autohint || other.force_autohint,
            monochrome: self.monochrome || other.monochrome,
            no_autohint: self.no_autohint || other.no_autohint,
        }
    }

    /// The fixed bit encoding of the set, as the rasterizer expects it.
    pub fn bits(self) -> (r: u32)
        ensures
            r == (if self.no_hinting {
                2int
            } else {
                0int
            }) + (if self.no_bitmap {
                8int
            } else {
                0int
            }) + (if self.force_autohint {
                32int
            } else {
                0int
            }) + (if self.monochrome {
                4096int
            } else {
                0int
            }) + (if self.no_autohint {
                32768int
            } else {
                0int
            }),
    {
        let mut r: u32 = 0;
        if self.no_hinting {
            r = r + 2;
        }
        if self.no_bitmap {
            r = r + 8;
        }
        if self.force_autohint {
            r = r + 32;
        }
        if self.monochrome {
            r = r + 4096;
        }
        if self.no_autohint {
            r = r + 32768;
        }
        r
    }

    /// Parse the pipe-delimited textual encoding, fail-closed: tokens
    /// are trimmed and looked up in the exhaustive name table, their
    /// flags are combined, and the first unknown token is refused.
    pub fn de_string(s: &str) -> (r: Result<FreeTypeLoadFlags, FlagParseError>)
        ensures
            (match spec_parse_flags(s@) {
                Ok(f) => r matches Ok(rf) && rf == f,
                Err(t) => r matches Err(e) && e.token@ == t,
            }),
        decreases s@.len(),
    {
        let len: usize = s.unicode_len();
        let i: usize = find_first_sep(s, '|');
        proof {
            lemma_first_sep_bounds(s@, '|');
        }
        let tok: &str = trim(s.substring_char(0, i));
        match flag_of_name(tok) {
            None => Err(FlagParseError { token: tok.to_owned() }),
            Some(f) => {
                if i >= len {
                    Ok(f)
                } else {
                    match FreeTypeLoadFlags::de_string(s.substring_char(i + 1, len)) {
                        Ok(rest) => Ok(f.union(rest)),
                        Err(e) => Err(e),
                    }
                }
            },
        }
    }
}

/// The hinting level applied when rasterizing.
#[derive(Clone, Copy, Debug, PartialEq, Eq, Structural, Hash)]
pub enum FontHinting {
    /// No hinting is performed.
    NoHinting,
    /// Light vertical hinting, fitting the terminal grid.
    Vertical,
    /// Vertical hinting with extra processing for subpixel
    /// anti-aliasing.
    VerticalSubpixel,
    /// Vertical and horizontal hinting.
    Full,
}

impl Default for FontHinting {
    /// The default hinting is full hinting.
    fn default() -> (r: Self)
        ensures
            r is Full,
    {
        Self::Full
    }
}

/// The anti-aliasing mode applied when rasterizing.
#[derive(Clone, Copy, Debug, PartialEq, Eq, Structural, Hash)]
pub enum FontAntiAliasing {
    NoAntiAliasing,
    Greyscale,
    Subpixel,
}

impl Default for FontAntiAliasing {
    /// The default anti-aliasing is greyscale.
    fn default() -> (r: Self)
        ensures
            r is Greyscale,
    {
        Self::Greyscale
    }
}

/// One font preference: a family name plus the variant flags.
#[derive(Clone, Debug, PartialEq, Eq, Hash)]
pub struct FontAttributes {
    /// The font family name.
    pub family: String,
    /// Whether the bold variant is wanted.
    pub bold: bool,
    /// Whether the italic variant is wanted.
    pub italic: bool,
    /// Whether this entry was appended as a fallback rather than named
    /// by the user.
    pub is_fallback: bool,
}

/// The mathematical shape of a font preference.
#[verifier::ext_equal]
pub ghost struct FontAttributesModel {
    pub family: Seq<char>,
    pub bold: bool,
    pub italic: bool,
    pub is_fallback: bool,
}

impl View for FontAttributes {
    type V = FontAttributesModel;

    open spec fn view(&self) -> FontAttributesModel {
        FontAttributesModel {
            family: self.family@,
            bold: self.bold,
            italic: self.italic,
            is_fallback: self.is_fallback,
        }
    }
}

/// The models of a list of font preferences, in order.
pub open spec fn spec_attr_models(v: Seq<FontAttributes>) -> Seq<FontAttributesModel> {
    v.map_values(|a: FontAttributes| a@)
}

/// The bundled default font family.
pub open spec fn spec_default_attrs() -> FontAttributesModel {
    FontAttributesModel { family: "JetBrains Mono"@, bold: false, italic: false, is_fallback: false }
}

impl FontAttributes {
    /// A plain, non-fallback preference for a family.
    pub fn new(family: &str) -> (r: Self)
        ensures
            r@ == (FontAttributesModel {
                family: family@,
                bold: false,
                italic: false,
                is_fallback: false,
            }),
    {
        Self { family: family.to_owned(), bold: false, italic: false, is_fallback: false }
    }

    /// A fallback preference for a family.
    pub fn new_fallback(family: &str) -> (r: Self)
        ensures
            r@ == (FontAttributesModel {
                family: family@,
                bold: false,
                italic: false,
                is_fallback: true,
            }),
    {
        Self { family: family.to_owned(), bold: false, italic: false, is_fallback: true }
    }

    /// A copy of this preference.
    pub fn duplicate(&self) -> (r: Self)
        ensures
            r@ == self@,
    {
        Self {
            family: self.family.clone(),
            bold: self.bold,
            italic: self.italic,
            is_fallback: self.is_fallback,
        }
    }

    /// The preference written as the configuration call that selects
    /// it.
    pub fn display_string(&self) -> (r: String)
        ensures
            r@ == "wezterm.font('"@ + self.family@ + "', {bold="@ + (if self.bold {
                "true"@
            } else {
                "false"@
            }) + ", italic="@ + (if self.italic {
                "true"@
            } else {
                "false"@
            }) + "})"@,
    {
        let mut out: String = ("wezterm.font('").to_owned();
        out.append(self.family.as_str());
        out.append("', {bold=");
        out.append(if self.bold {
            "true"
        } else {
            "false"
        });
        out.append(", italic=");
        out.append(if self.italic {
            "true"
        } else {
            "false"
        });
        out.append("})");
        out
    }
}

impl Default for FontAttributes {
    /// The default preference is the bundled default family, plain.
    fn default() -> (r: Self)
        ensures
            r@ == spec_default_attrs(),
    {
        Self {
            family: ("JetBrains Mono").to_owned(),
            bold: false,
            italic: false,
            is_fallback: false,
        }
    }
}

/// An RGB color override.
#[derive(Clone, Copy, Debug, PartialEq, Eq, Structural, Hash)]
pub struct RgbColor {
    pub red: u8,
    pub green: u8,
    pub blue: u8,
}

/// Textual styling: an ordered list of font preferences and an optional
/// foreground color override.
#[derive(Clone, Debug, PartialEq, Eq, Hash)]
pub struct TextStyle {
    /// The preferences, most preferred first.
    pub font: Vec<FontAttributes>,
    /// When set, text in the default foreground color is drawn in this
    /// color instead.
    pub foreground: Option<RgbColor>,
}

/// A family name with the listed weight and style qualifiers stripped
/// from its end, in the fixed order the reduction applies them.
pub open spec fn spec_reduce_family(s: Seq<char>) -> Seq<char> {
    let a = spec_strip_all(s, " Italic"@);
    let b = spec_strip_all(a, " Thin"@);
    let c = spec_strip_all(b, " Extra Light"@);
    let d = spec_strip_all(c, " Normal"@);
    let e = spec_strip_all(d, " Regular"@);
    let f = spec_strip_all(e, " Medium"@);
    let g = spec_strip_all(f, " Semi Bold"@);
    let h = spec_strip_all(g, " Bold"@);
    let i = spec_strip_all(h, " Extra Bold"@);
    let j = spec_strip_all(i, " Ultra Bold"@);
    spec_strip_all(j, " Book"@)
}

/// A family name with trailing weight and style qualifiers stripped.
fn reduce_family(family: &str) -> (r: String)
    ensures
        r@ == spec_reduce_family(family@),
{
    let a: &str = strip_suffix_all(family, " Italic");
    let b: &str = strip_suffix_all(a, " Thin");
    let c: &str = strip_suffix_all(b, " Extra Light");
    let d: &str = strip_suffix_all(c, " Normal");
    let e: &str = strip_suffix_all(d, " Regular");
    let f: &str = strip_suffix_all(e, " Medium");
    let g: &str = strip_suffix_all(f, " Semi Bold");
    let h: &str = strip_suffix_all(g, " Bold");
    let i: &str = strip_suffix_all(h, " Extra Bold");
    let j: &str = strip_suffix_all(i, " Ultra Bold");
    strip_suffix_all(j, " Book").to_owned()
}

impl TextStyle {
    /// A version of this style whose first preference has any trailing
    /// weight or style qualifier stripped from its family name, so the
    /// bold and italic derivations below start from the plain family.
    /// Every other preference, and the color override, is kept as it
    /// is.
    pub fn reduce_first_font_to_family(&self) -> (r: Self)
        ensures
            r.foreground == self.foreground,
            r.font@.len() == self.font@.len(),
            self.font@.len() > 0 ==> r.font@[0]@ == (FontAttributesModel {
                family: spec_reduce_family(self.font@[0]@.family),
                ..self.font@[0]@
            }),
            forall|i: int| 1 <= i < self.font@.len() ==> r.font@[i]@ == self.font@[i]@,
    {
        let mut font: Vec<FontAttributes> = Vec::new();
        let mut i: usize = 0;
        while i < self.font.len()
            invariant
                i <= self.font@.len(),
                font@.len() == i,
                i > 0 && self.font@.len() > 0 ==> font@[0]@ == (FontAttributesModel {
                    family: spec_reduce_family(self.font@[0]@.family),
                    ..self.font@[0]@
                }),
                forall|j: int| 1 <= j < i ==> font@[j]@ == self.font@[j]@,
            decreases self.font@.len() - i,
        {
            let orig: &FontAttributes = &self.font[i];
            if i == 0 {
                font.push(
                    FontAttributes {
                        family: reduce_family(orig.family.as_str()),
                        bold: orig.bold,
                        italic: orig.italic,
                        is_fallback: orig.is_fallback,
                    },
                );
            } else {
                font.push(orig.duplicate());
            }
            i = i + 1;
        }
        TextStyle { font, foreground: self.foreground }
    }

    /// A version of this style with every preference asking for the
    /// bold variant; families, italic flags, fallback flags and the
    /// color override are kept.
    pub fn make_bold(&self) -> (r: Self)
        ensures
            r.foreground == self.foreground,
            r.font@.len() == self.font@.len(),
            forall|i: int|
                0 <= i < self.font@.len() ==> r.font@[i]@ == (FontAttributesModel {
                    bold: true,
                    ..self.font@[i]@
                }),
    {
        let mut font: Vec<FontAttributes> = Vec::new();
        let mut i: usize = 0;
        while i < self.font.len()
            invariant
                i <= self.font@.len(),
                font@.len() == i,
                forall|j: int|
                    0 <= j < i ==> font@[j]@ == (FontAttributesModel {
                        bold: true,
                        ..self.font@[j]@
                    }),
            decreases self.font@.len() - i,
        {
            let orig: &FontAttributes = &self.font[i];
            font.push(
                FontAttributes {
                    family: orig.family.clone(),
                    bold: true,
                    italic: orig.italic,
                    is_fallback: orig.is_fallback,
                },
            );
            i = i + 1;
        }
        TextStyle { font, foreground: self.foreground }
    }

    /// A version of this style with every preference asking for the
    /// italic variant; families, bold flags, fallback flags and the
    /// color override are kept.
    pub fn make_italic(&self) -> (r: Self)
        ensures
            r.foreground == self.foreground,
            r.font@.len() == self.font@.len(),
            forall|i: int|
                0 <= i < self.font@.len() ==> r.font@[i]@ == (FontAttributesModel {
                    italic: true,
                    ..self.font@[i]@
                }),
    {
        let mut font: Vec<FontAttributes> = Vec::new();
        let mut i: usize = 0;
        while i < self.font.len()
            invariant
                i <= self.font@.len(),
                font@.len() == i,
                forall|j: int|
                    0 <= j < i ==> font@[j]@ == (FontAttributesModel {
                        italic: true,
                        ..self.font@[j]@
                    }),
            decreases self.font@.len() - i,
        {
            let orig: &FontAttributes = &self.font[i];
            font.push(
                FontAttributes {
                    family: orig.family.clone(),
                    bold: orig.bold,
                    italic: true,
                    is_fallback: orig.is_fallback,
                },
            );
            i = i + 1;
        }
        TextStyle { font, foreground: self.foreground }
    }

    /// The preference list with the bundled fallbacks appended: the
    /// default family (as a fallback) unless it is already named, then
    /// the bundled emoji font, then the last-resort font.
    pub fn font_with_fallback(&self) -> (r: Vec<FontAttributes>)
        ensures
            ({
                let models = spec_attr_models(self.font@);
                let emoji = (FontAttributesModel {
                    family: "Noto Color Emoji"@,
                    bold: false,
                    italic: false,
                    is_fallback: true,
                });
                let last = (FontAttributesModel {
                    family: "Last Resort High-Efficiency"@,
                    bold: false,
                    italic: false,
                    is_fallback: true,
                });
                if exists|i: int| 0 <= i < models.len() && models[i] == spec_default_attrs() {
                    spec_attr_models(r@) == models + seq![emoji, last]
                } else {
                    spec_attr_models(r@) == models + seq![
                        (FontAttributesModel { is_fallback: true, ..spec_default_attrs() }),
                        emoji,
                        last,
                    ]
                }
            }),
    {
        let mut font: Vec<FontAttributes> = Vec::new();
        let mut found: bool = false;
        let mut i: usize = 0;
        while i < self.font.len()
            invariant
                i <= self.font@.len(),
                font@.len() == i,
                forall|j: int| 0 <= j < i ==> font@[j]@ == self.font@[j]@,
                found == exists|j: int|
                    0 <= j < i && spec_attr_models(self.font@)[j] == spec_default_attrs(),
            decreases self.font@.len() - i,
        {
            let orig: &FontAttributes = &self.font[i];
            if !orig.bold && !orig.italic && !orig.is_fallback && str_eq(
                orig.family.as_str(),
                "JetBrains Mono",
            ) {
                proof {
                    assert(self.font@[i as int]@ =~= spec_default_attrs());
                    assert(spec_attr_models(self.font@)[i as int] == spec_default_attrs());
                }
                found = true;
            } else {
                proof {
                    assert(self.font@[i as int]@ != spec_default_attrs());
                    assert(spec_attr_models(self.font@)[i as int] != spec_default_attrs());
                }
            }
            font.push(orig.duplicate());
            i = i + 1;
        }
        if !found {
            let mut default_font = FontAttributes::default();
            default_font.is_fallback = true;
            font.push(default_font);
        }
        font.push(FontAttributes::new_fallback("Noto Color Emoji"));
        font.push(FontAttributes::new_fallback("Last Resort High-Efficiency"));
        proof {
            assert(spec_attr_models(font@) =~= spec_attr_models(font@));
        }
        font
    }
}

impl Default for TextStyle {
    /// The default style holds the one default preference and no color
    /// override.
    fn default() -> (r: Self)
        ensures
            r.foreground is None,
            r.font@.len() == 1,
            r.font@[0]@ == spec_default_attrs(),
    {
        let mut font: Vec<FontAttributes> = Vec::new();
        font.push(FontAttributes::default());
        TextStyle { font, foreground: None }
    }
}

/// Whether a glyph wider than its cell may overflow into the next cell
/// rather than be squeezed.
#[derive(Clone, Copy, Debug, PartialEq, Eq, Structural)]
pub enum AllowSquareGlyphOverflow {
    Never,
    Always,
    WhenFollowedBySpace,
}

impl Default for AllowSquareGlyphOverflow {
    /// By default a wide glyph may overflow only into a following
    /// space.
    fn default() -> (r: Self)
        ensures
            r is WhenFollowedBySpace,
    {
        Self::WhenFollowedBySpace
    }
}

/// The intensity attribute a style rule can match on.
#[derive(Clone, Copy, Debug, PartialEq, Eq, Structural)]
pub enum Intensity {
    Normal,
    Bold,
    Half,
}

/// The underline attribute a style rule can match on.
#[derive(Clone, Copy, Debug, PartialEq, Eq, Structural)]
pub enum Underline {
    NoUnderline,
    Single,
    Double,
}

/// The blink attribute a style rule can match on.
#[derive(Clone, Copy, Debug, PartialEq, Eq, Structural)]
pub enum Blink {
    NoBlink,
    Slow,
    Rapid,
}

/// A rule selecting a style for text whose attributes match every field
/// that is set; an unset field matches anything.
#[derive(Clone, Debug)]
pub struct StyleRule {
    /// Matches when the text's intensity equals this value.
    pub intensity: Option<Intensity>,
    /// Matches when the text's underline equals this value.
    pub underline: Option<Underline>,
    /// Matches when the text's italic flag equals this value.
    pub italic: Option<bool>,
    /// Matches when the text's blink equals this value.
    pub blink: Option<Blink>,
    /// Matches when the text's reverse flag equals this value.
    pub reverse: Option<bool>,
    /// Matches when the text's strikethrough flag equals this value.
    pub strikethrough: Option<bool>,
    /// Matches when the text's invisible flag equals this value.
    pub invisible: Option<bool>,
    /// The styling to use when this rule matches.
    pub font: TextStyle,
}

impl Default for StyleRule {
    /// The default rule matches everything and selects the default
    /// style.
    fn default() -> (r: Self)
        ensures
            r.intensity is None,
            r.underline is None,
            r.italic is None,
            r.blink is None,
            r.reverse is None,
            r.strikethrough is None,
            r.invisible is None,
            r.font.foreground is None,
            r.font.font@.len() == 1,
            r.font.font@[0]@ == spec_default_attrs(),
    {
        StyleRule {
            intensity: None,
            underline: None,
            italic: None,
            blink: None,
            reverse: None,
            strikethrough: None,
            invisible: None,
            font: TextStyle::default(),
        }
    }
}

/// A platform capability, resolved once at startup by the surrounding
/// program and passed in; it picks the font locator to default to.
#[derive(Clone, Copy, Debug, PartialEq, Eq, Structural)]
pub enum Platform {
    Windows,
    MacOs,
    Unix,
}

/// A selection token that names no variant of the enumeration it was
/// parsed for.
#[derive(Clone, Copy, Debug, PartialEq, Eq, Structural)]
pub struct VariantParseError {}

/// The strategy used to locate fonts on the system.
#[derive(Clone, Copy, Debug, PartialEq, Eq, Structural)]
pub enum FontLocatorSelection {
    /// Resolve fonts through fontconfig (posix systems).
    FontConfig,
    /// Resolve fonts through GDI (windows systems).
    Gdi,
    /// Resolve fonts through CoreText (mac systems).
    CoreText,
    /// Resolve fonts only from the configured font directories.
    ConfigDirsOnly,
}

impl FontLocatorSelection {
    /// The locator a platform defaults to.
    pub fn for_platform(platform: Platform) -> (r: Self)
        ensures
            platform is Windows ==> r is Gdi,
            platform is MacOs ==> r is CoreText,
            platform is Unix ==> r is FontConfig,
    {
        match platform {
            Platform::Windows => Self::Gdi,
            Platform::MacOs => Self::CoreText,
            Platform::Unix => Self::FontConfig,
        }
    }

    /// The accepted variant names.
    pub fn variants() -> (r: Vec<&'static str>)
        ensures
            r@.len() == 4,
            r@[0]@ == "FontConfig"@,
            r@[1]@ == "CoreText"@,
            r@[2]@ == "ConfigDirsOnly"@,
            r@[3]@ == "Gdi"@,
    {
        let mut v: Vec<&'static str> = Vec::new();
        v.push("FontConfig");
        v.push("CoreText");
        v.push("ConfigDirsOnly");
        v.push("Gdi");
        v
    }

    /// Parse a variant name, ignoring ASCII case; an unknown name is
    /// refused.
    pub fn from_str(s: &str) -> (r: Result<Self, VariantParseError>)
        ensures
            spec_lower(s@) == spec_lower("fontconfig"@) ==> r == Ok::<Self, VariantParseError>(
                Self::FontConfig,
            ),
            spec_lower(s@) == spec_lower("coretext"@) ==> r == Ok::<Self, VariantParseError>(
                Self::CoreText,
            ),
            spec_lower(s@) == spec_lower("configdirsonly"@) ==> r == Ok::<Self, VariantParseError>(
                Self::ConfigDirsOnly,
            ),
            spec_lower(s@) == spec_lower("gdi"@) ==> r == Ok::<Self, VariantParseError>(Self::Gdi),
            (spec_lower(s@) != spec_lower("fontconfig"@) && spec_lower(s@) != spec_lower(
                "coretext"@,
            ) && spec_lower(s@) != spec_lower("configdirsonly"@) && spec_lower(s@) != spec_lower(
                "gdi"@,
            )) ==> r == Err::<Self, VariantParseError>(VariantParseError {}),
    {
        proof {
            reveal_strlit("fontconfig");
            reveal_strlit("coretext");
            reveal_strlit("configdirsonly");
            reveal_strlit("gdi");
            assert(spec_lower("fontconfig"@).len() == 10);
            assert(spec_lower("coretext"@).len() == 8);
            assert(spec_lower("configdirsonly"@).len() == 14);
            assert(spec_lower("gdi"@).len() == 3);
        }
        if str_eq_nocase(s, "fontconfig") {
            Ok(Self::FontConfig)
        } else if str_eq_nocase(s, "coretext") {
            Ok(Self::CoreText)
        } else if str_eq_nocase(s, "configdirsonly") {
            Ok(Self::ConfigDirsOnly)
        } else if str_eq_nocase(s, "gdi") {
            Ok(Self::Gdi)
        } else {
            Err(VariantParseError {})
        }
    }
}

/// The rasterizer used to render glyphs.
#[derive(Clone, Copy, Debug, PartialEq, Eq, Structural)]
pub enum FontRasterizerSelection {
    FreeType,
}

impl Default for FontRasterizerSelection {
    /// The only rasterizer is the default.
    fn default() -> (r: Self)
        ensures
            r is FreeType,
    {
        Self::FreeType
    }
}

impl FontRasterizerSelection {
    /// The accepted variant names.
    pub fn variants() -> (r: Vec<&'static str>)
        ensures
            r@.len() == 1,
            r@[0]@ == "FreeType"@,
    {
        let mut v: Vec<&'static str> = Vec::new();
        v.push("FreeType");
        v
    }

    /// Parse a variant name, ignoring ASCII case; an unknown name is
    /// refused.
    pub fn from_str(s: &str) -> (r: Result<Self, VariantParseError>)
        ensures
            spec_lower(s@) == spec_lower("freetype"@) ==> r == Ok::<Self, VariantParseError>(
                Self::FreeType,
            ),
            spec_lower(s@) != spec_lower("freetype"@) ==> r == Err::<Self, VariantParseError>(
                VariantParseError {},
            ),
    {
        if str_eq_nocase(s, "freetype") {
            Ok(Self::FreeType)
        } else {
            Err(VariantParseError {})
        }
    }
}

/// The shaper used to lay glyphs out.
#[derive(Clone, Copy, Debug, PartialEq, Eq, Structural)]
pub enum FontShaperSelection {
    Allsorts,
    Harfbuzz,
}

impl Default for FontShaperSelection {
    /// The default shaper is harfbuzz.
    fn default() -> (r: Self)
        ensures
            r is Harfbuzz,
    {
        Self::Harfbuzz
    }
}

impl FontShaperSelection {
    /// The accepted variant names.
    pub fn variants() -> (r: Vec<&'static str>)
        ensures
            r@.len() == 2,
            r@[0]@ == "Harfbuzz"@,
            r@[1]@ == "AllSorts"@,
    {
        let mut v: Vec<&'static str> = Vec::new();
        v.push("Harfbuzz");
        v.push("AllSorts");
        v
    }

    /// Parse a variant name, ignoring ASCII case; an unknown name is
    /// refused.
    pub fn from_str(s: &str) -> (r: Result<Self, VariantParseError>)
        ensures
            spec_lower(s@) == spec_lower("harfbuzz"@) ==> r == Ok::<Self, VariantParseError>(
                Self::Harfbuzz,
            ),
            spec_lower(s@) == spec_lower("allsorts"@) ==> r == Ok::<Self, VariantParseError>(
                Self::Allsorts,
            ),
            (spec_lower(s@) != spec_lower("harfbuzz"@) && spec_lower(s@) != spec_lower(
                "allsorts"@,
            )) ==> r == Err::<Self, VariantParseError>(VariantParseError {}),
    {
        proof {
            reveal_strlit("harfbuzz");
            reveal_strlit("allsorts");
            assert(spec_lower("harfbuzz"@)[0] == 'h');
            assert(spec_lower("allsorts"@)[0] == 'a');
        }
        if str_eq_nocase(s, "harfbuzz") {
            Ok(Self::Harfbuzz)
        } else if str_eq_nocase(s, "allsorts") {
            Ok(Self::Allsorts)
        } else {
            Err(VariantParseError {})
        }
    }
}

} // verus!
