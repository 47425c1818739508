//! Conversion of a text UI's colours to the colours of the host terminal.
//!
//! A text UI names the colour of a cell in one of four ways: as "reset", by
//! one of sixteen names, by an explicit red, green and blue, or by an index
//! into a palette. The host terminal knows only one kind of colour, a red,
//! green, blue and alpha of eight bits each. A [`ColourConverter`] is a policy
//! that turns the first into the second; [`BasicColourConverter`] is the
//! policy that the adapters use unless told otherwise.

use vstd::prelude::*;

verus! {

/// A colour as the text UI names it.
#[derive(Clone, Copy, Debug, PartialEq, Eq, Structural)]
pub enum Colour {
    /// Whatever the terminal shows when nothing was asked for.
    Reset,
    Black,
    Red,
    Green,
    Yellow,
    Blue,
    Magenta,
    Cyan,
    Gray,
    DarkGray,
    LightRed,
    LightGreen,
    LightYellow,
    LightBlue,
    LightMagenta,
    LightCyan,
    White,
    /// An explicit red, green and blue.
    Rgb(u8, u8, u8),
    /// A slot of the palette.
    Indexed(u8),
}

/// The style flags of a cell (bold, italic and so on), as a set of bits.
///
/// Conversion policies are handed the flags of the cell whose colour they
/// convert. The basic policy does not look at them.
#[derive(Clone, Copy, Debug, PartialEq, Eq, Structural)]
pub struct Modifier {
    pub bits: u16,
}

impl Modifier {
    /// No flag set.
    pub fn empty() -> (m: Modifier)
        ensures
            m.bits == 0,
    {
        Modifier { bits: 0 }
    }
}

/// A colour of the host terminal: red, green, blue and alpha, each from 0 to
/// 255. An alpha of 255 is opaque.
#[derive(Clone, Copy, Debug, PartialEq, Eq, Structural)]
pub struct Rgba {
    pub r: u8,
    pub g: u8,
    pub b: u8,
    pub a: u8,
}

impl Rgba {
    /// The opaque colour with the given channels.
    pub open spec fn solid(r: u8, g: u8, b: u8) -> Rgba {
        Rgba { r, g, b, a: 255 }
    }

    /// The colour with the given channels.
    pub fn new(r: u8, g: u8, b: u8, a: u8) -> (c: Rgba)
        ensures
            c == (Rgba { r, g, b, a }),
    {
        Rgba { r, g, b, a }
    }

    /// The opaque colour with the given channels.
    pub fn opaque(r: u8, g: u8, b: u8) -> (c: Rgba)
        ensures
            c == Rgba::solid(r, g, b),
    {
        Rgba { r, g, b, a: 255 }
    }
}

impl Colour {
    /// Whether the colour is one of the sixteen names.
    pub open spec fn is_named(self) -> bool {
        !(self is Reset) && !(self is Rgb) && !(self is Indexed)
    }

    /// The entry of the host's palette of named colours that stands for a
    /// named colour, and `None` for a colour that is not named. The dark and
    /// bright variants go to the host colour whose name is nearest, so the
    /// plain red is the host's dark red and the light red is the host's red.
    pub open spec fn named_entry(self) -> Option<Rgba> {
        match self {
            Colour::Black => Some(Rgba::solid(0, 0, 0)),
            Colour::Red => Some(Rgba::solid(139, 0, 0)),
            Colour::Green => Some(Rgba::solid(0, 255, 0)),
            Colour::Yellow => Some(Rgba::solid(255, 255, 0)),
            Colour::Blue => Some(Rgba::solid(0, 0, 255)),
            Colour::Magenta => Some(Rgba::solid(139, 0, 139)),
            Colour::Cyan => Some(Rgba::solid(0, 255, 255)),
            Colour::Gray => Some(Rgba::solid(190, 190, 190)),
            Colour::DarkGray => Some(Rgba::solid(169, 169, 169)),
            Colour::LightRed => Some(Rgba::solid(255, 0, 0)),
            Colour::LightGreen => Some(Rgba::solid(144, 238, 144)),
            Colour::LightYellow => Some(Rgba::solid(255, 255, 224)),
            Colour::LightBlue => Some(Rgba::solid(173, 216, 230)),
            Colour::LightMagenta => Some(Rgba::solid(255, 0, 255)),
            Colour::LightCyan => Some(Rgba::solid(224, 255, 255)),
            Colour::White => Some(Rgba::solid(255, 255, 255)),
            Colour::Reset | Colour::Rgb(..) | Colour::Indexed(_) => None,
        }
    }
}

/// What the basic policy makes of `colour`, given the palette it was set up
/// with and the colour to fall back on.
///
/// A named colour is its entry of the host's named palette. An explicit red,
/// green and blue is the opaque host colour with those channels. "Reset" is
/// the fallback. An index is the palette's slot of that index where there is
/// a palette and it has such a slot, and the fallback otherwise.
pub open spec fn converted(palette: Option<Seq<Rgba>>, colour: Colour, fallback: Rgba) -> Rgba {
    match colour {
        Colour::Reset => fallback,
        Colour::Rgb(r, g, b) => Rgba::solid(r, g, b),
        Colour::Indexed(i) => match palette {
            Some(slots) => if i < slots.len() {
                slots[i as int]
            } else {
                fallback
            },
            None => fallback,
        },
        _ => colour.named_entry()->0,
    }
}

/// A policy for turning the text UI's colours into host colours.
///
/// The foreground and the background of a cell are converted apart, each
/// with the cell's style flags at hand. A policy is a function: what it
/// returns depends on the policy's own settings, the colour and the flags,
/// and on nothing else. `fg_of` and `bg_of` say what that function is, and
/// the adapters' contracts speak of the host colours through them.
///
/// A policy that is written outside verified code has `fg_of` and `bg_of` as
/// ordinary methods, and is to give them the values that `convert_fg` and
/// `convert_bg` return.
pub trait ColourConverter {
    /// The host colour that this policy gives a foreground colour.
    spec fn fg_of(&self, colour: Colour, modifier: Modifier) -> Rgba;

    /// The host colour that this policy gives a background colour.
    spec fn bg_of(&self, colour: Colour, modifier: Modifier) -> Rgba;

    /// Converts the foreground colour of a cell.
    fn convert_fg(&self, colour: Colour, modifier: Modifier) -> (native: Rgba)
        ensures
            native == self.fg_of(colour, modifier),
    ;

    /// Converts the background colour of a cell.
    fn convert_bg(&self, colour: Colour, modifier: Modifier) -> (native: Rgba)
        ensures
            native == self.bg_of(colour, modifier),
    ;
}

/// The basic conversion policy.
///
/// - "Reset" becomes the default foreground or the default background,
///   whichever was asked for.
/// - An explicit red, green and blue is taken over as it is.
/// - A named colour becomes the host's named colour that is nearest to it.
/// - An indexed colour is looked up in the table of indexed colours. Without
///   a table, and for an index beyond its end, it becomes the default.
/// - The style flags are ignored.
#[derive(Clone)]
pub struct BasicColourConverter {
    pub default_fg: Rgba,
    pub default_bg: Rgba,
    pub indexed_colours: Option<Vec<Rgba>>,
}

impl BasicColourConverter {
    /// The table of indexed colours as a sequence, if there is one.
    pub open spec fn palette(&self) -> Option<Seq<Rgba>> {
        match self.indexed_colours {
            Some(slots) => Some(slots@),
            None => None,
        }
    }

    /// Converts `colour`, with `fallback` standing in for "reset" and for an
    /// index that the table does not hold.
    pub fn convert_colour(&self, colour: Colour, fallback: Rgba) -> (native: Rgba)
        ensures
            native == converted(self.palette(), colour, fallback),
    {
        match colour {
            Colour::Reset => fallback,
            Colour::Black => Rgba::opaque(0, 0, 0),
            Colour::Red => Rgba::opaque(139, 0, 0),
            Colour::Green => Rgba::opaque(0, 255, 0),
            Colour::Yellow => Rgba::opaque(255, 255, 0),
            Colour::Blue => Rgba::opaque(0, 0, 255),
            Colour::Magenta => Rgba::opaque(139, 0, 139),
            Colour::Cyan => Rgba::opaque(0, 255, 255),
            Colour::Gray => Rgba::opaque(190, 190, 190),
            Colour::DarkGray => Rgba::opaque(169, 169, 169),
            Colour::LightRed => Rgba::opaque(255, 0, 0),
            Colour::LightGreen => Rgba::opaque(144, 238, 144),
            Colour::LightYellow => Rgba::opaque(255, 255, 224),
            Colour::LightBlue => Rgba::opaque(173, 216, 230),
            Colour::LightMagenta => Rgba::opaque(255, 0, 255),
            Colour::LightCyan => Rgba::opaque(224, 255, 255),
            Colour::White => Rgba::opaque(255, 255, 255),
            Colour::Rgb(r, g, b) => Rgba::opaque(r, g, b),
            Colour::Indexed(i) => match &self.indexed_colours {
                Some(slots) => {
                    let at: usize = i as usize;
                    if at < slots.len() {
                        slots[at]
                    } else {
                        fallback
                    }
                },
                None => fallback,
            },
        }
    }
}

impl Default for BasicColourConverter {
    /// White on black, without a table of indexed colours.
    fn default() -> (c: Self)
        ensures
            c.default_fg == Rgba::solid(255, 255, 255),
            c.default_bg == Rgba::solid(0, 0, 0),
            c.indexed_colours is None,
    {
        BasicColourConverter {
            default_fg: Rgba::opaque(255, 255, 255),
            default_bg: Rgba::opaque(0, 0, 0),
            indexed_colours: None,
        }
    }
}

impl ColourConverter for BasicColourConverter {
    open spec fn fg_of(&self, colour: Colour, modifier: Modifier) -> Rgba {
        converted(self.palette(), colour, self.default_fg)
    }

    open spec fn bg_of(&self, colour: Colour, modifier: Modifier) -> Rgba {
        converted(self.palette(), colour, self.default_bg)
    }

    fn convert_fg(&self, colour: Colour, modifier: Modifier) -> (native: Rgba) {
        self.convert_colour(colour, self.default_fg)
    }

    fn convert_bg(&self, colour: Colour, modifier: Modifier) -> (native: Rgba) {
        self.convert_colour(colour, self.default_bg)
    }
}

/// A named colour converts to its entry of the host's named palette whatever
/// the fallback, the palette and the style flags are. So any two basic
/// policies agree on it, as foreground and as background.
pub proof fn lemma_named_is_fixed(
    a: BasicColourConverter,
    b: BasicColourConverter,
    colour: Colour,
    fallback: Rgba,
    flags_a: Modifier,
    flags_b: Modifier,
)
    requires
        colour.is_named(),
    ensures
        colour.named_entry() is Some,
        converted(a.palette(), colour, fallback) == colour.named_entry()->0,
        a.fg_of(colour, flags_a) == colour.named_entry()->0,
        a.bg_of(colour, flags_a) == colour.named_entry()->0,
        a.fg_of(colour, flags_a) == b.fg_of(colour, flags_b),
        a.bg_of(colour, flags_a) == b.bg_of(colour, flags_b),
{
}

/// "Reset" converts to the default foreground where a foreground is asked
/// for and to the default background where a background is asked for. Neither
/// depends on the other default, on the palette or on the style flags.
pub proof fn lemma_reset_is_default(
    a: BasicColourConverter,
    b: BasicColourConverter,
    flags_a: Modifier,
    flags_b: Modifier,
)
    ensures
        a.fg_of(Colour::Reset, flags_a) == a.default_fg,
        a.bg_of(Colour::Reset, flags_a) == a.default_bg,
        a.default_fg == b.default_fg ==> a.fg_of(Colour::Reset, flags_a) == b.fg_of(
            Colour::Reset,
            flags_b,
        ),
        a.default_bg == b.default_bg ==> a.bg_of(Colour::Reset, flags_a) == b.bg_of(
            Colour::Reset,
            flags_b,
        ),
{
}

/// An index converts to the palette's slot of that index exactly where there
/// is a palette that has such a slot: the first slot and the last one are
/// found, the index just past the last one is not. Everywhere else it
/// converts to the fallback.
pub proof fn lemma_indexed_lookup(c: BasicColourConverter, i: u8, fallback: Rgba, flags: Modifier)
    ensures
        c.indexed_colours is Some && i < c.indexed_colours->0@.len() ==> converted(
            c.palette(),
            Colour::Indexed(i),
            fallback,
        ) == c.indexed_colours->0@[i as int],
        c.indexed_colours is None || i >= c.indexed_colours->0@.len() ==> converted(
            c.palette(),
            Colour::Indexed(i),
            fallback,
        ) == fallback,
        c.fg_of(Colour::Indexed(i), flags) == converted(
            c.palette(),
            Colour::Indexed(i),
            c.default_fg,
        ),
        c.bg_of(Colour::Indexed(i), flags) == converted(
            c.palette(),
            Colour::Indexed(i),
            c.default_bg,
        ),
{
}

/// An explicit red, green and blue converts to the opaque host colour with
/// exactly those channels, for every value of each channel.
pub proof fn lemma_rgb_is_copied(
    c: BasicColourConverter,
    r: u8,
    g: u8,
    b: u8,
    fallback: Rgba,
    flags: Modifier,
)
    ensures
        converted(c.palette(), Colour::Rgb(r, g, b), fallback) == (Rgba { r, g, b, a: 255 }),
        c.fg_of(Colour::Rgb(r, g, b), flags) == (Rgba { r, g, b, a: 255 }),
        c.bg_of(Colour::Rgb(r, g, b), flags) == (Rgba { r, g, b, a: 255 }),
{
}

/// The basic policy does not look at the style flags: a colour converts
/// alike under any two sets of them.
pub proof fn lemma_flags_are_ignored(
    c: BasicColourConverter,
    colour: Colour,
    flags_a: Modifier,
    flags_b: Modifier,
)
    ensures
        c.fg_of(colour, flags_a) == c.fg_of(colour, flags_b),
        c.bg_of(colour, flags_a) == c.bg_of(colour, flags_b),
{
}

} // verus!
