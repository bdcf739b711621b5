//! The canonical model: a colour scheme, an ordered collection of schemes,
//! and the ways a conversion can fail.

use crate::hex::RGB_MAX;
use vstd::prelude::*;

verus! {

/// Why a conversion failed.
#[derive(Debug, Clone, Copy, PartialEq, Eq, Structural)]
pub enum SchemeError {
    /// The format has no decoder or no encoder, or its tag is not known.
    Unsupported,
    /// The input is not in the expected format: it does not parse, a
    /// required key is missing, or a colour is not well-formed.
    Invalid,
    /// The input bytes could not be decoded as text.
    Encoding,
}

/// One named palette: the sixteen ANSI colours, background and foreground,
/// each a 24-bit RGB value.
#[derive(Debug, Clone)]
pub struct ColorScheme {
    pub name: String,
    pub black: u32,
    pub red: u32,
    pub green: u32,
    pub yellow: u32,
    pub blue: u32,
    pub magenta: u32,
    pub cyan: u32,
    pub white: u32,
    pub bright_black: u32,
    pub bright_red: u32,
    pub bright_green: u32,
    pub bright_yellow: u32,
    pub bright_blue: u32,
    pub bright_magenta: u32,
    pub bright_cyan: u32,
    pub bright_white: u32,
    pub background: u32,
    pub foreground: u32,
}

/// A colour scheme as a mathematical value.
pub struct Scheme {
    pub name: Seq<char>,
    pub black: u32,
    pub red: u32,
    pub green: u32,
    pub yellow: u32,
    pub blue: u32,
    pub magenta: u32,
    pub cyan: u32,
    pub white: u32,
    pub bright_black: u32,
    pub bright_red: u32,
    pub bright_green: u32,
    pub bright_yellow: u32,
    pub bright_blue: u32,
    pub bright_magenta: u32,
    pub bright_cyan: u32,
    pub bright_white: u32,
    pub background: u32,
    pub foreground: u32,
}

impl Scheme {
    /// Every colour fits in 24 bits.
    pub open spec fn wf(self) -> bool {
        &&& self.black <= RGB_MAX
        &&& self.red <= RGB_MAX
        &&& self.green <= RGB_MAX
        &&& self.yellow <= RGB_MAX
        &&& self.blue <= RGB_MAX
        &&& self.magenta <= RGB_MAX
        &&& self.cyan <= RGB_MAX
        &&& self.white <= RGB_MAX
        &&& self.bright_black <= RGB_MAX
        &&& self.bright_red <= RGB_MAX
        &&& self.bright_green <= RGB_MAX
        &&& self.bright_yellow <= RGB_MAX
        &&& self.bright_blue <= RGB_MAX
        &&& self.bright_magenta <= RGB_MAX
        &&& self.bright_cyan <= RGB_MAX
        &&& self.bright_white <= RGB_MAX
        &&& self.background <= RGB_MAX
        &&& self.foreground <= RGB_MAX
    }
}

impl View for ColorScheme {
    type V = Scheme;

    open spec fn view(&self) -> Scheme {
        Scheme {
            name: self.name@,
            black: self.black,
            red: self.red,
            green: self.green,
            yellow: self.yellow,
            blue: self.blue,
            magenta: self.magenta,
            cyan: self.cyan,
            white: self.white,
            bright_black: self.bright_black,
            bright_red: self.bright_red,
            bright_green: self.bright_green,
            bright_yellow: self.bright_yellow,
            bright_blue: self.bright_blue,
            bright_magenta: self.bright_magenta,
            bright_cyan: self.bright_cyan,
            bright_white: self.bright_white,
            background: self.background,
            foreground: self.foreground,
        }
    }
}

impl ColorScheme {
    /// Whether every colour fits in 24 bits.
    pub fn is_well_formed(&self) -> (r: bool)
        ensures
            r == self@.wf(),
    {
        self.black <= RGB_MAX
            && self.red <= RGB_MAX
            && self.green <= RGB_MAX
            && self.yellow <= RGB_MAX
            && self.blue <= RGB_MAX
            && self.magenta <= RGB_MAX
            && self.cyan <= RGB_MAX
            && self.white <= RGB_MAX
            && self.bright_black <= RGB_MAX
            && self.bright_red <= RGB_MAX
            && self.bright_green <= RGB_MAX
            && self.bright_yellow <= RGB_MAX
            && self.bright_blue <= RGB_MAX
            && self.bright_magenta <= RGB_MAX
            && self.bright_cyan <= RGB_MAX
            && self.bright_white <= RGB_MAX
            && self.background <= RGB_MAX
            && self.foreground <= RGB_MAX
    }
}

/// Colour schemes in a meaningful order, which every conversion keeps.
#[derive(Debug, Clone)]
pub struct ColorSchemes(pub Vec<ColorScheme>);

impl View for ColorSchemes {
    type V = Seq<Scheme>;

    open spec fn view(&self) -> Seq<Scheme> {
        self.0@.map_values(|s: ColorScheme| s@)
    }
}

/// Every scheme of a collection is well-formed.
pub open spec fn all_wf(schemes: Seq<Scheme>) -> bool {
    forall|i: int| 0 <= i < schemes.len() ==> (#[trigger] schemes[i]).wf()
}

/// What a decoder hands back, as mathematical values.
pub open spec fn outcome(
    r: Result<Box<ColorSchemes>, SchemeError>,
) -> Result<Seq<Scheme>, SchemeError> {
    match r {
        Ok(schemes) => Ok(schemes@),
        Err(e) => Err(e),
    }
}

impl ColorSchemes {
    /// A collection of the given schemes, in the given order.
    pub fn new(v: Vec<ColorScheme>) -> (r: ColorSchemes)
        ensures
            r.0 == v,
            r@ == v@.map_values(|s: ColorScheme| s@),
    {
        ColorSchemes(v)
    }

    /// The number of schemes.
    pub fn len(&self) -> (n: usize)
        ensures
            n == self@.len(),
    {
        self.0.len()
    }

    /// The scheme at position `i`.
    pub fn get(&self, i: usize) -> (r: Option<&ColorScheme>)
        ensures
            match r {
                Some(s) => i < self@.len() && s@ == self@[i as int],
                None => i >= self@.len(),
            },
    {
        if i < self.0.len() {
            Some(&self.0[i])
        } else {
            None
        }
    }
}

} // verus!
