//! The formats that a conversion can read or write, and the words that
//! name them.

use crate::scheme::SchemeError;
use crate::text::str_eq;
use vstd::prelude::*;

verus! {

/// A format of colour schemes.
#[derive(Debug, Clone, Copy, PartialEq, Eq, Structural)]
pub enum SchemeFormat {
    WindowsTerminal,
    SecureCRT,
    XShell,
    Alacritty,
    MobaXTerm,
}

/// `str::to_lowercase` of a text: its lower-case equivalent by the rules of
/// Unicode, which depends on the text alone.
pub uninterp spec fn lowercase(s: Seq<char>) -> Seq<char>;

/// `str::trim` of a text: the text without the white space, as Unicode
/// defines it, at its start and at its end.
pub uninterp spec fn trimmed(s: Seq<char>) -> Seq<char>;

/// `str::to_lowercase` returns the lower-case equivalent as a new string.
pub assume_specification[ str::to_lowercase ](s: &str) -> (r: String)
    ensures
        r@ == lowercase(s@),
;

/// `str::trim` returns the part of the text between its leading and its
/// trailing white space.
pub assume_specification[ str::trim ](s: &str) -> (r: &str)
    ensures
        r@ == trimmed(s@),
;

/// The format that a word names. The word is taken as it stands.
pub open spec fn format_of_tag(tag: Seq<char>) -> Result<SchemeFormat, SchemeError> {
    if tag == "alacritty"@ {
        Ok(SchemeFormat::Alacritty)
    } else if tag == "xshell"@ || tag == "xcs"@ {
        Ok(SchemeFormat::XShell)
    } else if tag == "windowsterminal"@ || tag == "wt"@ {
        Ok(SchemeFormat::WindowsTerminal)
    } else {
        Err(SchemeError::Unsupported)
    }
}

impl SchemeFormat {
    /// Whether schemes can be read from this format.
    pub open spec fn can_decode(self) -> bool {
        self == SchemeFormat::WindowsTerminal || self == SchemeFormat::XShell || self
            == SchemeFormat::Alacritty
    }

    /// Whether schemes can be written in this format.
    pub open spec fn can_encode(self) -> bool {
        self == SchemeFormat::WindowsTerminal || self == SchemeFormat::XShell || self
            == SchemeFormat::Alacritty
    }

    /// Whether schemes can be read from this format.
    pub fn has_decoder(&self) -> (r: bool)
        ensures
            r == self.can_decode(),
    {
        match self {
            SchemeFormat::WindowsTerminal | SchemeFormat::XShell | SchemeFormat::Alacritty => true,
            SchemeFormat::SecureCRT | SchemeFormat::MobaXTerm => false,
        }
    }

    /// Whether schemes can be written in this format.
    pub fn has_encoder(&self) -> (r: bool)
        ensures
            r == self.can_encode(),
    {
        match self {
            SchemeFormat::WindowsTerminal | SchemeFormat::XShell | SchemeFormat::Alacritty => true,
            SchemeFormat::SecureCRT | SchemeFormat::MobaXTerm => false,
        }
    }

    /// The format that a word names, whatever the case of its letters and
    /// the white space around it.
    pub fn from_str(s: &str) -> (r: Result<SchemeFormat, SchemeError>)
        ensures
            r == format_of_tag(trimmed(lowercase(s@))),
    {
        let lower = s.to_lowercase();
        SchemeFormat::from_tag(lower.as_str().trim())
    }

    /// The format that a word names: `alacritty`; `xshell` or `xcs`;
    /// `windowsterminal` or `wt`. Any other word is `Unsupported`.
    pub fn from_tag(tag: &str) -> (r: Result<SchemeFormat, SchemeError>)
        ensures
            r == format_of_tag(tag@),
    {
        if str_eq(tag, "alacritty") {
            Ok(SchemeFormat::Alacritty)
        } else if str_eq(tag, "xshell") || str_eq(tag, "xcs") {
            Ok(SchemeFormat::XShell)
        } else if str_eq(tag, "windowsterminal") || str_eq(tag, "wt") {
            Ok(SchemeFormat::WindowsTerminal)
        } else {
            Err(SchemeError::Unsupported)
        }
    }
}

} // verus!
