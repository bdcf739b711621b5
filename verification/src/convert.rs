//! One conversion: bytes to text, text to schemes, schemes to text.

use crate::alacritty;
use crate::format::SchemeFormat;
use crate::scheme::{all_wf, outcome, ColorSchemes, Scheme, SchemeError};
use crate::wt;
use crate::xshell;
use vstd::prelude::*;

verus! {

/// What the bytes of an input are as text: the text that `encoding_rs`
/// decodes from them in the encoding that `chardetng` guesses for them, and
/// whether any of the bytes could not be mapped.
pub uninterp spec fn decoded_text(bytes: Seq<u8>) -> (Seq<char>, bool);

/// Guesses the encoding of the bytes with `chardetng::EncodingDetector`,
/// fed all of them at once, with no domain given and UTF-8 allowed, and
/// decodes them with `Encoding::decode`. The result depends on the bytes
/// alone.
#[verifier::external_body]
pub(crate) fn decode_text(input: &[u8]) -> (r: (String, bool))
    ensures
        (r.0@, r.1) == decoded_text(input@),
{
    let mut detector = chardetng::EncodingDetector::new();
    detector.feed(input, true);
    let (text, _, malformed) = detector.guess(None, true).decode(input);
    (text.into_owned(), malformed)
}

/// What a text in the given format decodes to. A format without a decoder
/// is `Unsupported`.
pub open spec fn decoded_as(
    text: Seq<char>,
    fmt: SchemeFormat,
) -> Result<Seq<Scheme>, SchemeError> {
    match fmt {
        SchemeFormat::WindowsTerminal => wt::decoded(text),
        SchemeFormat::XShell => xshell::decoded(text),
        SchemeFormat::Alacritty => alacritty::decoded(text),
        _ => Err(SchemeError::Unsupported),
    }
}

/// The text written for a collection in a format that has an encoder.
pub open spec fn encoded_as(schemes: Seq<Scheme>, fmt: SchemeFormat) -> Seq<char> {
    match fmt {
        SchemeFormat::WindowsTerminal => wt::encoded(schemes),
        SchemeFormat::XShell => xshell::encoded(schemes),
        _ => alacritty::encoded(schemes),
    }
}

/// What one conversion comes to: `Encoding` where bytes of the input could
/// not be mapped, else the error of the decoder, else `Unsupported` where
/// the target has no encoder, else the schemes of the text written in the
/// target format.
pub open spec fn converted(
    text: Seq<char>,
    malformed: bool,
    source: SchemeFormat,
    target: SchemeFormat,
) -> Result<Seq<char>, SchemeError> {
    if malformed {
        Err(SchemeError::Encoding)
    } else {
        match decoded_as(text, source) {
            Err(e) => Err(e),
            Ok(schemes) => if target.can_encode() {
                Ok(encoded_as(schemes, target))
            } else {
                Err(SchemeError::Unsupported)
            },
        }
    }
}

/// What a conversion hands back, as mathematical values.
pub open spec fn text_outcome(
    r: Result<Box<String>, SchemeError>,
) -> Result<Seq<char>, SchemeError> {
    match r {
        Ok(text) => Ok(text@),
        Err(e) => Err(e),
    }
}

impl ColorSchemes {
    /// Decodes a text in the given format.
    pub fn from_literal(s: &str, fmt: SchemeFormat) -> (r: Result<Box<ColorSchemes>, SchemeError>)
        ensures
            outcome(r) == decoded_as(s@, fmt),
            r matches Ok(schemes) ==> all_wf(schemes@),
            !fmt.can_decode() ==> r == Err::<Box<ColorSchemes>, SchemeError>(
                SchemeError::Unsupported,
            ),
    {
        match fmt {
            SchemeFormat::WindowsTerminal => ColorSchemes::from_wt(s),
            SchemeFormat::XShell => ColorSchemes::from_xshell(s),
            SchemeFormat::Alacritty => ColorSchemes::from_alacritty(s),
            _ => Err(SchemeError::Unsupported),
        }
    }

    /// Encodes the collection in the given format, which has an encoder.
    pub fn to_literal(&self, fmt: SchemeFormat) -> (r: Box<String>)
        requires
            fmt.can_encode(),
        ensures
            r@ == encoded_as(self@, fmt),
    {
        match fmt {
            SchemeFormat::WindowsTerminal => self.to_wt(),
            SchemeFormat::XShell => self.to_xshell(),
            _ => self.to_alacritty(),
        }
    }
}

/// Converts a text, which was decoded from bytes with or without bytes
/// that could not be mapped, from one format to another.
pub fn convert_text(
    text: &str,
    malformed: bool,
    scheme_from: SchemeFormat,
    scheme_to: SchemeFormat,
) -> (r: Result<Box<String>, SchemeError>)
    ensures
        text_outcome(r) == converted(text@, malformed, scheme_from, scheme_to),
{
    if malformed {
        return Err(SchemeError::Encoding);
    }
    let schemes = ColorSchemes::from_literal(text, scheme_from)?;
    if scheme_to.has_encoder() {
        Ok(schemes.to_literal(scheme_to))
    } else {
        Err(SchemeError::Unsupported)
    }
}

/// Converts the bytes of a file from one format to another.
pub fn convert(
    input: &[u8],
    scheme_from: SchemeFormat,
    scheme_to: SchemeFormat,
) -> (r: Result<Box<String>, SchemeError>)
    ensures
        text_outcome(r) == converted(
            decoded_text(input@).0,
            decoded_text(input@).1,
            scheme_from,
            scheme_to,
        ),
{
    let (text, malformed) = decode_text(input);
    convert_text(text.as_str(), malformed, scheme_from, scheme_to)
}

} // verus!
